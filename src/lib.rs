//! Terminal video rendering core: intensity-to-glyph mapping, frame encoding,
//! a bounded single-producer/single-consumer frame queue, and the decision
//! logic of the producer and of the playback controller.

pub mod glyph;
pub mod frame;
pub mod channel;
pub mod playback;
pub mod controller;
pub mod producer;
