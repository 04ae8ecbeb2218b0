//! The producer side's decisions: what to do with each read from the video
//! source, and when to stop.
use vstd::prelude::*;

use crate::frame::{
    buffers_fit, encode, encoded, same_dimensions, ColorFrame, IntensityFrame,
};

verus! {

/// What one read from the video source gave, after resizing and grayscale
/// conversion.
pub enum ReadOutcome {
    /// A frame and its grayscale companion.
    Frame(ColorFrame, IntensityFrame),
    /// The read succeeded but held no pixels.
    EmptyFrame,
    /// The source has no more frames.
    EndOfStream,
    /// The source could not be read.
    Failed,
}

/// Why the producer stopped. None of these is an error to report.
#[derive(Clone, Copy, Debug, PartialEq, Eq, Structural)]
pub enum ProducerEnd {
    SourceExhausted,
    ChannelClosed,
    SourceFailed,
}

/// The producer's next move.
pub enum ProducerStep {
    /// Send this text block, then read again.
    Send(String),
    /// Drop this read and read again.
    Skip,
    /// Stop producing, which closes the sending side.
    Stop(ProducerEnd),
}

/// Decides what follows a read: encode and send a frame, skip an empty or
/// malformed one, stop at the end of the source or when it failed.
pub fn after_read(read: ReadOutcome, ramp: &str) -> (step: ProducerStep)
    requires
        ramp@.len() >= 2,
        ramp@.len() * 255 <= usize::MAX,
    ensures
        match read {
            ReadOutcome::Frame(c, g) => if same_dimensions(&c, &g) && buffers_fit(&c, &g) {
                step matches ProducerStep::Send(s) && s@ == encoded(&c, &g, ramp@)
            } else {
                step is Skip
            },
            ReadOutcome::EmptyFrame => step is Skip,
            ReadOutcome::EndOfStream => step == ProducerStep::Stop(ProducerEnd::SourceExhausted),
            ReadOutcome::Failed => step == ProducerStep::Stop(ProducerEnd::SourceFailed),
        },
{
    match read {
        ReadOutcome::Frame(c, g) => match encode(&c, &g, ramp) {
            Ok(s) => ProducerStep::Send(s),
            Err(_) => ProducerStep::Skip,
        },
        ReadOutcome::EmptyFrame => ProducerStep::Skip,
        ReadOutcome::EndOfStream => ProducerStep::Stop(ProducerEnd::SourceExhausted),
        ReadOutcome::Failed => ProducerStep::Stop(ProducerEnd::SourceFailed),
    }
}

/// Decides what follows a send: go on after a delivered block, stop once the
/// receiving side is closed.
pub fn after_send(delivered: bool) -> (end: Option<ProducerEnd>)
    ensures
        delivered ==> end is None,
        !delivered ==> end == Some(ProducerEnd::ChannelClosed),
{
    if delivered {
        None
    } else {
        Some(ProducerEnd::ChannelClosed)
    }
}

} // verus!
