use ascii_video::channel::{FrameQueue, RecvError, SendError};
use ascii_video::controller::{centered_column, viewport_rows, Controller, Phase};
use ascii_video::frame::{encode, Bgr, ColorFrame, IntensityFrame};
use ascii_video::glyph::GLYPH_RAMP;
use ascii_video::playback::Key;
use ascii_video::producer::{after_read, after_send, ProducerEnd, ProducerStep, ReadOutcome};

fn synthetic_frame(k: u8) -> ReadOutcome {
    ReadOutcome::Frame(
        ColorFrame { width: 2, height: 1, pixels: vec![Bgr { b: k, g: k, r: k }; 2] },
        IntensityFrame { width: 2, height: 1, levels: vec![k * 60, 255] },
    )
}

fn ramp75() -> String {
    let mut r = String::from(GLYPH_RAMP);
    r.push('%');
    assert_eq!(r.chars().count(), 75);
    r
}

/// Runs the producer's decisions until the queue is full or the source ends.
fn produce(source: &mut Vec<ReadOutcome>, q: &mut FrameQueue<String>, ramp: &str) {
    while !source.is_empty() && q.len() < q.capacity() {
        match after_read(source.remove(0), ramp) {
            ProducerStep::Send(block) => {
                let delivered = q.try_send(block).is_ok();
                assert_eq!(after_send(delivered), None);
            }
            ProducerStep::Skip => {}
            ProducerStep::Stop(end) => {
                assert_eq!(end, ProducerEnd::SourceExhausted);
                q.close_sender();
            }
        }
    }
}

#[test]
fn pause_and_resume_render_frames_in_order() {
    let ramp = ramp75();
    let mut source = vec![synthetic_frame(1), synthetic_frame(2), ReadOutcome::EmptyFrame, synthetic_frame(3), ReadOutcome::EndOfStream];
    let expected: Vec<String> = (1..=3u8)
        .map(|k| match synthetic_frame(k) {
            ReadOutcome::Frame(c, g) => encode(&c, &g, &ramp).unwrap(),
            _ => unreachable!(),
        })
        .collect();
    let mut q: FrameQueue<String> = FrameQueue::new(50);
    let mut c = Controller::new();
    let mut rendered: Vec<String> = Vec::new();
    // keys pressed at each cycle: pause right after frame 1, resume two cycles later
    let keys = [Some(Key::Char(' ')), None, Some(Key::Char(' ')), None, None, Some(Key::Char('q')), Some(Key::Other)];
    for key in keys {
        produce(&mut source, &mut q, &ramp);
        if c.should_receive() {
            match q.try_recv() {
                Ok(block) => rendered.push(block),
                Err(RecvError::Closed) => c.on_stream_end(),
                Err(RecvError::Empty) => {}
            }
        }
        if let Some(k) = key {
            c.on_key(k);
        }
        if c.is_finished() {
            q.close_receiver();
            break;
        }
    }
    assert_eq!(rendered, expected);
    assert!(c.is_finished());
    assert_eq!(c.phase, Phase::Finished);
}

#[test]
fn end_of_stream_leads_to_exit_prompt() {
    let mut q: FrameQueue<String> = FrameQueue::new(2);
    q.close_sender();
    let mut c = Controller::new();
    assert!(c.should_receive());
    assert_eq!(q.try_recv(), Err(RecvError::Closed));
    c.on_stream_end();
    assert!(c.in_exit_prompt());
    assert!(!c.should_receive());
    c.on_key(Key::Left);
    assert!(c.is_finished());
}

#[test]
fn closed_receiver_stops_the_producer() {
    let ramp = ramp75();
    let mut q: FrameQueue<String> = FrameQueue::new(50);
    q.close_receiver();
    match after_read(synthetic_frame(1), &ramp) {
        ProducerStep::Send(block) => {
            let r = q.try_send(block);
            assert!(matches!(r, Err(SendError::Closed(_))));
            assert_eq!(after_send(r.is_ok()), Some(ProducerEnd::ChannelClosed));
        }
        _ => panic!("a good frame must be sent"),
    }
}

#[test]
fn producer_decisions_on_each_read() {
    assert!(matches!(after_read(ReadOutcome::EndOfStream, GLYPH_RAMP), ProducerStep::Stop(ProducerEnd::SourceExhausted)));
    assert!(matches!(after_read(ReadOutcome::Failed, GLYPH_RAMP), ProducerStep::Stop(ProducerEnd::SourceFailed)));
    assert!(matches!(after_read(ReadOutcome::EmptyFrame, GLYPH_RAMP), ProducerStep::Skip));
    let bad = ReadOutcome::Frame(
        ColorFrame { width: 2, height: 1, pixels: vec![Bgr { b: 0, g: 0, r: 0 }; 2] },
        IntensityFrame { width: 1, height: 1, levels: vec![0] },
    );
    assert!(matches!(after_read(bad, GLYPH_RAMP), ProducerStep::Skip));
}

#[test]
fn paused_controller_keeps_taking_keys() {
    let mut c = Controller::new();
    c.on_key(Key::Char(' '));
    assert!(!c.should_receive());
    c.on_key(Key::Left);
    c.on_key(Key::Left);
    assert_eq!(c.playback.speed_exp, 2);
    assert!(c.playback.paused);
    c.on_key(Key::Char('q'));
    assert!(c.in_exit_prompt());
}

#[test]
fn layout_helpers() {
    assert_eq!(viewport_rows(24), 23);
    assert_eq!(viewport_rows(0), 0);
    assert_eq!(centered_column(80, 2), 39);
    assert_eq!(centered_column(81, 5), 38);
    assert_eq!(centered_column(3, 5), 0);
}
