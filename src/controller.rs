//! The consumer side's state machine: playing (possibly paused), the exit
//! prompt once the stream ended or the user quit, and finished, when the
//! terminal is to be restored.
use vstd::prelude::*;

use crate::playback::{command_of, decode_key, next_state, Command, Key, PlaybackState};

verus! {

#[derive(Clone, Copy, Debug, PartialEq, Eq, Structural)]
pub enum Phase {
    /// Frames are received and rendered unless playback is paused.
    Playing,
    /// The stream ended or the user quit: waiting for any key.
    ExitPrompt,
    /// Teardown is due.
    Finished,
}

#[derive(Clone, Copy, Debug, PartialEq, Eq, Structural)]
pub struct Controller {
    pub phase: Phase,
    pub playback: PlaybackState,
}

/// The controller after a key press.
pub open spec fn after_key(c: Controller, k: Key) -> Controller {
    match c.phase {
        Phase::Playing => if command_of(k) == Command::Quit {
            Controller { phase: Phase::ExitPrompt, ..c }
        } else {
            Controller { playback: next_state(c.playback, command_of(k)), ..c }
        },
        Phase::ExitPrompt => Controller { phase: Phase::Finished, ..c },
        Phase::Finished => c,
    }
}

/// The controller after the channel reported the end of the stream.
pub open spec fn after_stream_end(c: Controller) -> Controller {
    match c.phase {
        Phase::Playing => Controller { phase: Phase::ExitPrompt, ..c },
        _ => c,
    }
}

impl Controller {
    pub open spec fn wf(&self) -> bool {
        self.playback.wf()
    }

    /// Playing, unpaused, at multiplier one.
    pub fn new() -> (c: Self)
        ensures
            c.wf(),
            c.phase == Phase::Playing,
            c.playback == PlaybackState::new_spec(),
    {
        Controller { phase: Phase::Playing, playback: PlaybackState::new() }
    }

    /// Whether this cycle takes a frame from the channel: only while playing
    /// and not paused.
    pub fn should_receive(&self) -> (r: bool)
        ensures
            r == (self.phase == Phase::Playing && !self.playback.paused),
    {
        match self.phase {
            Phase::Playing => !self.playback.paused,
            _ => false,
        }
    }

    /// Whether the terminal is to be restored now.
    pub fn is_finished(&self) -> (r: bool)
        ensures
            r == (self.phase == Phase::Finished),
    {
        match self.phase {
            Phase::Finished => true,
            _ => false,
        }
    }

    /// Whether the exit prompt is shown.
    pub fn in_exit_prompt(&self) -> (r: bool)
        ensures
            r == (self.phase == Phase::ExitPrompt),
    {
        match self.phase {
            Phase::ExitPrompt => true,
            _ => false,
        }
    }

    /// Handles a key press: while playing, `q` moves to the exit prompt and
    /// other keys drive the playback state; at the exit prompt any key
    /// finishes.
    pub fn on_key(&mut self, k: Key)
        requires
            old(self).wf(),
        ensures
            *final(self) == after_key(*old(self), k),
            final(self).wf(),
    {
        match self.phase {
            Phase::Playing => {
                let c = decode_key(k);
                let quit = self.playback.dispatch(c);
                if quit {
                    self.phase = Phase::ExitPrompt;
                }
            },
            Phase::ExitPrompt => {
                self.phase = Phase::Finished;
            },
            Phase::Finished => {},
        }
    }

    /// Handles the end of the stream, reported by a failed receive: playing
    /// moves to the exit prompt.
    pub fn on_stream_end(&mut self)
        requires
            old(self).wf(),
        ensures
            *final(self) == after_stream_end(*old(self)),
            final(self).wf(),
    {
        if let Phase::Playing = self.phase {
            self.phase = Phase::ExitPrompt;
        }
    }
}

/// Rows kept free below the picture, for the status line.
pub const RESERVED_ROWS: u16 = 1;

/// The rows left for the picture on a terminal of `term_rows` rows; the
/// status line sits on the row just below them.
pub fn viewport_rows(term_rows: u16) -> (r: u16)
    ensures
        term_rows >= RESERVED_ROWS ==> r == term_rows - RESERVED_ROWS,
        term_rows < RESERVED_ROWS ==> r == 0,
{
    if term_rows >= RESERVED_ROWS {
        term_rows - RESERVED_ROWS
    } else {
        0
    }
}

/// The column at which a text of `text_len` columns starts when centered on
/// a line of `term_cols` columns; a text wider than the line starts at 0.
pub fn centered_column(term_cols: u16, text_len: usize) -> (r: u16)
    ensures
        text_len <= term_cols ==> r == (term_cols - text_len) / 2,
        text_len > term_cols ==> r == 0,
{
    if text_len <= term_cols as usize {
        (term_cols - text_len as u16) / 2
    } else {
        0
    }
}

/// Every run ends the same way: from any phase, a quit followed by one more
/// key, or the end of the stream followed by one key, finishes, and so leads
/// to teardown.
pub proof fn lemma_quit_then_key_finishes(c: Controller, k: Key)
    ensures
        after_key(after_key(c, Key::Char('q')), k).phase == Phase::Finished,
        after_key(after_stream_end(c), k).phase == Phase::Finished,
{
}

} // verus!
