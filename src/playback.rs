//! Playback state and the controller's decisions: which key means what, how
//! the pause flag and the speed multiplier change, and when playback ends.
use vstd::prelude::*;

verus! {

/// A key press as the terminal reports it.
#[derive(Clone, Copy, Debug, PartialEq, Eq, Structural)]
pub enum Key {
    Char(char),
    Left,
    Right,
    Other,
}

/// What a key asks of the controller.
#[derive(Clone, Copy, Debug, PartialEq, Eq, Structural)]
pub enum Command {
    Quit,
    TogglePause,
    /// Halves the multiplier (shorter frame delay).
    SpeedUp,
    /// Doubles the multiplier (longer frame delay).
    SlowDown,
    Unrecognized,
}

/// The fixed key bindings.
pub open spec fn command_of(k: Key) -> Command {
    match k {
        Key::Char(c) => if c == 'q' {
            Command::Quit
        } else if c == ' ' {
            Command::TogglePause
        } else {
            Command::Unrecognized
        },
        Key::Left => Command::SlowDown,
        Key::Right => Command::SpeedUp,
        Key::Other => Command::Unrecognized,
    }
}

/// `q` quits, space toggles pause, left arrow slows down, right arrow speeds
/// up; any other key is unrecognized.
pub fn decode_key(k: Key) -> (c: Command)
    ensures
        c == command_of(k),
{
    match k {
        Key::Char(c) => if c == 'q' {
            Command::Quit
        } else if c == ' ' {
            Command::TogglePause
        } else {
            Command::Unrecognized
        },
        Key::Left => Command::SlowDown,
        Key::Right => Command::SpeedUp,
        Key::Other => Command::Unrecognized,
    }
}

/// The smallest and largest exponent of the speed multiplier `2^speed_exp`,
/// that is the multiplier stays in `[0.25, 4.0]`.
pub const SPEED_EXP_MIN: i8 = -2;

pub const SPEED_EXP_MAX: i8 = 2;

/// Whether playback is paused, and the frame delay multiplier `2^speed_exp`.
#[derive(Clone, Copy, Debug, PartialEq, Eq, Structural)]
pub struct PlaybackState {
    pub paused: bool,
    pub speed_exp: i8,
}

/// The state after one command. Quit and unrecognized keys leave it as it is.
pub open spec fn next_state(s: PlaybackState, c: Command) -> PlaybackState {
    match c {
        Command::TogglePause => PlaybackState { paused: !s.paused, ..s },
        Command::SlowDown => if s.speed_exp < SPEED_EXP_MAX {
            PlaybackState { speed_exp: (s.speed_exp + 1) as i8, ..s }
        } else {
            s
        },
        Command::SpeedUp => if s.speed_exp > SPEED_EXP_MIN {
            PlaybackState { speed_exp: (s.speed_exp - 1) as i8, ..s }
        } else {
            s
        },
        _ => s,
    }
}

/// The state after a run of commands, in order.
pub open spec fn run_commands(s: PlaybackState, cs: Seq<Command>) -> PlaybackState
    decreases cs.len(),
{
    if cs.len() == 0 {
        s
    } else {
        run_commands(next_state(s, cs[0]), cs.drop_first())
    }
}

/// The frame delay scaled by `2^e`, in whole microseconds, rounded down.
pub open spec fn scaled_delay(base: nat, e: int) -> nat {
    if e >= 0 {
        base * pow2(e as nat)
    } else {
        base / pow2((-e) as nat)
    }
}

pub open spec fn pow2(e: nat) -> nat
    decreases e,
{
    if e == 0 {
        1
    } else {
        2 * pow2((e - 1) as nat)
    }
}

/// The status line: the inverse of the multiplier followed by `x`.
pub open spec fn speed_label_of(e: int) -> Seq<char> {
    if e <= -2 {
        seq!['4', 'x']
    } else if e == -1 {
        seq!['2', 'x']
    } else if e == 0 {
        seq!['1', 'x']
    } else if e == 1 {
        seq!['0', '.', '5', 'x']
    } else {
        seq!['0', '.', '2', '5', 'x']
    }
}

impl PlaybackState {
    /// The multiplier stays in `[0.25, 4.0]`.
    pub open spec fn wf(&self) -> bool {
        SPEED_EXP_MIN <= self.speed_exp <= SPEED_EXP_MAX
    }

    /// Playing, at multiplier one.
    pub open spec fn new_spec() -> Self {
        PlaybackState { paused: false, speed_exp: 0 }
    }

    /// Playing, at multiplier one.
    pub fn new() -> (s: Self)
        ensures
            s == Self::new_spec(),
            s.wf(),
            !s.paused,
            s.speed_exp == 0,
    {
        PlaybackState { paused: false, speed_exp: 0 }
    }

    /// Applies one command; returns whether it asks to quit.
    pub fn dispatch(&mut self, c: Command) -> (quit: bool)
        requires
            old(self).wf(),
        ensures
            *final(self) == next_state(*old(self), c),
            final(self).wf(),
            quit == (c == Command::Quit),
    {
        match c {
            Command::TogglePause => {
                self.paused = !self.paused;
            },
            Command::SlowDown => {
                if self.speed_exp < SPEED_EXP_MAX {
                    self.speed_exp = self.speed_exp + 1;
                }
            },
            Command::SpeedUp => {
                if self.speed_exp > SPEED_EXP_MIN {
                    self.speed_exp = self.speed_exp - 1;
                }
            },
            _ => {},
        }
        c == Command::Quit
    }

    /// The pause between two frames: `base_us` times the multiplier, in
    /// microseconds, rounded down.
    pub fn frame_delay_us(&self, base_us: u64) -> (d: u64)
        requires
            self.wf(),
            base_us <= u64::MAX / 4,
        ensures
            d == scaled_delay(base_us as nat, self.speed_exp as int),
    {
        proof {
            reveal_with_fuel(pow2, 3);
            assert(pow2(0) == 1);
            assert(pow2(1) == 2);
            assert(pow2(2) == 4);
        }
        if self.speed_exp >= 2 {
            base_us * 4
        } else if self.speed_exp == 1 {
            base_us * 2
        } else if self.speed_exp == 0 {
            base_us
        } else if self.speed_exp == -1 {
            base_us / 2
        } else {
            base_us / 4
        }
    }

    /// The speed indicator shown on the status line, such as `2x`.
    pub fn speed_label(&self) -> (r: String)
        requires
            self.wf(),
        ensures
            r@ == speed_label_of(self.speed_exp as int),
    {
        let s = if self.speed_exp <= -2 {
            "4x"
        } else if self.speed_exp == -1 {
            "2x"
        } else if self.speed_exp == 0 {
            "1x"
        } else if self.speed_exp == 1 {
            "0.5x"
        } else {
            "0.25x"
        };
        proof {
            reveal_strlit("4x");
            reveal_strlit("2x");
            reveal_strlit("1x");
            reveal_strlit("0.5x");
            reveal_strlit("0.25x");
        }
        let r = s.to_owned();
        assert(r@ =~= speed_label_of(self.speed_exp as int));
        r
    }
}

/// However many commands arrive, the multiplier stays in `[0.25, 4.0]`.
pub proof fn lemma_speed_stays_in_range(s: PlaybackState, cs: Seq<Command>)
    requires
        s.wf(),
    ensures
        run_commands(s, cs).wf(),
    decreases cs.len(),
{
    if cs.len() > 0 {
        lemma_speed_stays_in_range(next_state(s, cs[0]), cs.drop_first());
    }
}

/// Slowing down saturates: from any state, `k` slow-down commands with
/// `k >= 4` leave the multiplier at its maximum, 4.0, and the pause flag as
/// it was.
pub proof fn lemma_slow_down_saturates(s: PlaybackState, k: nat)
    requires
        s.wf(),
        k >= 4,
    ensures
        run_commands(s, Seq::new(k, |i: int| Command::SlowDown)).speed_exp == SPEED_EXP_MAX,
        run_commands(s, Seq::new(k, |i: int| Command::SlowDown)).paused == s.paused,
{
    lemma_slow_down_run(s, k);
}

proof fn lemma_slow_down_run(s: PlaybackState, k: nat)
    requires
        s.wf(),
    ensures
        run_commands(s, Seq::new(k, |i: int| Command::SlowDown)).speed_exp == if s.speed_exp + k
            >= SPEED_EXP_MAX {
            SPEED_EXP_MAX as int
        } else {
            s.speed_exp + k
        },
        run_commands(s, Seq::new(k, |i: int| Command::SlowDown)).paused == s.paused,
    decreases k,
{
    let cs = Seq::new(k, |i: int| Command::SlowDown);
    if k > 0 {
        let t = next_state(s, Command::SlowDown);
        assert(cs.drop_first() =~= Seq::new((k - 1) as nat, |i: int| Command::SlowDown));
        lemma_slow_down_run(t, (k - 1) as nat);
    }
}

} // verus!
