//! The displayed time and how each mode moves it on.
use vstd::prelude::*;

verus! {

/// The displayed time is kept in microseconds.
pub const MICROS_PER_SECOND: u64 = 1000000;

/// Seconds in a day.
pub const SECONDS_PER_DAY: u64 = 86400;

/// How the displayed time moves.
#[derive(Clone, Copy, Debug, PartialEq, Eq, Structural)]
pub enum Mode {
    /// Counts up from the start value.
    Ascending,
    /// Counts down from the start value and stops at zero.
    Countdown,
    /// Shows the local time of day.
    Clock,
}

/// A time split into hours, minutes and seconds.
#[derive(Clone, Copy, Debug, PartialEq, Eq, Structural)]
pub struct Hms {
    pub hours: u64,
    pub minutes: u64,
    pub seconds: u64,
}

/// A local time of day.
#[derive(Clone, Copy, Debug, PartialEq, Eq, Structural)]
pub struct WallTime {
    pub hour: u64,
    pub minute: u64,
    pub second: u64,
}

impl WallTime {
    pub open spec fn wf(self) -> bool {
        self.hour < 24 && self.minute < 60 && self.second < 60
    }
}

/// The whole seconds of `micros`, split: hours unbounded, then minutes and
/// seconds below sixty.
pub open spec fn hms_of(micros: nat) -> Hms {
    let total = micros / (MICROS_PER_SECOND as nat);
    Hms {
        hours: (total / 3600) as u64,
        minutes: ((total / 60) % 60) as u64,
        seconds: (total % 60) as u64,
    }
}

/// The number of seconds that `t` stands for.
pub open spec fn hms_seconds(t: Hms) -> nat {
    (t.hours * 3600 + t.minutes * 60 + t.seconds) as nat
}

/// Splits a displayed time in microseconds into hours, minutes and seconds.
pub fn to_hms(displayed: u64) -> (r: Hms)
    ensures
        r == hms_of(displayed as nat),
        r.minutes < 60,
        r.seconds < 60,
        hms_seconds(r) * MICROS_PER_SECOND <= displayed,
        displayed < (hms_seconds(r) + 1) * MICROS_PER_SECOND,
{
    proof {
        lemma_hms_brackets(displayed);
    }
    let total = displayed / MICROS_PER_SECOND;
    Hms { hours: total / 3600, minutes: (total / 60) % 60, seconds: total % 60 }
}

/// The split of a displayed time loses less than one second: the seconds it
/// stands for are at most the displayed time and more than the displayed
/// time less one second, with minutes and seconds below sixty.
pub proof fn lemma_hms_brackets(displayed: u64)
    ensures
        hms_of(displayed as nat).minutes < 60,
        hms_of(displayed as nat).seconds < 60,
        hms_seconds(hms_of(displayed as nat)) * MICROS_PER_SECOND <= displayed,
        displayed < (hms_seconds(hms_of(displayed as nat)) + 1) * MICROS_PER_SECOND,
{
    let d = displayed as nat;
    let total = d / 1000000;
    let t = hms_of(d);
    assert(total / 3600 * 3600 + (total / 60) % 60 * 60 + total % 60 == total) by (nonlinear_arith)
        requires total >= 0;
    assert(hms_seconds(t) == total);
    assert(total * 1000000 <= d && d < (total + 1) * 1000000) by (nonlinear_arith)
        requires total == d / 1000000;
}

/// The seconds past midnight of a time of day, in microseconds.
pub open spec fn wall_micros(t: WallTime) -> nat {
    ((t.hour * 3600 + t.minute * 60 + t.second) * MICROS_PER_SECOND) as nat
}

/// The timer: its mode, the displayed time in microseconds and whether it is paused.
#[derive(Clone, Copy, Debug, PartialEq, Eq, Structural)]
pub struct TimerState {
    pub mode: Mode,
    pub displayed: u64,
    pub paused: bool,
}

/// One frame of the time model after `delta` microseconds, with the time of
/// day `wall`. Ascending and Countdown move only while not paused: Ascending
/// adds `delta` (saturating at the largest value), Countdown subtracts it and
/// stops at zero. Clock shows `wall` whether paused or not.
pub open spec fn advance_of(t: TimerState, delta: nat, wall: WallTime) -> TimerState {
    match t.mode {
        Mode::Ascending => if t.paused {
            t
        } else {
            TimerState {
                displayed: if t.displayed + delta > u64::MAX {
                    u64::MAX
                } else {
                    (t.displayed + delta) as u64
                },
                ..t
            }
        },
        Mode::Countdown => if t.paused {
            t
        } else {
            TimerState {
                displayed: if t.displayed <= delta {
                    0
                } else {
                    (t.displayed - delta) as u64
                },
                ..t
            }
        },
        Mode::Clock => TimerState { displayed: wall_micros(wall) as u64, ..t },
    }
}

/// A running countdown that has reached zero: the moment to stop when asked
/// to exit after the countdown.
pub open spec fn countdown_done(t: TimerState) -> bool {
    t.mode == Mode::Countdown && !t.paused && t.displayed == 0
}

impl TimerState {
    /// Moves the timer on by one frame of `delta` microseconds, `wall` being
    /// the time of day. Returns whether a running countdown now stands at zero.
    pub fn advance(&mut self, delta: u64, wall: WallTime) -> (done: bool)
        requires
            wall.wf(),
        ensures
            *final(self) == advance_of(*old(self), delta as nat, wall),
            done == countdown_done(*final(self)),
    {
        match self.mode {
            Mode::Ascending => {
                if !self.paused {
                    self.displayed = self.displayed.saturating_add(delta);
                }
            },
            Mode::Countdown => {
                if !self.paused {
                    if self.displayed <= delta {
                        self.displayed = 0;
                    } else {
                        self.displayed = self.displayed - delta;
                    }
                }
            },
            Mode::Clock => {
                self.displayed = (wall.hour * 3600 + wall.minute * 60 + wall.second)
                    * MICROS_PER_SECOND;
            },
        }
        self.mode == Mode::Countdown && !self.paused && self.displayed == 0
    }
}

/// The total of the frame lengths `deltas`.
pub open spec fn total_of(deltas: Seq<u64>) -> nat
    decreases deltas.len(),
{
    if deltas.len() == 0 {
        0
    } else {
        total_of(deltas.drop_last()) + (deltas.last() as nat)
    }
}

/// The timer after one frame for each length in `deltas`, in order; the time
/// of day is taken as midnight, which only the Clock mode reads.
pub open spec fn run_of(t: TimerState, deltas: Seq<u64>) -> TimerState
    decreases deltas.len(),
{
    if deltas.len() == 0 {
        t
    } else {
        advance_of(
            run_of(t, deltas.drop_last()),
            deltas.last() as nat,
            WallTime { hour: 0, minute: 0, second: 0 },
        )
    }
}

/// A running countdown from `n` microseconds, moved on by frames of any
/// lengths, shows `n` less the time elapsed while that is positive and
/// exactly zero from then on, never less; it stands at zero (the moment to
/// exit) exactly when the elapsed time has reached `n`.
pub proof fn lemma_countdown_run(n: u64, deltas: Seq<u64>)
    ensures
        run_of(TimerState { mode: Mode::Countdown, displayed: n, paused: false }, deltas).displayed
            == (if total_of(deltas) >= n { 0 } else { (n - total_of(deltas)) as int }),
        countdown_done(run_of(TimerState { mode: Mode::Countdown, displayed: n, paused: false }, deltas))
            <==> total_of(deltas) >= n,
    decreases deltas.len(),
{
    let t0 = TimerState { mode: Mode::Countdown, displayed: n, paused: false };
    if deltas.len() > 0 {
        lemma_countdown_run(n, deltas.drop_last());
        lemma_run_keeps_flags(t0, deltas.drop_last());
    }
    lemma_run_keeps_flags(t0, deltas);
}

/// Frames move the displayed time only: the mode and the pause flag stay.
pub proof fn lemma_run_keeps_flags(t: TimerState, deltas: Seq<u64>)
    ensures
        run_of(t, deltas).mode == t.mode,
        run_of(t, deltas).paused == t.paused,
    decreases deltas.len(),
{
    if deltas.len() > 0 {
        lemma_run_keeps_flags(t, deltas.drop_last());
    }
}

} // verus!
