//! Frame pacing: the time between frames and the wait that holds the frame rate.
use vstd::prelude::*;

verus! {

/// The counter ticks from `last` to a later reading `now`.
pub open spec fn elapsed_ticks(last: nat, now: nat) -> nat {
    (now - last) as nat
}

/// Ticks at `frequency` per second in units of `1 / per_second`, at most `cap`.
pub open spec fn ticks_to_units(ticks: nat, frequency: nat, per_second: nat, cap: nat) -> nat {
    if ticks * per_second / frequency > cap {
        cap
    } else {
        ticks * per_second / frequency
    }
}

/// What is left of a frame budget of `budget` milliseconds after `spent`.
pub open spec fn delay_of(budget: nat, spent: nat) -> nat {
    if spent < budget {
        (budget - spent) as nat
    } else {
        0
    }
}

/// Frame pacing state: the frame budget in milliseconds, the last frame's
/// length in microseconds and the counter value at the last frame start.
#[derive(Clone, Copy, Debug, PartialEq, Eq, Structural)]
pub struct FpsDeltaTime {
    pub frame_delay: u32,
    pub dt: u64,
    pub last_time: u64,
}

/// Converts counter ticks to units of `1 / per_second` seconds, capped at `cap`.
fn convert_ticks(ticks: u64, frequency: u64, per_second: u64, cap: u64) -> (r: u64)
    requires
        frequency > 0,
        per_second <= 1000000,
    ensures
        r == ticks_to_units(ticks as nat, frequency as nat, per_second as nat, cap as nat),
{
    proof {
        assert(ticks * per_second <= u64::MAX * 1000000) by (nonlinear_arith)
            requires ticks <= u64::MAX, per_second <= 1000000;
    }
    let units = (ticks as u128) * (per_second as u128) / (frequency as u128);
    if units > cap as u128 {
        cap
    } else {
        units as u64
    }
}

impl FpsDeltaTime {
    /// Pacing for at most `fps_cap` frames a second, the counter now reading `now`.
    pub fn new(fps_cap: u32, now: u64) -> (r: FpsDeltaTime)
        requires
            fps_cap > 0,
        ensures
            r.frame_delay as int == 1000int / (fps_cap as int),
            r.dt == 0,
            r.last_time == now,
    {
        FpsDeltaTime { last_time: now, frame_delay: 1000 / fps_cap, dt: 0 }
    }

    /// Starts a frame at counter value `now`, the counter running at
    /// `frequency` ticks a second: the time since the last start becomes `dt`
    /// (in microseconds, at most `u64::MAX`). The counter never goes back.
    pub fn frame_start(&mut self, now: u64, frequency: u64)
        requires
            frequency > 0,
            now >= old(self).last_time,
        ensures
            final(self).dt == ticks_to_units(
                elapsed_ticks(old(self).last_time as nat, now as nat),
                frequency as nat,
                1000000,
                u64::MAX as nat,
            ),
            final(self).last_time == now,
            final(self).frame_delay == old(self).frame_delay,
    {
        let elapsed = now - self.last_time;
        self.dt = convert_ticks(elapsed, frequency, 1000000, u64::MAX);
        self.last_time = now;
    }

    /// Ends a frame at counter value `now`: returns how many milliseconds to
    /// wait so that the frame lasts its whole budget (zero if it already has).
    /// The counter never goes back.
    pub fn frame_end(&self, now: u64, frequency: u64) -> (delay: u32)
        requires
            frequency > 0,
            now >= self.last_time,
        ensures
            delay == delay_of(
                self.frame_delay as nat,
                ticks_to_units(
                    elapsed_ticks(self.last_time as nat, now as nat),
                    frequency as nat,
                    1000,
                    u32::MAX as nat,
                ),
            ),
    {
        let elapsed = now - self.last_time;
        let spent = convert_ticks(elapsed, frequency, 1000, u32::MAX as u64) as u32;
        if spent < self.frame_delay {
            self.frame_delay - spent
        } else {
            0
        }
    }
}

} // verus!
