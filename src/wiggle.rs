//! The wiggle: a phase that steps on at a fixed cadence whatever the digits do.
use vstd::prelude::*;
use crate::atlas::WIGGLE_COUNT;

verus! {

/// One full wiggle cycle through all phases, in microseconds.
pub const WIGGLE_CYCLE: u64 = 400000;

/// How long each wiggle phase lasts, in microseconds.
pub const WIGGLE_DURATION: u64 = WIGGLE_CYCLE / WIGGLE_COUNT;

/// The wiggle phase and the microseconds left until it steps on.
#[derive(Clone, Copy, Debug, PartialEq, Eq, Structural)]
pub struct Wiggle {
    pub phase: u64,
    pub cooldown: u64,
}

/// One frame of the wiggle: the cooldown goes down by `delta`; where that
/// reaches zero the phase steps on (modulo the phase count) and the cooldown
/// starts over.
pub open spec fn wiggle_step(w: Wiggle, delta: nat) -> Wiggle {
    if delta >= w.cooldown {
        Wiggle { phase: ((w.phase + 1) % (WIGGLE_COUNT as int)) as u64, cooldown: WIGGLE_DURATION }
    } else {
        Wiggle { phase: w.phase, cooldown: (w.cooldown - delta) as u64 }
    }
}

/// The wiggle after one frame for each length in `deltas`, in order.
pub open spec fn wiggle_run(w: Wiggle, deltas: Seq<u64>) -> Wiggle
    decreases deltas.len(),
{
    if deltas.len() == 0 {
        w
    } else {
        wiggle_step(wiggle_run(w, deltas.drop_last()), deltas.last() as nat)
    }
}

/// How many times the phase stepped on over the frames `deltas`.
pub open spec fn steps_of(w: Wiggle, deltas: Seq<u64>) -> nat
    decreases deltas.len(),
{
    if deltas.len() == 0 {
        0
    } else {
        steps_of(w, deltas.drop_last()) + if deltas.last() >= wiggle_run(w, deltas.drop_last()).cooldown {
            1nat
        } else {
            0nat
        }
    }
}

/// The total of the frame lengths `deltas`.
pub open spec fn elapsed_of(deltas: Seq<u64>) -> nat
    decreases deltas.len(),
{
    if deltas.len() == 0 {
        0
    } else {
        elapsed_of(deltas.drop_last()) + (deltas.last() as nat)
    }
}

/// Frames no longer than half a phase each.
pub open spec fn short_frames(deltas: Seq<u64>) -> bool {
    forall|i: int| 0 <= i < deltas.len() ==> #[trigger] deltas[i] <= WIGGLE_DURATION / 2
}

impl Wiggle {
    pub open spec fn wf(self) -> bool {
        self.phase < WIGGLE_COUNT && self.cooldown <= WIGGLE_DURATION
    }

    /// The wiggle at its first phase, with a whole phase to go.
    pub fn new() -> (r: Wiggle)
        ensures
            r == (Wiggle { phase: 0, cooldown: WIGGLE_DURATION }),
            r.wf(),
    {
        Wiggle { phase: 0, cooldown: WIGGLE_DURATION }
    }

    /// Moves the wiggle on by one frame of `delta` microseconds.
    pub fn step(&mut self, delta: u64)
        requires
            old(self).wf(),
        ensures
            *final(self) == wiggle_step(*old(self), delta as nat),
            final(self).wf(),
    {
        if delta >= self.cooldown {
            self.phase = (self.phase + 1) % WIGGLE_COUNT;
            self.cooldown = WIGGLE_DURATION;
        } else {
            self.cooldown = self.cooldown - delta;
        }
    }
}

/// Over frames no longer than half a phase, the phase has stepped on by the
/// count of steps (modulo the phase count), and the time elapsed is at most
/// the first cooldown plus one and a half phases per step.
pub proof fn lemma_wiggle_steps(w: Wiggle, deltas: Seq<u64>)
    requires
        w.wf(),
        short_frames(deltas),
    ensures
        wiggle_run(w, deltas).wf(),
        wiggle_run(w, deltas).phase == (w.phase + steps_of(w, deltas)) % (WIGGLE_COUNT as int),
        elapsed_of(deltas) + wiggle_run(w, deltas).cooldown
            <= w.cooldown + steps_of(w, deltas) * (WIGGLE_DURATION + WIGGLE_DURATION / 2),
    decreases deltas.len(),
{
    if deltas.len() > 0 {
        let init = deltas.drop_last();
        assert(short_frames(init)) by {
            assert forall|i: int| 0 <= i < init.len() implies #[trigger] init[i] <= WIGGLE_DURATION / 2 by {
                assert(init[i] == deltas[i]);
            }
        }
        assert(deltas.last() == deltas[deltas.len() - 1]);
        lemma_wiggle_steps(w, init);
        let a = steps_of(w, init);
        let p = w.phase + a;
        assert(((p % 3) + 1) % 3 == (p + 1) % 3) by (nonlinear_arith)
            requires p >= 0;
        assert((a + 1) * 199999 == a * 199999 + 199999) by (nonlinear_arith);
    }
}

/// Every prefix count of steps up to the total count is reached after some
/// prefix of the frames: the count goes up by at most one per frame.
pub proof fn lemma_steps_pass_through(w: Wiggle, deltas: Seq<u64>, j: nat)
    requires
        j <= steps_of(w, deltas),
    ensures
        exists|k: int| 0 <= k <= deltas.len() && #[trigger] steps_of(w, deltas.take(k)) == j,
    decreases deltas.len(),
{
    if j == steps_of(w, deltas) {
        assert(deltas.take(deltas.len() as int) =~= deltas);
    } else {
        let init = deltas.drop_last();
        lemma_steps_pass_through(w, init, j);
        let k = choose|k: int| 0 <= k <= init.len() && #[trigger] steps_of(w, init.take(k)) == j;
        assert(init.take(k) =~= deltas.take(k));
    }
}

/// Some prefix of the frames `deltas` ends at phase `p`.
pub open spec fn shows_phase(w: Wiggle, deltas: Seq<u64>, p: u64) -> bool {
    exists|k: int| 0 <= k <= deltas.len() && wiggle_run(w, deltas.take(k)).phase == p
}

/// Over frames of any lengths up to half a phase each (a frame rate of 15 or
/// more a second), once a whole wiggle cycle has elapsed the phase has shown
/// every value.
pub proof fn lemma_wiggle_full_cycle(w: Wiggle, deltas: Seq<u64>)
    requires
        w.wf(),
        short_frames(deltas),
        elapsed_of(deltas) >= WIGGLE_CYCLE,
    ensures
        forall|p: u64| p < WIGGLE_COUNT ==> #[trigger] shows_phase(w, deltas, p),
{
    lemma_wiggle_steps(w, deltas);
    let a = steps_of(w, deltas);
    if a <= 1 {
        assert(a * 199999 <= 199999) by (nonlinear_arith)
            requires a <= 1;
    }
    assert(a >= 2);
    assert forall|p: u64| p < WIGGLE_COUNT implies #[trigger] shows_phase(w, deltas, p) by {
        let j = ((p + 3 - w.phase) % 3) as nat;
        lemma_steps_pass_through(w, deltas, j);
        let k = choose|k: int| 0 <= k <= deltas.len() && #[trigger] steps_of(w, deltas.take(k)) == j;
        let pre = deltas.take(k);
        assert(short_frames(pre)) by {
            assert forall|i: int| 0 <= i < pre.len() implies #[trigger] pre[i] <= WIGGLE_DURATION / 2 by {
                assert(pre[i] == deltas[i]);
            }
        }
        lemma_wiggle_steps(w, pre);
        assert((w.phase + j) % 3 == p);
    }
}

} // verus!
