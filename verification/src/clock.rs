//! The simulation clock: cumulative elapsed time and the derived cyclic
//! day-phase.
//!
//! Time is counted in integer milliseconds. The cumulative total is held in
//! a wide `u128` so long runs cannot drift or overflow in practice, and the
//! day-phase is recomputed from the total on every advance: it is a pure
//! function of cumulative time and can never drift independently of it.

use vstd::prelude::*;

verus! {

/// Milliseconds in one full 24-hour day/night cycle.
pub const DAY_MS: u64 = 86_400_000;

/// The position within the day cycle, in milliseconds since the start of
/// the current cycle: always in [0, DAY_MS).
pub open spec fn day_phase_of(total_ms: int) -> int {
    total_ms % (DAY_MS as int)
}

/// Tracks cumulative elapsed simulation time and the derived day-phase.
#[derive(Clone, Copy, PartialEq, Eq, Structural, Debug)]
pub struct SimulationClock {
    /// Total elapsed time in milliseconds since the world began.
    pub total_ms: u128,
    /// Milliseconds into the current day cycle; kept equal to
    /// `day_phase_of(total_ms)` by every operation.
    pub day_phase_ms: u64,
}

impl SimulationClock {
    /// The stored day-phase agrees with the cumulative total.
    pub open spec fn wf(self) -> bool {
        &&& self.day_phase_ms == day_phase_of(self.total_ms as int)
        &&& self.day_phase_ms < DAY_MS
    }

    /// A clock at the beginning of time.
    pub fn new() -> (c: SimulationClock)
        ensures
            c.total_ms == 0,
            c.day_phase_ms == 0,
            c.wf(),
    {
        SimulationClock { total_ms: 0, day_phase_ms: 0 }
    }

    /// Advance cumulative time by `delta_ms` and recompute the day-phase
    /// from the new total.
    pub fn advance(&mut self, delta_ms: u64)
        requires
            old(self).total_ms + delta_ms <= u128::MAX,
        ensures
            final(self).total_ms == old(self).total_ms + delta_ms,
            final(self).day_phase_ms == day_phase_of(final(self).total_ms as int),
            final(self).wf(),
    {
        self.total_ms = self.total_ms + delta_ms as u128;
        let phase: u128 = self.total_ms % (DAY_MS as u128);
        proof {
            vstd::arithmetic::div_mod::lemma_mod_bound(
                self.total_ms as int,
                DAY_MS as int,
            );
        }
        self.day_phase_ms = phase as u64;
    }

    /// The day-phase in milliseconds into the current cycle.
    pub fn day_phase_millis(&self) -> (p: u64)
        requires
            self.wf(),
        ensures
            p == day_phase_of(self.total_ms as int),
            p < DAY_MS,
    {
        self.day_phase_ms
    }

    /// The day-phase as thousandths of a full cycle, in [0, 1000):
    /// 0 is the start of a day, 500 is exactly half way through.
    pub fn day_cycle_milli(&self) -> (c: u64)
        requires
            self.wf(),
        ensures
            c == day_phase_of(self.total_ms as int) / (DAY_MS as int / 1000),
            c < 1000,
    {
        self.day_phase_ms / (DAY_MS / 1000)
    }
}

/// Advancing by exactly one full cycle returns the day-phase to its
/// starting value, whatever the starting total.
pub proof fn lemma_day_phase_full_cycle(total_ms: int)
    requires
        total_ms >= 0,
    ensures
        day_phase_of(total_ms + DAY_MS) == day_phase_of(total_ms),
{
    vstd::arithmetic::div_mod::lemma_mod_add_multiples_vanish(
        total_ms,
        DAY_MS as int,
    );
    assert(DAY_MS as int + total_ms == total_ms + DAY_MS);
}

/// The day-phase is a pure function of cumulative time: two clocks with
/// equal totals have equal phases.
pub proof fn lemma_day_phase_pure(a: SimulationClock, b: SimulationClock)
    requires
        a.wf(),
        b.wf(),
        a.total_ms == b.total_ms,
    ensures
        a.day_phase_ms == b.day_phase_ms,
{
}

} // verus!
