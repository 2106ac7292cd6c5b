//! Repeating interval timers driven by elapsed frame time.

use vstd::prelude::*;

verus! {

/// A timer that fires each time its accumulated time reaches its period and
/// then carries the remainder over.
#[derive(Clone, Copy, Debug, PartialEq, Eq, Structural)]
pub struct RepeatingTimer {
    pub period_ms: u64,
    pub elapsed_ms: u64,
}

/// Whether a timer with this elapsed time fires when `dt` more passes.
pub open spec fn fires(t: RepeatingTimer, dt: int) -> bool {
    t.elapsed_ms + dt >= t.period_ms
}

/// The timer after `dt` more has passed.
pub open spec fn ticked(t: RepeatingTimer, dt: int) -> RepeatingTimer {
    RepeatingTimer { period_ms: t.period_ms, elapsed_ms: ((t.elapsed_ms + dt) % (t.period_ms as int)) as u64 }
}

impl RepeatingTimer {
    /// The period is positive and the accumulated time stays below it.
    pub open spec fn wf(self) -> bool {
        self.period_ms > 0 && self.elapsed_ms < self.period_ms
    }

    /// A fresh timer with nothing accumulated.
    pub fn new(period_ms: u64) -> (r: RepeatingTimer)
        requires
            period_ms > 0,
        ensures
            r.wf(),
            r.period_ms == period_ms,
            r.elapsed_ms == 0,
    {
        RepeatingTimer { period_ms, elapsed_ms: 0 }
    }

    /// Advances the timer by `dt`; returns whether it completed a cycle.
    pub fn tick(&mut self, dt: u64) -> (fired: bool)
        requires
            old(self).wf(),
        ensures
            final(self).wf(),
            *final(self) == ticked(*old(self), dt as int),
            fired == fires(*old(self), dt as int),
    {
        let total: u128 = self.elapsed_ms as u128 + dt as u128;
        let rest: u128 = total % (self.period_ms as u128);
        self.elapsed_ms = rest as u64;
        total >= self.period_ms as u128
    }
}

} // verus!
