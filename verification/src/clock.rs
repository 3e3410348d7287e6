//! The monotonic clock: an ever-increasing count of microseconds since boot,
//! read by the scheduler to decide which pending activation is due. The
//! hardware timer is modeled by an owned counter that only moves forward;
//! the interrupt-on-deadline mechanism is modeled by the driving loop
//! advancing the clock to the next pending fire time.

use vstd::prelude::*;

verus! {

/// A monotonic microsecond counter. Its value never decreases, and by design
/// it is wide enough (64 bits) never to wrap within the system's operational
/// lifetime.
#[derive(Clone, Copy, PartialEq, Eq, Structural, Debug)]
pub struct MonoClock {
    pub now_us: u64,
}

impl MonoClock {
    /// The current tick count, in microseconds since boot.
    pub open spec fn ticks(self) -> u64 {
        self.now_us
    }

    /// The clock as it reads at boot: tick zero.
    pub fn start() -> (clock: MonoClock)
        ensures
            clock.ticks() == 0,
    {
        MonoClock { now_us: 0 }
    }

    /// Non-blocking, side-effect-free read of the current tick.
    pub fn now(&self) -> (t: u64)
        ensures
            t == self.ticks(),
    {
        self.now_us
    }

    /// Time moves forward to `t`. Monotonicity is the clock's one law: the
    /// caller may only advance toward a later (or equal) tick.
    pub fn advance_to(&mut self, t: u64)
        requires
            t >= old(self).ticks(),
        ensures
            final(self).ticks() == t,
    {
        self.now_us = t;
    }
}

} // verus!
