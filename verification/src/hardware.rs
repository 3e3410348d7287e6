//! The shared hardware state: two binary output lines, `led` and `relay`,
//! that must always move together. Tasks never touch the pair directly: they
//! go through the lock-scoped critical sections below, which update both
//! lines as one unit, so a partial update (only one line switched) is never
//! observable outside a critical section.

use vstd::prelude::*;

verus! {

/// One binary digital output line. `set_high` / `set_low` are idempotent and
/// have no effect beyond the logical pin level recorded here.
#[derive(Clone, Copy, PartialEq, Eq, Structural, Debug)]
pub struct OutputPin {
    pub high: bool,
}

impl OutputPin {
    /// The line's logical level: true when driven high.
    pub open spec fn is_high(self) -> bool {
        self.high
    }

    /// A fresh output line driven high, the pre-activation default.
    pub fn new_high() -> (pin: OutputPin)
        ensures
            pin.is_high(),
    {
        OutputPin { high: true }
    }

    pub fn set_high(&mut self)
        ensures
            final(self).is_high(),
    {
        self.high = true;
    }

    pub fn set_low(&mut self)
        ensures
            !final(self).is_high(),
    {
        self.high = false;
    }

    /// Non-blocking, side-effect-free read of the line's level.
    pub fn read(&self) -> (level: bool)
        ensures
            level == self.is_high(),
    {
        self.high
    }
}

/// The resource owned by the scheduler's locking layer: the relay output and
/// the status LED that mirrors it for diagnostics.
#[derive(Clone, Copy, PartialEq, Eq, Structural, Debug)]
pub struct SharedOutputs {
    pub led: OutputPin,
    pub relay: OutputPin,
}

impl SharedOutputs {
    /// The pair invariant: at every observable instant outside a critical
    /// section, the LED shows the same level as the relay.
    pub open spec fn paired(self) -> bool {
        self.led.is_high() == self.relay.is_high()
    }

    /// Both lines forced high: the state the pair is created in at boot.
    pub fn new_high() -> (outs: SharedOutputs)
        ensures
            outs.paired(),
            outs.led.is_high(),
            outs.relay.is_high(),
    {
        SharedOutputs { led: OutputPin::new_high(), relay: OutputPin::new_high() }
    }

    /// Critical section run under the resource lock: drives relay and LED
    /// high as one unit and returns only once both are set.
    pub fn lock_set_high(&mut self)
        ensures
            final(self).paired(),
            final(self).led.is_high(),
            final(self).relay.is_high(),
    {
        self.relay.set_high();
        self.led.set_high();
    }

    /// Critical section run under the resource lock: drives relay and LED
    /// low as one unit and returns only once both are cleared.
    pub fn lock_set_low(&mut self)
        ensures
            final(self).paired(),
            !final(self).led.is_high(),
            !final(self).relay.is_high(),
    {
        self.relay.set_low();
        self.led.set_low();
    }
}

} // verus!
