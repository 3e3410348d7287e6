//! A minimal real-time control loop: a relay (mirrored by a status LED) is
//! driven through a fixed duty cycle — energized for ten seconds, de-energized
//! for five hundred ninety — by a cooperative, priority-based task scheduler
//! with monotonic-timer-driven deferred activation.
//!
//! The scheduler core ([`sched`]) keeps a fixed-capacity store of pending
//! task activations and dispatches the earliest-due one; the two duty-cycle
//! tasks ([`system`]) alternately drive the shared outputs ([`hardware`]) and
//! schedule each other's next activation. The [`duty`] module states and
//! proves the timing law of the resulting infinite run.

pub mod clock;
pub mod duty;
pub mod hardware;
pub mod sched;
pub mod system;
