// The hardware models: the paired output lines and the monotonic clock.

use simple_timer::clock::MonoClock;
use simple_timer::hardware::{OutputPin, SharedOutputs};

#[test]
fn pin_set_and_read() {
    let mut pin = OutputPin::new_high();
    assert!(pin.read());
    pin.set_low();
    assert!(!pin.read());
    pin.set_high();
    assert!(pin.read());
    // idempotent: setting again changes nothing
    pin.set_high();
    assert!(pin.read());
}

#[test]
fn critical_sections_move_the_pair_together() {
    let mut outs = SharedOutputs::new_high();
    assert!(outs.led.read() && outs.relay.read());
    outs.lock_set_low();
    assert!(!outs.led.read() && !outs.relay.read());
    outs.lock_set_high();
    assert!(outs.led.read() && outs.relay.read());
}

#[test]
fn clock_starts_at_zero_and_only_advances() {
    let mut clock = MonoClock::start();
    assert_eq!(clock.now(), 0);
    clock.advance_to(10_000_000);
    assert_eq!(clock.now(), 10_000_000);
    // advancing to the current tick is allowed and changes nothing
    clock.advance_to(10_000_000);
    assert_eq!(clock.now(), 10_000_000);
    clock.advance_to(600_000_000);
    assert_eq!(clock.now(), 600_000_000);
}
