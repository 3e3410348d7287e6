// The duty-cycle state machine driven through the scheduler: boot, the
// tick-zero scenario, idempotent re-initialization, and the stalled machine
// when the store is full.

use simple_timer::sched::TaskId;
use simple_timer::system::System;

#[test]
fn boot_sets_outputs_high_and_seeds_relay_on() {
    let mut s = System::boot(0);
    assert!(s.outputs.led.read());
    assert!(s.outputs.relay.read());
    assert_eq!(s.queue.len(), 1);
    assert_eq!(s.queue.next_fire_time(), Some(0));
    assert_eq!(s.queue.dispatch_ready(0), Some(TaskId::RelayOn));
}

#[test]
fn tick_zero_scenario() {
    // boot at tick 0: relay_on dispatches immediately
    let mut s = System::boot(0);
    assert_eq!(s.poll(0), Some(TaskId::RelayOn));
    assert!(s.outputs.led.read());
    assert!(s.outputs.relay.read());
    assert_eq!(s.queue.next_fire_time(), Some(10_000_000));
    // one microsecond before the deadline nothing is due
    assert_eq!(s.poll(9_999_999), None);
    assert!(s.outputs.relay.read());
    // at the deadline relay_off runs: outputs low, relay_on pending at the
    // start of the next cycle (10 s + 590 s = 600 s)
    assert_eq!(s.poll(10_000_000), Some(TaskId::RelayOff));
    assert!(!s.outputs.led.read());
    assert!(!s.outputs.relay.read());
    assert_eq!(s.queue.next_fire_time(), Some(600_000_000));
    // and the next cycle opens with relay_on again
    assert_eq!(s.poll(600_000_000), Some(TaskId::RelayOn));
    assert!(s.outputs.relay.read());
    assert_eq!(s.queue.next_fire_time(), Some(610_000_000));
}

#[test]
fn led_mirrors_relay_at_every_observable_point() {
    let mut s = System::boot(0);
    assert_eq!(s.outputs.led.read(), s.outputs.relay.read());
    let ticks = [0u64, 9_999_999, 10_000_000, 300_000_000, 600_000_000, 600_000_001];
    for t in ticks {
        s.poll(t);
        assert_eq!(s.outputs.led.read(), s.outputs.relay.read());
    }
}

#[test]
fn duty_cycle_over_three_cycles() {
    let mut s = System::boot(0);
    for n in 0u64..3 {
        let start = n * 600_000_000;
        // the cycle opens with relay_on: high for its first ten seconds
        assert_eq!(s.poll(start), Some(TaskId::RelayOn));
        assert!(s.outputs.relay.read());
        assert_eq!(s.poll(start + 9_999_999), None);
        assert!(s.outputs.relay.read());
        // then relay_off: low until the next cycle
        assert_eq!(s.poll(start + 10_000_000), Some(TaskId::RelayOff));
        assert!(!s.outputs.relay.read());
        assert_eq!(s.poll(start + 599_999_999), None);
        assert!(!s.outputs.relay.read());
        assert_eq!(s.queue.next_fire_time(), Some((n + 1) * 600_000_000));
    }
}

#[test]
fn reinit_resets_a_running_system() {
    let mut s = System::boot(0);
    assert_eq!(s.poll(0), Some(TaskId::RelayOn));
    assert_eq!(s.poll(10_000_000), Some(TaskId::RelayOff));
    assert!(!s.outputs.relay.read());
    // re-running boot initialization: outputs high again, exactly one
    // pending activation, relay_on at delay zero
    s.reinit(20_000_000);
    assert!(s.outputs.led.read());
    assert!(s.outputs.relay.read());
    assert_eq!(s.queue.len(), 1);
    assert_eq!(s.queue.next_fire_time(), Some(20_000_000));
    assert_eq!(s.poll(20_000_000), Some(TaskId::RelayOn));
}

#[test]
fn relay_off_body_clears_outputs_and_schedules_relay_on() {
    let mut s = System::boot(0);
    s.execute_task(TaskId::RelayOff, 100);
    assert!(!s.outputs.led.read());
    assert!(!s.outputs.relay.read());
    assert_eq!(s.queue.next_fire_time(), Some(0));
    assert_eq!(s.queue.len(), 2);
}

#[test]
fn full_store_swallows_the_schedule_and_stalls() {
    let mut s = System::boot(0);
    // running the task body twice without a dispatch fills the store…
    s.execute_task(TaskId::RelayOn, 0);
    assert_eq!(s.queue.len(), 2);
    // …so the next schedule is dropped: no panic, no new record, and the
    // machine stays in the state that last ran
    s.execute_task(TaskId::RelayOn, 5);
    assert_eq!(s.queue.len(), 2);
    assert!(s.outputs.relay.read());
    assert_eq!(s.queue.next_fire_time(), Some(0));
}
