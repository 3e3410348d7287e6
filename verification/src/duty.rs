//! The duty-cycle timing law. The two task bodies drive an infinite
//! alternation: energized for [`HIGH_INTERVAL_US`], de-energized for
//! [`LOW_INTERVAL_US`], repeating with period [`PERIOD_US`]. This module
//! models that run abstractly — boot at tick zero, every activation
//! dispatched exactly at its fire time — and proves that in cycle `n` the
//! outputs are high throughout the first ten seconds and low for the rest.
//! [`crate::system`] ties the model to the executable code: `System::boot`
//! establishes [`boot_point`] and `System::poll`, called at the pending fire
//! time, advances the system by exactly one [`step`].

use vstd::prelude::*;

use crate::sched::TaskId;

verus! {

/// How long the relay stays energized in each cycle: ten seconds, in
/// microseconds.
pub const HIGH_INTERVAL_US: u64 = 10_000_000;

/// How long the relay stays de-energized in each cycle: five hundred ninety
/// seconds, in microseconds.
pub const LOW_INTERVAL_US: u64 = 590_000_000;

/// One full duty cycle: six hundred seconds, in microseconds.
pub const PERIOD_US: u64 = HIGH_INTERVAL_US + LOW_INTERVAL_US;

/// The delay a task's body hands to `spawn_after` for the other task's
/// activation when it finishes: `relay_on` keeps the outputs high for the
/// high interval before `relay_off` is due, and the other way round.
pub open spec fn next_delay_us(task: TaskId) -> u64 {
    match task {
        TaskId::RelayOn => HIGH_INTERVAL_US,
        TaskId::RelayOff => LOW_INTERVAL_US,
    }
}

/// Abstract snapshot of the run between two dispatches: the level both
/// outputs hold and the single pending activation, as task identity and
/// fire time. Fire times are unbounded mathematical integers here: the
/// ideal run never stops.
pub struct RunPoint {
    pub relay_high: bool,
    pub task: TaskId,
    pub fire_at: int,
}

/// The state right after boot at tick `t0`: both outputs high and `relay_on`
/// pending at delay zero.
pub open spec fn boot_point(t0: int) -> RunPoint {
    RunPoint { relay_high: true, task: TaskId::RelayOn, fire_at: t0 }
}

/// One step of the ideal run: the pending task is dispatched exactly at its
/// fire time, drives the outputs to its level, and leaves the other task
/// pending after its fixed delay.
pub open spec fn step(p: RunPoint) -> RunPoint {
    RunPoint {
        relay_high: p.task == TaskId::RelayOn,
        task: p.task.other(),
        fire_at: p.fire_at + next_delay_us(p.task),
    }
}

/// The ideal run from boot at tick zero: `run(k)` is the state after `k`
/// dispatches, so `run(k).relay_high` is the level the outputs hold
/// throughout the window from dispatch `k - 1` to dispatch `k`.
pub open spec fn run(k: nat) -> RunPoint
    decreases k,
{
    if k == 0 {
        boot_point(0)
    } else {
        step(run((k - 1) as nat))
    }
}

/// Fire times of the ideal run never decrease: a later dispatch never fires
/// earlier.
pub proof fn lemma_run_fire_monotone(j: nat, k: nat)
    requires
        j <= k,
    ensures
        run(j).fire_at <= run(k).fire_at,
    decreases k,
{
    if j < k {
        lemma_run_fire_monotone(j, (k - 1) as nat);
        assert(run(k) == step(run((k - 1) as nat)));
    }
}

/// The shape of cycle `n` of the ideal run: dispatch `2n` is `relay_on`,
/// fired at the start of the cycle; dispatch `2n + 1` is `relay_off`, fired
/// ten seconds later; the outputs are high between the two and low after
/// the second, until the next cycle begins.
pub proof fn lemma_cycle(n: nat)
    ensures
        run(2 * n).task == TaskId::RelayOn,
        run(2 * n).fire_at == (PERIOD_US as int) * (n as int),
        run(2 * n + 1).task == TaskId::RelayOff,
        run(2 * n + 1).fire_at == (PERIOD_US as int) * (n as int) + HIGH_INTERVAL_US,
        run(2 * n + 1).relay_high,
        !run(2 * n + 2).relay_high,
    decreases n,
{
    if n == 0 {
        assert(run(0) == boot_point(0));
        assert(run(1) == step(run(0)));
        assert(run(2) == step(run(1)));
    } else {
        lemma_cycle((n - 1) as nat);
        assert(run(2 * n) == step(run((2 * n - 1) as nat)));
        assert(run(2 * n + 1) == step(run(2 * n)));
        assert(run(2 * n + 2) == step(run(2 * n + 1)));
        assert((PERIOD_US as int) * (n as int) == (PERIOD_US as int) * ((n - 1) as int)
            + PERIOD_US as int) by (nonlinear_arith);
    }
}

/// The duty-cycle law: from boot at tick zero, with every activation
/// dispatched at its fire time, the outputs are high at every tick of
/// `[PERIOD·n, PERIOD·n + HIGH)` and low at every tick of
/// `[PERIOD·n + HIGH, PERIOD·(n + 1))`, for every cycle `n`. Tick `t` lies
/// in the window between dispatches `k` and `k + 1`, throughout which the
/// outputs hold the level `run(k + 1).relay_high`.
pub proof fn lemma_duty_cycle(n: nat, t: int, k: nat)
    requires
        run(k).fire_at <= t < run(k + 1).fire_at,
    ensures
        (PERIOD_US as int) * (n as int) <= t < (PERIOD_US as int) * (n as int) + HIGH_INTERVAL_US
            ==> run(k + 1).relay_high,
        (PERIOD_US as int) * (n as int) + HIGH_INTERVAL_US <= t < (PERIOD_US as int) * ((n
            + 1) as int) ==> !run(k + 1).relay_high,
{
    lemma_cycle(n);
    lemma_cycle((n + 1) as nat);
    if (PERIOD_US as int) * (n as int) <= t < (PERIOD_US as int) * (n as int)
        + HIGH_INTERVAL_US {
        // only the window after dispatch 2n contains t: any earlier window
        // ends at or before the cycle's start, any later one begins at or
        // after its tenth second
        if k + 1 <= 2 * n {
            lemma_run_fire_monotone((k + 1) as nat, 2 * n);
            assert(false);
        }
        if k >= 2 * n + 1 {
            lemma_run_fire_monotone(2 * n + 1, k);
            assert(false);
        }
        assert(k == 2 * n);
    }
    if (PERIOD_US as int) * (n as int) + HIGH_INTERVAL_US <= t < (PERIOD_US as int) * ((n
        + 1) as int) {
        if k + 1 <= 2 * n + 1 {
            lemma_run_fire_monotone((k + 1) as nat, 2 * n + 1);
            assert(false);
        }
        if k >= 2 * n + 2 {
            lemma_run_fire_monotone(2 * n + 2, k);
            assert(false);
        }
        assert(k == 2 * n + 1);
    }
}

} // verus!
