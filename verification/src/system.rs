//! The duty-cycle state machine riding on the scheduler: boot
//! initialization, the two task bodies behind a single dispatch function
//! matching on task identity, and the scheduler poll that runs whatever
//! activation is due. Every scheduling call is fire-and-forget: a refusal
//! from the full store is deliberately discarded, so the control loop never
//! panics — at the accepted price that a stalled schedule leaves the machine
//! stuck in whichever state last ran.

use vstd::prelude::*;

use crate::duty;
use crate::duty::{RunPoint, HIGH_INTERVAL_US, LOW_INTERVAL_US};
use crate::hardware::SharedOutputs;
use crate::sched::{chosen, Activation, DeferredQueue, TaskId, QUEUE_CAPACITY};

verus! {

/// The activation a task's body hands to `spawn_after` as it finishes: the
/// partner task, due after the finishing task's fixed delay, at the static
/// priority.
pub open spec fn next_activation(task: TaskId, now: u64) -> Activation {
    Activation {
        task: task.other(),
        fire_at: (now + duty::next_delay_us(task)) as u64,
        priority: task.other().spec_priority(),
    }
}

/// The whole control system: the shared output pair and the scheduler's
/// Deferred Task Queue.
pub struct System {
    pub outputs: SharedOutputs,
    pub queue: DeferredQueue,
}

impl System {
    /// The invariant of every reachable state: the LED mirrors the relay,
    /// the store is within its capacity, and at most one activation is
    /// pending — each task only schedules the other, and only after its own
    /// record was consumed by dispatch.
    pub open spec fn inv(self) -> bool {
        &&& self.outputs.paired()
        &&& self.queue.wf()
        &&& self.queue@.len() <= 1
    }

    /// The abstract run point of a system with exactly one pending
    /// activation: the snapshot [`crate::duty`]'s ideal run speaks of.
    pub open spec fn as_run_point(self) -> RunPoint
        recommends
            self.queue@.len() == 1,
    {
        RunPoint {
            relay_high: self.outputs.relay.is_high(),
            task: self.queue@[0].task,
            fire_at: self.queue@[0].fire_at as int,
        }
    }

    /// Boot initialization at tick `now`: forces both outputs high (the
    /// pre-activation default) and seeds exactly one pending activation,
    /// `relay_on` at delay zero. The resulting state depends on nothing but
    /// `now`, so re-running it resets the system completely.
    pub fn boot(now: u64) -> (s: System)
        ensures
            s.inv(),
            s.outputs.led.is_high(),
            s.outputs.relay.is_high(),
            s.queue@ == seq![
                Activation {
                    task: TaskId::RelayOn,
                    fire_at: now,
                    priority: TaskId::RelayOn.spec_priority(),
                },
            ],
            s.as_run_point() == duty::boot_point(now as int),
    {
        let outputs = SharedOutputs::new_high();
        let mut queue = DeferredQueue::new();
        // a full store cannot refuse an insertion into an empty one; the
        // result is discarded in the fire-and-forget style of every
        // scheduling call in this system
        let _ = queue.spawn_after(TaskId::RelayOn, 0, now);
        proof {
            assert(queue@ =~= seq![
                Activation {
                    task: TaskId::RelayOn,
                    fire_at: now,
                    priority: TaskId::RelayOn.spec_priority(),
                },
            ]);
        }
        System { outputs, queue }
    }

    /// Re-runs boot initialization on a running system. Idempotent: whatever
    /// the prior state, afterwards both outputs are high and exactly one
    /// activation — `relay_on` at delay zero — is pending.
    pub fn reinit(&mut self, now: u64)
        ensures
            final(self).inv(),
            final(self).outputs.led.is_high(),
            final(self).outputs.relay.is_high(),
            final(self).queue@ == seq![
                Activation {
                    task: TaskId::RelayOn,
                    fire_at: now,
                    priority: TaskId::RelayOn.spec_priority(),
                },
            ],
            final(self).as_run_point() == duty::boot_point(now as int),
    {
        *self = System::boot(now);
    }

    /// The duty-cycle state machine: the body of the task named by `task`,
    /// run when the scheduler dispatches it at tick `now`. Under the
    /// resource lock, `relay_on` drives both outputs high and `relay_off`
    /// drives both low; each then schedules the other after its fixed delay.
    /// The schedule is fire-and-forget: when the store is full the request
    /// is dropped and every pending record is left untouched.
    pub fn execute_task(&mut self, task: TaskId, now: u64)
        requires
            old(self).queue.wf(),
            now + duty::next_delay_us(task) <= u64::MAX,
        ensures
            final(self).queue.wf(),
            final(self).outputs.paired(),
            final(self).outputs.relay.is_high() == (task == TaskId::RelayOn),
            final(self).outputs.led.is_high() == (task == TaskId::RelayOn),
            old(self).queue@.len() < QUEUE_CAPACITY ==> final(self).queue@ == old(self).queue@.push(
                next_activation(task, now),
            ),
            old(self).queue@.len() >= QUEUE_CAPACITY ==> final(self).queue@ == old(self).queue@,
    {
        match task {
            TaskId::RelayOn => {
                self.outputs.lock_set_high();
                let _ = self.queue.spawn_after(TaskId::RelayOff, HIGH_INTERVAL_US, now);
            },
            TaskId::RelayOff => {
                self.outputs.lock_set_low();
                let _ = self.queue.spawn_after(TaskId::RelayOn, LOW_INTERVAL_US, now);
            },
        }
    }

    /// One scheduler poll at tick `now`: dispatches the earliest due
    /// activation, if any, runs its task body, and reports which task ran.
    /// The invariant is preserved; nothing runs before its fire time; and a
    /// poll at exactly the pending fire time advances the system by
    /// precisely one step of the ideal run in [`crate::duty`].
    pub fn poll(&mut self, now: u64) -> (dispatched: Option<TaskId>)
        requires
            old(self).inv(),
            now + LOW_INTERVAL_US <= u64::MAX,
        ensures
            final(self).inv(),
            dispatched is None ==> {
                &&& final(self).outputs == old(self).outputs
                &&& final(self).queue@ == old(self).queue@
                &&& old(self).queue@.len() == 0 || old(self).queue@[0].fire_at > now
            },
            dispatched matches Some(t) ==> {
                &&& old(self).queue@.len() == 1
                &&& old(self).queue@[0].task == t
                &&& old(self).queue@[0].fire_at <= now
                &&& final(self).outputs.relay.is_high() == (t == TaskId::RelayOn)
                &&& final(self).outputs.led.is_high() == (t == TaskId::RelayOn)
                &&& final(self).queue@ == seq![next_activation(t, now)]
            },
            old(self).queue@.len() == 1 && old(self).queue@[0].fire_at == now ==> {
                &&& dispatched == Some(old(self).queue@[0].task)
                &&& final(self).as_run_point() == duty::step(old(self).as_run_point())
            },
    {
        let dispatched = self.queue.dispatch_ready(now);
        match dispatched {
            None => None,
            Some(t) => {
                proof {
                    let i = choose|i: int|
                        chosen(old(self).queue@, now, i) && old(self).queue@[i].task == t
                            && self.queue@ == old(self).queue@.remove(i);
                    assert(i == 0);
                    assert(self.queue@ =~= Seq::<Activation>::empty());
                }
                self.execute_task(t, now);
                proof {
                    assert(self.queue@ =~= seq![next_activation(t, now)]);
                }
                Some(t)
            },
        }
    }
}

} // verus!
