//! The scheduler core: a Deferred Task Queue holding pending task
//! activations, each tagged with an absolute fire time and a static priority,
//! in a backing store of fixed capacity. `spawn_after` records the intent to
//! run a task later and returns at once; `dispatch_ready` removes and returns
//! the earliest-due record, never before its fire time has arrived.

use vstd::prelude::*;

verus! {

/// Identity of one of the two fixed duty-cycle tasks.
#[derive(Clone, Copy, PartialEq, Eq, Structural, Debug)]
pub enum TaskId {
    RelayOn,
    RelayOff,
}

impl TaskId {
    /// The static priority a task's activations carry. Both duty-cycle tasks
    /// run at the same level.
    pub open spec fn spec_priority(self) -> u8 {
        1
    }

    /// Executable twin of [`Self::spec_priority`].
    pub fn priority(self) -> (p: u8)
        ensures
            p == self.spec_priority(),
    {
        1
    }

    /// The partner identity: each of the two tasks only ever schedules the other.
    pub open spec fn other(self) -> TaskId {
        match self {
            TaskId::RelayOn => TaskId::RelayOff,
            TaskId::RelayOff => TaskId::RelayOn,
        }
    }
}

/// Why a schedule request was refused.
#[derive(Clone, Copy, PartialEq, Eq, Structural, Debug)]
pub enum SchedulingError {
    /// The fixed-capacity backing store already holds its maximum entries.
    QueueFull,
}

/// One pending activation: `task` is to run no earlier than tick `fire_at`.
/// A record is created by `spawn_after` and consumed by its single dispatch.
#[derive(Clone, Copy, PartialEq, Eq, Structural, Debug)]
pub struct Activation {
    pub task: TaskId,
    pub fire_at: u64,
    pub priority: u8,
}

/// The backing store is sized to the maximum number of simultaneously
/// pending tasks.
pub const QUEUE_CAPACITY: usize = 2;

/// Dispatch order among due records: earlier fire time first; at an equal
/// fire time, higher static priority first. Records tied on both go in
/// insertion (FIFO) order, which [`chosen`] expresses by index order.
pub open spec fn precedes(a: Activation, b: Activation) -> bool {
    a.fire_at < b.fire_at || (a.fire_at == b.fire_at && a.priority > b.priority)
}

/// Index `i` names the record `dispatch_ready` must pick at tick `now` from
/// the stored sequence `q`: a due record (fire time reached) that no other
/// due record precedes, stored before every due record tied with it. At most
/// one index satisfies this.
pub open spec fn chosen(q: Seq<Activation>, now: u64, i: int) -> bool {
    &&& 0 <= i < q.len()
    &&& q[i].fire_at <= now
    &&& forall|j: int| 0 <= j < q.len() && q[j].fire_at <= now ==> !precedes(q[j], q[i])
    &&& forall|j: int| 0 <= j < i && q[j].fire_at <= now ==> precedes(q[i], q[j])
}

/// The Deferred Task Queue: pending activations kept in insertion order, in
/// a store of fixed capacity [`QUEUE_CAPACITY`].
pub struct DeferredQueue {
    pub slots: Vec<Activation>,
}

impl View for DeferredQueue {
    type V = Seq<Activation>;

    open spec fn view(&self) -> Seq<Activation> {
        self.slots@
    }
}

impl DeferredQueue {
    /// The store never exceeds its fixed capacity.
    pub open spec fn wf(self) -> bool {
        self@.len() <= QUEUE_CAPACITY
    }

    /// An empty queue: nothing pending.
    pub fn new() -> (q: DeferredQueue)
        ensures
            q.wf(),
            q@ == Seq::<Activation>::empty(),
    {
        DeferredQueue { slots: Vec::new() }
    }

    /// How many activations are pending.
    pub fn len(&self) -> (n: usize)
        ensures
            n == self@.len(),
    {
        self.slots.len()
    }

    /// Records the intent to run `task` at `now + delay_us`, appending the
    /// record to the store. Non-blocking: it either inserts and succeeds, or
    /// — exactly when the store already holds its maximum entries — refuses
    /// with `QueueFull`, leaving every pending record untouched.
    pub fn spawn_after(&mut self, task: TaskId, delay_us: u64, now: u64) -> (r: Result<
        (),
        SchedulingError,
    >)
        requires
            old(self).wf(),
            now + delay_us <= u64::MAX,
        ensures
            final(self).wf(),
            old(self)@.len() < QUEUE_CAPACITY ==> r is Ok && final(self)@ == old(self)@.push(
                Activation {
                    task,
                    fire_at: (now + delay_us) as u64,
                    priority: task.spec_priority(),
                },
            ),
            old(self)@.len() >= QUEUE_CAPACITY ==> r == Err::<(), SchedulingError>(
                SchedulingError::QueueFull,
            ) && final(self)@ == old(self)@,
    {
        if self.slots.len() >= QUEUE_CAPACITY {
            Err(SchedulingError::QueueFull)
        } else {
            self.slots.push(
                Activation { task, fire_at: now + delay_us, priority: task.priority() },
            );
            Ok(())
        }
    }

    /// Removes and returns the task of the earliest-due pending record — the
    /// one [`chosen`] points at — or returns `None`, leaving the store
    /// untouched, exactly when no record's fire time has arrived. A task is
    /// never handed out before `now` has reached its fire time.
    pub fn dispatch_ready(&mut self, now: u64) -> (dispatched: Option<TaskId>)
        requires
            old(self).wf(),
        ensures
            final(self).wf(),
            dispatched is None ==> final(self)@ == old(self)@ && forall|j: int|
                0 <= j < old(self)@.len() ==> old(self)@[j].fire_at > now,
            dispatched matches Some(t) ==> exists|i: int|
                chosen(old(self)@, now, i) && old(self)@[i].task == t && final(self)@ == old(
                    self,
                )@.remove(i),
            dispatched matches Some(t) ==> exists|i: int|
                0 <= i < old(self)@.len() && #[trigger] old(self)@[i].task == t && old(
                    self,
                )@[i].fire_at <= now,
    {
        let ghost q = self@;
        let mut best: Option<usize> = None;
        let mut i: usize = 0;
        while i < self.slots.len()
            invariant
                self@ == q,
                i <= q.len(),
                match best {
                    None => forall|j: int| 0 <= j < i ==> q[j].fire_at > now,
                    Some(b) => {
                        &&& b < i
                        &&& q[b as int].fire_at <= now
                        &&& forall|j: int|
                            0 <= j < i && q[j].fire_at <= now ==> !precedes(q[j], q[b as int])
                        &&& forall|j: int|
                            0 <= j < b && q[j].fire_at <= now ==> precedes(q[b as int], q[j])
                    },
                },
            decreases q.len() - i,
        {
            let a = self.slots[i];
            match best {
                None => {
                    if a.fire_at <= now {
                        best = Some(i);
                    }
                },
                Some(b) => {
                    let cur = self.slots[b];
                    if a.fire_at <= now && (a.fire_at < cur.fire_at || (a.fire_at == cur.fire_at
                        && a.priority > cur.priority)) {
                        best = Some(i);
                    }
                },
            }
            i += 1;
        }
        match best {
            None => None,
            Some(b) => {
                proof {
                    assert(chosen(q, now, b as int));
                }
                let a = self.slots.remove(b);
                Some(a.task)
            },
        }
    }

    /// The earliest pending fire time: the deadline the timer's
    /// interrupt-on-deadline wake-up is armed with. `None` exactly when
    /// nothing is pending.
    pub fn next_fire_time(&self) -> (deadline: Option<u64>)
        ensures
            deadline is None <==> self@.len() == 0,
            deadline matches Some(t) ==> (exists|i: int|
                0 <= i < self@.len() && #[trigger] self@[i].fire_at == t) && forall|j: int|
                0 <= j < self@.len() ==> self@[j].fire_at >= t,
    {
        let mut deadline: Option<u64> = None;
        let mut i: usize = 0;
        while i < self.slots.len()
            invariant
                i <= self@.len(),
                deadline is None <==> i == 0,
                deadline matches Some(t) ==> (exists|j: int|
                    0 <= j < i && #[trigger] self@[j].fire_at == t) && forall|j: int|
                    0 <= j < i ==> self@[j].fire_at >= t,
            decreases self@.len() - i,
        {
            let a = self.slots[i];
            match deadline {
                None => {
                    deadline = Some(a.fire_at);
                },
                Some(t) => {
                    if a.fire_at < t {
                        deadline = Some(a.fire_at);
                    }
                },
            }
            i += 1;
        }
        deadline
    }
}

} // verus!
