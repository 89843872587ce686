//! The per-project task queue.
//!
//! Each project has one logical advancement pipeline: a FIFO of pending
//! tasks consumed by the single worker that owns the project's slot.
//! Self-scheduled continuations go to the head, ahead of freshly arriving
//! external tasks; so does `Destroy`, which preempts.  Transient failures
//! re-enqueue with an incremented attempt count and exponential backoff.

use vstd::prelude::*;

use crate::error::{Error, ErrorKind};
use crate::state::TaskPayload;

verus! {

/// Base backoff delay after a transient failure, in milliseconds.
pub const BACKOFF_BASE_MS: u64 = 100;

/// The backoff delay never exceeds this, in milliseconds.
pub const BACKOFF_CAP_MS: u64 = 60000;

/// A queue refuses new tasks beyond this length.
pub const QUEUE_CAP: usize = 1024;

/// A task is dropped instead of re-enqueued once it was attempted this
/// many times.
pub const ATTEMPT_CAP: u8 = 10;

/// One pending task: an intent bound to the owning project.
#[derive(Clone, Copy, Debug, PartialEq, Eq, Structural)]
pub struct QueuedTask {
    /// Monotonically increasing id, scoped to the project.
    pub id: u64,
    pub payload: TaskPayload,
    /// How many times the task was tried and re-enqueued.
    pub attempt: u8,
}

/// The FIFO of pending tasks for one project.
pub struct TaskQueue {
    items: Vec<QueuedTask>,
    next_id: u64,
}

impl View for TaskQueue {
    type V = Seq<QueuedTask>;

    /// The pending tasks, next-to-run first.
    closed spec fn view(&self) -> Seq<QueuedTask> {
        self.items@
    }
}

impl TaskQueue {
    /// The id the next accepted task will get.
    pub closed spec fn spec_next_id(&self) -> u64 {
        self.next_id
    }

    /// Every queued id was handed out (is below `next_id`) and ids are
    /// pairwise distinct.
    pub open spec fn wf(&self) -> bool {
        &&& (forall|k: int| 0 <= k < self@.len() ==> (#[trigger] self@[k].id) < self.spec_next_id())
        &&& (forall|k1: int, k2: int|
            0 <= k1 < k2 < self@.len() ==> (#[trigger] self@[k1].id) != (#[trigger] self@[k2].id))
    }

    pub fn new() -> (q: TaskQueue)
        ensures
            q@ =~= Seq::<QueuedTask>::empty(),
            q.wf(),
            q.spec_next_id() == 0,
    {
        TaskQueue { items: Vec::new(), next_id: 0 }
    }

    pub fn len(&self) -> (n: usize)
        ensures
            n == self@.len(),
    {
        self.items.len()
    }

    /// Accepts an external task.  `Destroy` preempts: it goes to the head;
    /// everything else joins the tail.  Refuses when saturated.
    pub fn submit(&mut self, payload: TaskPayload) -> (r: Result<u64, Error>)
        requires
            old(self).wf(),
        ensures
            final(self).wf(),
            match r {
                Ok(id) => {
                    &&& old(self)@.len() < QUEUE_CAP
                    &&& old(self).spec_next_id() < u64::MAX
                    &&& id == old(self).spec_next_id()
                    &&& final(self).spec_next_id() == old(self).spec_next_id() + 1
                    &&& (if payload == TaskPayload::Destroy {
                        final(self)@ == seq![QueuedTask { id, payload, attempt: 0 }] + old(self)@
                    } else {
                        final(self)@ == old(self)@ + seq![QueuedTask { id, payload, attempt: 0 }]
                    })
                },
                Err(e) => {
                    &&& (old(self)@.len() >= QUEUE_CAP || old(self).spec_next_id() == u64::MAX)
                    &&& e.spec_kind() == ErrorKind::ServiceUnavailable
                    &&& final(self)@ == old(self)@
                    &&& final(self).spec_next_id() == old(self).spec_next_id()
                },
            },
    {
        if self.items.len() >= QUEUE_CAP || self.next_id == u64::MAX {
            return Err(Error::from_kind(ErrorKind::ServiceUnavailable));
        }
        let id = self.next_id;
        self.next_id = self.next_id + 1;
        let task = QueuedTask { id, payload, attempt: 0 };
        if matches!(payload, TaskPayload::Destroy) {
            self.items.insert(0, task);
            proof {
                assert(self.items@ =~= seq![task] + old(self).items@);
            }
        } else {
            self.items.push(task);
            proof {
                assert(self.items@ =~= old(self).items@ + seq![task]);
            }
        }
        Ok(id)
    }

    /// Enqueues a self-scheduled continuation at the head, ahead of
    /// external tasks.
    pub fn push_continuation(&mut self, payload: TaskPayload) -> (r: Result<u64, Error>)
        requires
            old(self).wf(),
        ensures
            final(self).wf(),
            match r {
                Ok(id) => {
                    &&& old(self)@.len() < QUEUE_CAP
                    &&& old(self).spec_next_id() < u64::MAX
                    &&& id == old(self).spec_next_id()
                    &&& final(self).spec_next_id() == old(self).spec_next_id() + 1
                    &&& final(self)@ == seq![QueuedTask { id, payload, attempt: 0 }] + old(self)@
                },
                Err(e) => {
                    &&& (old(self)@.len() >= QUEUE_CAP || old(self).spec_next_id() == u64::MAX)
                    &&& e.spec_kind() == ErrorKind::ServiceUnavailable
                    &&& final(self)@ == old(self)@
                    &&& final(self).spec_next_id() == old(self).spec_next_id()
                },
            },
    {
        if self.items.len() >= QUEUE_CAP || self.next_id == u64::MAX {
            return Err(Error::from_kind(ErrorKind::ServiceUnavailable));
        }
        let id = self.next_id;
        self.next_id = self.next_id + 1;
        let task = QueuedTask { id, payload, attempt: 0 };
        self.items.insert(0, task);
        proof {
            assert(self.items@ =~= seq![task] + old(self).items@);
        }
        Ok(id)
    }

    /// Takes the next task to run, oldest (or preempting) first.
    pub fn pop(&mut self) -> (r: Option<QueuedTask>)
        requires
            old(self).wf(),
        ensures
            final(self).wf(),
            final(self).spec_next_id() == old(self).spec_next_id(),
            match r {
                Some(t) => old(self)@.len() > 0 && t == old(self)@[0] && final(self)@ == old(
                    self,
                )@.subrange(1, old(self)@.len() as int),
                None => old(self)@.len() == 0 && final(self)@ == old(self)@,
            },
    {
        if self.items.len() == 0 {
            return None;
        }
        let t = self.items.remove(0);
        proof {
            assert(self.items@ =~= old(self).items@.subrange(1, old(self).items@.len() as int));
        }
        Some(t)
    }

    /// Re-enqueues a task that failed transiently, one more attempt made,
    /// at the tail.  Once the attempt cap is reached the task is dropped
    /// instead (`Ok(false)`).  The task must be the one just popped: its
    /// id is already allotted and no longer queued.
    pub fn requeue(&mut self, t: QueuedTask) -> (r: Result<bool, Error>)
        requires
            old(self).wf(),
            t.id < old(self).spec_next_id(),
            forall|k: int| 0 <= k < old(self)@.len() ==> (#[trigger] old(self)@[k].id) != t.id,
        ensures
            final(self).wf(),
            final(self).spec_next_id() == old(self).spec_next_id(),
            match r {
                Ok(requeued) => {
                    &&& (requeued == (t.attempt < ATTEMPT_CAP))
                    &&& (if requeued {
                        final(self)@ == old(self)@ + seq![
                            QueuedTask { id: t.id, payload: t.payload, attempt: (t.attempt + 1) as u8 },
                        ]
                    } else {
                        final(self)@ == old(self)@
                    })
                },
                Err(e) => {
                    &&& old(self)@.len() >= QUEUE_CAP
                    &&& e.spec_kind() == ErrorKind::ServiceUnavailable
                    &&& final(self)@ == old(self)@
                },
            },
    {
        if t.attempt >= ATTEMPT_CAP {
            return Ok(false);
        }
        if self.items.len() >= QUEUE_CAP {
            return Err(Error::from_kind(ErrorKind::ServiceUnavailable));
        }
        let again = QueuedTask { id: t.id, payload: t.payload, attempt: t.attempt + 1 };
        self.items.push(again);
        proof {
            assert(self.items@ =~= old(self).items@ + seq![again]);
        }
        Ok(true)
    }
}

/// The worker's delay before attempt `attempt + 1`: the base delay
/// doubled per attempt, capped.
pub open spec fn spec_backoff(attempt: u8) -> u64
    decreases attempt,
{
    if attempt == 0 {
        BACKOFF_BASE_MS
    } else {
        let prev = spec_backoff((attempt - 1) as u8);
        if 2 * prev > BACKOFF_CAP_MS {
            BACKOFF_CAP_MS
        } else {
            (2 * prev) as u64
        }
    }
}

/// Computes the retry backoff delay in milliseconds.
pub fn backoff_ms(attempt: u8) -> (delay: u64)
    ensures
        delay == spec_backoff(attempt),
{
    let mut delay: u64 = BACKOFF_BASE_MS;
    let mut i: u8 = 0;
    while i < attempt
        invariant
            i <= attempt,
            delay == spec_backoff(i),
            delay <= BACKOFF_CAP_MS,
        decreases attempt - i,
    {
        if delay > BACKOFF_CAP_MS / 2 {
            delay = BACKOFF_CAP_MS;
        } else {
            delay = 2 * delay;
        }
        i = i + 1;
    }
    delay
}

} // verus!
