//! A counting semaphore with a first-in, first-out queue of waiters.
//!
//! The semaphore never suspends anybody by itself. `acquire` says whether the
//! caller got a unit or has been queued; the scheduler that owns the task
//! suspends it, and later learns from `release` which task to wake, or
//! reports with `cancel_wait` that the task's deadline has passed.

use vstd::prelude::*;
use crate::context::CoreContext;

verus! {

/// Identifies a task to the semaphore and to the scheduler.
pub type TaskId = u32;

/// The mathematical state of a semaphore.
pub struct SemaphoreView {
    /// Units that can be taken without waiting.
    pub count: int,
    /// The suspended tasks, earliest first.
    pub queue: Seq<TaskId>,
}

/// What `acquire` decided for the calling task.
#[derive(Clone, Copy, Debug, PartialEq, Eq, Structural)]
pub enum AcquireStep {
    /// A unit was taken; the call is over and has succeeded.
    Acquired,
    /// The task stands at the tail of the queue and must be suspended, for
    /// at most the given number of milliseconds if there is one.
    Suspended { timeout: Option<u64> },
}

impl SemaphoreView {
    /// A positive count and a waiting task never coexist, and no task waits twice.
    pub open spec fn wf(self) -> bool {
        &&& self.count >= 0
        &&& self.count > 0 ==> self.queue.len() == 0
        &&& self.queue.no_duplicates()
    }

    /// Whether `task` is suspended on the semaphore.
    pub open spec fn is_waiting(self, task: TaskId) -> bool {
        self.queue.contains(task)
    }

    /// Taking a unit if there is one.
    pub open spec fn take(self) -> SemaphoreView {
        if self.count > 0 {
            SemaphoreView { count: self.count - 1, queue: self.queue }
        } else {
            self
        }
    }

    /// `acquire` by `task`: a unit is taken, or the task joins the tail.
    pub open spec fn acquire(self, task: TaskId) -> SemaphoreView {
        if self.count > 0 {
            self.take()
        } else {
            SemaphoreView { count: self.count, queue: self.queue.push(task) }
        }
    }

    /// The task that a `release` wakes, if any.
    pub open spec fn next_woken(self) -> Option<TaskId> {
        if self.queue.len() > 0 {
            Some(self.queue[0])
        } else {
            None
        }
    }

    /// `release`: the unit goes to the earliest waiter, or else into the count.
    pub open spec fn release(self) -> SemaphoreView {
        if self.queue.len() > 0 {
            SemaphoreView { count: self.count, queue: self.queue.drop_first() }
        } else {
            SemaphoreView { count: self.count + 1, queue: self.queue }
        }
    }

    /// The deadline of `task` passes: it leaves the queue if it is still there.
    pub open spec fn cancel_wait(self, task: TaskId) -> SemaphoreView {
        if self.queue.contains(task) {
            SemaphoreView { count: self.count, queue: self.queue.remove(self.queue.index_of(task)) }
        } else {
            self
        }
    }
}

/// A counting semaphore.
pub struct Semaphore {
    count: isize,
    queue: Vec<TaskId>,
}

impl View for Semaphore {
    type V = SemaphoreView;

    closed spec fn view(&self) -> SemaphoreView {
        SemaphoreView { count: self.count as int, queue: self.queue@ }
    }
}

impl Semaphore {
    /// Holds of every semaphore that this module hands out.
    pub open spec fn wf(&self) -> bool {
        &&& self@.wf()
        &&& self@.count <= isize::MAX
    }

    /// A semaphore with `count` units and nobody waiting.
    pub fn new(count: isize) -> (sem: Semaphore)
        requires
            count >= 0,
        ensures
            sem.wf(),
            sem@.count == count,
            sem@.queue == Seq::<TaskId>::empty(),
    {
        Semaphore { count, queue: Vec::new() }
    }

    /// The units that can be taken right now.
    pub fn count(&self) -> (count: isize)
        ensures
            count == self@.count,
    {
        self.count
    }

    /// How many tasks are suspended on the semaphore.
    pub fn waiters(&self) -> (n: usize)
        ensures
            n == self@.queue.len(),
    {
        self.queue.len()
    }

    /// Whether `task` is suspended on the semaphore.
    pub fn is_waiting(&self, task: TaskId) -> (waiting: bool)
        ensures
            waiting == self@.is_waiting(task),
    {
        let mut i: usize = 0;
        while i < self.queue.len()
            invariant
                i <= self.queue.len(),
                forall|j: int| 0 <= j < i ==> self.queue@[j] != task,
            decreases self.queue.len() - i,
        {
            if self.queue[i] == task {
                return true;
            }
            i += 1;
        }
        false
    }

    /// Takes a unit if one is there. Never queues the caller.
    pub fn try_acquire(&mut self) -> (acquired: bool)
        requires
            old(self).wf(),
        ensures
            final(self).wf(),
            acquired == (old(self)@.count > 0),
            !acquired <==> old(self)@.count == 0,
            final(self)@ == old(self)@.take(),
            final(self)@.queue == old(self)@.queue,
    {
        if self.count > 0 {
            self.count -= 1;
            true
        } else {
            false
        }
    }

    /// Takes a unit if one is there; otherwise puts `task` at the tail of the
    /// queue and tells the caller to suspend it.
    ///
    /// This is the one call that may suspend its caller, so it must not be
    /// made inside a critical section or an interrupt handler: `ctx`, the
    /// context of the calling core, shows that the task may be suspended.
    pub fn acquire(
        &mut self,
        ctx: &CoreContext,
        task: TaskId,
        timeout: Option<u64>,
    ) -> (step: AcquireStep)
        requires
            old(self).wf(),
            ctx@.may_suspend(),
            !old(self)@.is_waiting(task),
        ensures
            final(self).wf(),
            final(self)@ == old(self)@.acquire(task),
            old(self)@.count > 0 ==> step == AcquireStep::Acquired,
            old(self)@.count == 0 ==> step == (AcquireStep::Suspended { timeout }),
    {
        if self.count > 0 {
            self.count -= 1;
            AcquireStep::Acquired
        } else {
            self.queue.push(task);
            proof {
                lemma_push_keeps_distinct(old(self)@.queue, task);
            }
            AcquireStep::Suspended { timeout }
        }
    }

    /// Hands a unit to the earliest waiter, who is returned and must be
    /// woken, or adds it to the count if nobody waits.
    pub fn release(&mut self) -> (woken: Option<TaskId>)
        requires
            old(self).wf(),
            old(self)@.queue.len() == 0 ==> old(self)@.count < isize::MAX,
        ensures
            final(self).wf(),
            woken == old(self)@.next_woken(),
            final(self)@ == old(self)@.release(),
    {
        if self.queue.len() > 0 {
            let task = self.queue.remove(0);
            proof {
                assert(old(self)@.queue.remove(0) =~= old(self)@.queue.drop_first());
                lemma_remove_keeps_distinct(old(self)@.queue, 0);
            }
            Some(task)
        } else {
            self.count += 1;
            None
        }
    }

    /// Reports that the deadline of `task` has passed. Returns true if the
    /// task was still queued: it has left the queue and its `acquire` has
    /// failed. Returns false if the task had been woken before: its
    /// `acquire` has succeeded and nothing changes.
    pub fn cancel_wait(&mut self, task: TaskId) -> (timed_out: bool)
        requires
            old(self).wf(),
        ensures
            final(self).wf(),
            timed_out == old(self)@.is_waiting(task),
            final(self)@ == old(self)@.cancel_wait(task),
            !final(self)@.is_waiting(task),
    {
        let mut i: usize = 0;
        while i < self.queue.len()
            invariant
                i <= self.queue.len(),
                old(self).wf(),
                self.queue@ == old(self).queue@,
                self.count == old(self).count,
                forall|j: int| 0 <= j < i ==> self.queue@[j] != task,
            decreases self.queue.len() - i,
        {
            if self.queue[i] == task {
                proof {
                    let q = old(self)@.queue;
                    assert(q[i as int] == task);
                    let k = q.index_of(task);
                    assert(0 <= k < q.len() && q[k] == task);
                    assert(k == i as int);
                    lemma_remove_keeps_distinct(q, i as int);
                    lemma_removed_is_gone(q, i as int);
                }
                self.queue.remove(i);
                return true;
            }
            i += 1;
        }
        false
    }
}

/// A queue without duplicates stays so when a task that is not in it joins.
pub proof fn lemma_push_keeps_distinct(q: Seq<TaskId>, task: TaskId)
    requires
        q.no_duplicates(),
        !q.contains(task),
    ensures
        q.push(task).no_duplicates(),
{
    let p = q.push(task);
    assert forall|i: int, j: int| 0 <= i < p.len() && 0 <= j < p.len() && i != j implies p[i]
        != p[j] by {
        if i < q.len() && j < q.len() {
        } else if i < q.len() {
            assert(q.contains(q[i]));
        } else {
            assert(q.contains(q[j]));
        }
    }
}

/// A queue without duplicates stays so when a task leaves it.
pub proof fn lemma_remove_keeps_distinct(q: Seq<TaskId>, i: int)
    requires
        q.no_duplicates(),
        0 <= i < q.len(),
    ensures
        q.remove(i).no_duplicates(),
{
    let r = q.remove(i);
    assert forall|a: int, b: int| 0 <= a < r.len() && 0 <= b < r.len() && a != b implies r[a]
        != r[b] by {
        let a0 = if a < i { a } else { a + 1 };
        let b0 = if b < i { b } else { b + 1 };
        assert(r[a] == q[a0]);
        assert(r[b] == q[b0]);
    }
}

/// The task removed from a queue without duplicates is no longer in it.
pub proof fn lemma_removed_is_gone(q: Seq<TaskId>, i: int)
    requires
        q.no_duplicates(),
        0 <= i < q.len(),
    ensures
        !q.remove(i).contains(q[i]),
{
    let r = q.remove(i);
    if r.contains(q[i]) {
        let a = choose|a: int| 0 <= a < r.len() && r[a] == q[i];
        let a0 = if a < i { a } else { a + 1 };
        assert(r[a] == q[a0]);
    }
}

} // verus!
