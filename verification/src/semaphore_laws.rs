//! What holds of a semaphore over whole histories of calls.

use vstd::prelude::*;
use crate::semaphore::{SemaphoreView, TaskId};

verus! {

/// One call on a semaphore, as it appears in a history.
pub enum SemaphoreOp {
    TryAcquire,
    Acquire(TaskId),
    Release,
    CancelWait(TaskId),
}

/// The state after `op`.
pub open spec fn step(s: SemaphoreView, op: SemaphoreOp) -> SemaphoreView {
    match op {
        SemaphoreOp::TryAcquire => s.take(),
        SemaphoreOp::Acquire(task) => s.acquire(task),
        SemaphoreOp::Release => s.release(),
        SemaphoreOp::CancelWait(task) => s.cancel_wait(task),
    }
}

/// A task that is suspended on the semaphore cannot call `acquire` again.
pub open spec fn admissible(s: SemaphoreView, op: SemaphoreOp) -> bool {
    op matches SemaphoreOp::Acquire(task) ==> !s.is_waiting(task)
}

/// How many acquisitions `op` completes in state `s`: a unit taken from the
/// count, or a unit handed to the earliest waiter by a release.
pub open spec fn acquired_by(s: SemaphoreView, op: SemaphoreOp) -> int {
    match op {
        SemaphoreOp::TryAcquire | SemaphoreOp::Acquire(_) => if s.count > 0 {
            1
        } else {
            0
        },
        SemaphoreOp::Release => if s.queue.len() > 0 {
            1
        } else {
            0
        },
        SemaphoreOp::CancelWait(_) => 0,
    }
}

/// How many units `op` releases.
pub open spec fn released_by(op: SemaphoreOp) -> int {
    if op is Release {
        1
    } else {
        0
    }
}

/// The state after the calls of `ops`, in order.
pub open spec fn run(s: SemaphoreView, ops: Seq<SemaphoreOp>) -> SemaphoreView
    decreases ops.len(),
{
    if ops.len() == 0 {
        s
    } else {
        step(run(s, ops.drop_last()), ops.last())
    }
}

/// Every call of `ops` is admissible in the state in which it is made.
pub open spec fn admissible_history(s: SemaphoreView, ops: Seq<SemaphoreOp>) -> bool
    decreases ops.len(),
{
    ops.len() > 0 ==> admissible_history(s, ops.drop_last()) && admissible(
        run(s, ops.drop_last()),
        ops.last(),
    )
}

/// The number of acquisitions that succeed in the course of `ops`.
pub open spec fn acquisitions(s: SemaphoreView, ops: Seq<SemaphoreOp>) -> int
    decreases ops.len(),
{
    if ops.len() == 0 {
        0
    } else {
        acquisitions(s, ops.drop_last()) + acquired_by(run(s, ops.drop_last()), ops.last())
    }
}

/// The number of releases in `ops`.
pub open spec fn releases(ops: Seq<SemaphoreOp>) -> int
    decreases ops.len(),
{
    if ops.len() == 0 {
        0
    } else {
        releases(ops.drop_last()) + released_by(ops.last())
    }
}

/// A single call keeps the semaphore well formed and moves the count by the
/// unit it releases minus the unit it takes from the count.
pub proof fn lemma_step(s: SemaphoreView, op: SemaphoreOp)
    requires
        s.wf(),
        admissible(s, op),
    ensures
        step(s, op).wf(),
        step(s, op).count == s.count + released_by(op) - acquired_by(s, op),
{
    match op {
        SemaphoreOp::TryAcquire => {},
        SemaphoreOp::Acquire(task) => {
            if s.count == 0 {
                crate::semaphore::lemma_push_keeps_distinct(s.queue, task);
            }
        },
        SemaphoreOp::Release => {
            if s.queue.len() > 0 {
                assert(s.queue.drop_first() =~= s.queue.remove(0));
                crate::semaphore::lemma_remove_keeps_distinct(s.queue, 0);
            }
        },
        SemaphoreOp::CancelWait(task) => {
            if s.queue.contains(task) {
                crate::semaphore::lemma_remove_keeps_distinct(s.queue, s.queue.index_of(task));
            }
        },
    }
}

/// A prefix of an admissible history is admissible.
pub proof fn lemma_prefix_admissible(s: SemaphoreView, ops: Seq<SemaphoreOp>, k: int)
    requires
        admissible_history(s, ops),
        0 <= k <= ops.len(),
    ensures
        admissible_history(s, ops.take(k)),
    decreases ops.len(),
{
    if k == ops.len() {
        assert(ops.take(k) =~= ops);
    } else {
        assert(ops.drop_last().take(k) =~= ops.take(k));
        lemma_prefix_admissible(s, ops.drop_last(), k);
    }
}

/// Whatever the order of the calls, the semaphore stays well formed, so its
/// count is never negative, and the count at the end is the count at the
/// start plus the releases minus the acquisitions that succeeded. A unit
/// handed to a waiter counts as acquired when it is released, so the
/// equation holds after every call, and in particular once nobody waits.
pub proof fn lemma_count_balance(s: SemaphoreView, ops: Seq<SemaphoreOp>)
    requires
        s.wf(),
        admissible_history(s, ops),
    ensures
        run(s, ops).wf(),
        run(s, ops).count >= 0,
        run(s, ops).count == s.count + releases(ops) - acquisitions(s, ops),
    decreases ops.len(),
{
    if ops.len() > 0 {
        lemma_count_balance(s, ops.drop_last());
        lemma_step(run(s, ops.drop_last()), ops.last());
    }
}

/// The count is never negative at any point of an admissible history.
pub proof fn lemma_count_never_negative(s: SemaphoreView, ops: Seq<SemaphoreOp>, k: int)
    requires
        s.wf(),
        admissible_history(s, ops),
        0 <= k <= ops.len(),
    ensures
        run(s, ops.take(k)).count >= 0,
{
    lemma_prefix_admissible(s, ops, k);
    lemma_count_balance(s, ops.take(k));
}

/// The state after each of `tasks` has called `acquire`, in order.
pub open spec fn enqueue_all(s: SemaphoreView, tasks: Seq<TaskId>) -> SemaphoreView
    decreases tasks.len(),
{
    if tasks.len() == 0 {
        s
    } else {
        enqueue_all(s, tasks.drop_last()).acquire(tasks.last())
    }
}

/// The state after `n` releases.
pub open spec fn release_n(s: SemaphoreView, n: nat) -> SemaphoreView
    decreases n,
{
    if n == 0 {
        s
    } else {
        release_n(s, (n - 1) as nat).release()
    }
}

/// The tasks that `n` releases wake, in the order in which they are woken.
pub open spec fn woken_by(s: SemaphoreView, n: nat) -> Seq<TaskId>
    decreases n,
{
    if n == 0 {
        Seq::empty()
    } else {
        let before = release_n(s, (n - 1) as nat);
        match before.next_woken() {
            Some(task) => woken_by(s, (n - 1) as nat).push(task),
            None => woken_by(s, (n - 1) as nat),
        }
    }
}

/// With no unit to take, tasks that call `acquire` line up behind those that
/// wait already, in the order of their calls.
pub proof fn lemma_enqueue_order(s: SemaphoreView, tasks: Seq<TaskId>)
    requires
        s.count == 0,
    ensures
        enqueue_all(s, tasks).count == 0,
        enqueue_all(s, tasks).queue == s.queue + tasks,
    decreases tasks.len(),
{
    if tasks.len() > 0 {
        lemma_enqueue_order(s, tasks.drop_last());
        assert((s.queue + tasks.drop_last()).push(tasks.last()) =~= s.queue + tasks);
    } else {
        assert(s.queue + tasks =~= s.queue);
    }
}

/// As long as tasks wait, releases wake them from the head of the queue on.
pub proof fn lemma_release_order(s: SemaphoreView, n: nat)
    requires
        n <= s.queue.len(),
    ensures
        woken_by(s, n) == s.queue.take(n as int),
        release_n(s, n).queue == s.queue.skip(n as int),
        release_n(s, n).count == s.count,
    decreases n,
{
    if n > 0 {
        let m = (n - 1) as nat;
        lemma_release_order(s, m);
        let before = release_n(s, m);
        assert(before.queue.len() > 0);
        assert(before.queue[0] == s.queue[m as int]);
        assert(s.queue.take(m as int).push(s.queue[m as int]) =~= s.queue.take(n as int));
        assert(before.queue.drop_first() =~= s.queue.skip(n as int));
    } else {
        assert(s.queue.take(0) =~= Seq::<TaskId>::empty());
        assert(s.queue.skip(0) =~= s.queue);
    }
}

/// Tasks that block on a semaphore one after the other are woken in the
/// order in which they blocked, after those that waited before them.
pub proof fn lemma_fifo_wakeup(s: SemaphoreView, tasks: Seq<TaskId>)
    requires
        s.count == 0,
    ensures
        woken_by(enqueue_all(s, tasks), s.queue.len() + tasks.len()) == s.queue + tasks,
        release_n(enqueue_all(s, tasks), s.queue.len() + tasks.len()).queue.len() == 0,
        release_n(enqueue_all(s, tasks), s.queue.len() + tasks.len()).count == 0,
{
    let w = enqueue_all(s, tasks);
    lemma_enqueue_order(s, tasks);
    let n = s.queue.len() + tasks.len();
    lemma_release_order(w, n);
    assert(w.queue.take(n as int) =~= w.queue);
}

/// A waiting task whose deadline passes while a unit is released either
/// gets the unit or times out, and never both or neither.
///
/// If the release comes first and the task is the earliest waiter, the task
/// is woken and the later report of its deadline changes nothing. If the
/// deadline comes first, the task leaves the queue, no later release can
/// wake it, and the unit goes to the next waiter or into the count. Either
/// way the two orders end in the same queue without the task.
pub proof fn lemma_timed_acquire_race(s: SemaphoreView, task: TaskId)
    requires
        s.wf(),
        s.is_waiting(task),
    ensures
        // the release comes first
        (s.next_woken() == Some(task)) != s.release().is_waiting(task),
        s.next_woken() == Some(task) ==> s.release().cancel_wait(task) == s.release(),
        // the deadline comes first
        !s.cancel_wait(task).is_waiting(task),
        s.cancel_wait(task).next_woken() != Some(task),
        s.cancel_wait(task).release().wf(),
        s.cancel_wait(task).next_woken().is_none() ==> s.cancel_wait(task).release().count == 1,
{
    let q = s.queue;
    let i = q.index_of(task);
    assert(0 <= i < q.len() && q[i] == task);
    crate::semaphore::lemma_remove_keeps_distinct(q, i);
    crate::semaphore::lemma_removed_is_gone(q, i);
    assert(q.drop_first() =~= q.remove(0));
    crate::semaphore::lemma_remove_keeps_distinct(q, 0);
    crate::semaphore::lemma_removed_is_gone(q, 0);
    if q[0] == task {
        assert(i == 0);
    } else {
        assert(q.drop_first()[i - 1] == task);
    }
    let c = s.cancel_wait(task);
    assert(c.wf());
    if c.queue.len() > 0 {
        assert(c.queue.contains(c.queue[0]));
        assert(c.queue.drop_first() =~= c.queue.remove(0));
        crate::semaphore::lemma_remove_keeps_distinct(c.queue, 0);
    }
}

/// A timed `acquire` that fails leaves the semaphore as it found it.
pub proof fn lemma_timeout_leaves_no_trace(s: SemaphoreView, task: TaskId)
    requires
        s.wf(),
        s.count == 0,
        !s.is_waiting(task),
    ensures
        s.acquire(task).is_waiting(task),
        s.acquire(task).cancel_wait(task) == s,
{
    let a = s.acquire(task);
    let n = s.queue.len() as int;
    assert(a.queue[n] == task);
    crate::semaphore::lemma_push_keeps_distinct(s.queue, task);
    let i = a.queue.index_of(task);
    assert(0 <= i < a.queue.len() && a.queue[i] == task);
    assert(i == n);
    assert(a.queue.remove(n) =~= s.queue);
}

} // verus!
