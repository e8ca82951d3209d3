//! The semaphore calls that applications reach through handles.
//!
//! A handle is a number that `sys_sem_init` gives out. Zero is the null
//! handle; a handle that was never given out or has been destroyed is as
//! invalid as the null handle. Every call returns zero on success and a
//! negative error number otherwise.

use vstd::prelude::*;
use crate::semaphore::{AcquireStep, Semaphore, SemaphoreView, TaskId};
use crate::context::CoreContext;

verus! {

/// Invalid argument.
pub const EINVAL: i32 = 22;

/// The timer has expired.
pub const ETIME: i32 = 62;

/// The operation was cancelled.
pub const ECANCELED: i32 = 125;

/// The semaphores that applications have created, by handle.
pub struct SemaphoreTable {
    slots: Vec<Option<Semaphore>>,
}

/// The mathematical content of a slot.
pub open spec fn slot_view(slot: Option<Semaphore>) -> Option<SemaphoreView> {
    match slot {
        Some(sem) => Some(sem@),
        None => None,
    }
}

impl View for SemaphoreTable {
    type V = Seq<Option<SemaphoreView>>;

    /// The slot of the handle `h` stands at index `h - 1`.
    closed spec fn view(&self) -> Seq<Option<SemaphoreView>> {
        Seq::new(self.slots@.len(), |i: int| slot_view(self.slots@[i]))
    }
}

/// The semaphore that `handle` names, if it names one.
pub open spec fn lookup(table: Seq<Option<SemaphoreView>>, handle: usize) -> Option<
    SemaphoreView,
> {
    if 0 < handle <= table.len() {
        table[handle - 1]
    } else {
        None
    }
}

/// The table with the semaphore of `handle` replaced.
pub open spec fn with_slot(
    table: Seq<Option<SemaphoreView>>,
    handle: usize,
    slot: Option<SemaphoreView>,
) -> Seq<Option<SemaphoreView>> {
    table.update(handle - 1, slot)
}

/// What a wait on a semaphore has come to.
#[derive(Clone, Copy, Debug, PartialEq, Eq, Structural)]
pub enum SysWait {
    /// The call is over with this return value.
    Done(i32),
    /// The task is queued on the semaphore and must be suspended, for at
    /// most this many milliseconds if there are any. It resumes with zero
    /// when a post wakes it, and with what `sys_sem_timeout` returns when
    /// the time is up.
    Blocked { timeout: Option<u64> },
}

impl SemaphoreTable {
    /// Every semaphore in the table is well formed.
    pub open spec fn wf(&self) -> bool {
        &&& self@.len() <= usize::MAX
        &&& forall|i: int|
            0 <= i < self@.len() ==> (#[trigger] self@[i] matches Some(sem) ==> sem.wf()
                && sem.count <= isize::MAX)
    }

    /// A table without semaphores.
    pub fn new() -> (table: SemaphoreTable)
        ensures
            table.wf(),
            table@.len() == 0,
    {
        SemaphoreTable { slots: Vec::new() }
    }

    /// The number of handles given out so far.
    pub fn handles(&self) -> (n: usize)
        ensures
            n == self@.len(),
    {
        self.slots.len()
    }

    /// Whether `task` is suspended on the semaphore that `handle` names.
    pub fn is_waiting(&self, handle: usize, task: TaskId) -> (waiting: bool)
        ensures
            waiting == (lookup(self@, handle) matches Some(sem) && sem.is_waiting(task)),
    {
        if handle == 0 || handle > self.slots.len() {
            return false;
        }
        assert(self@[handle - 1] == slot_view(self.slots@[handle - 1]));
        match &self.slots[handle - 1] {
            Some(sem) => sem.is_waiting(task),
            None => false,
        }
    }

    /// The count of the semaphore that `handle` names.
    pub fn count(&self, handle: usize) -> (count: Option<isize>)
        ensures
            count.is_some() == lookup(self@, handle).is_some(),
            count matches Some(c) ==> c == lookup(self@, handle).unwrap().count,
    {
        if handle == 0 || handle > self.slots.len() {
            return None;
        }
        assert(self@[handle - 1] == slot_view(self.slots@[handle - 1]));
        match &self.slots[handle - 1] {
            Some(sem) => Some(sem.count()),
            None => None,
        }
    }
}

/// Creates a semaphore with `value` units and stores its handle in
/// `handle_out`. Fails with `-EINVAL` if there is nowhere to store the
/// handle or the machine cannot count `value` units.
pub fn sys_sem_init(
    table: &mut SemaphoreTable,
    handle_out: Option<&mut usize>,
    value: u32,
) -> (code: i32)
    requires
        old(table).wf(),
        old(table)@.len() < usize::MAX,
    ensures
        final(table).wf(),
        code == 0 <==> handle_out.is_some() && value <= isize::MAX,
        code != 0 ==> code == -EINVAL && final(table)@ == old(table)@ && (handle_out matches Some(
            h,
        ) ==> *final(h) == *h),
        code == 0 ==> final(table)@ == old(table)@.push(
            Some(SemaphoreView { count: value as int, queue: Seq::empty() }),
        ) && (handle_out matches Some(h) ==> *final(h) == old(table)@.len() + 1),
{
    match handle_out {
        None => -EINVAL,
        Some(out) => {
            if value as u64 > isize::MAX as u64 {
                return -EINVAL;
            }
            let sem = Semaphore::new(value as isize);
            table.slots.push(Some(sem));
            *out = table.slots.len();
            assert(table@ =~= old(table)@.push(
                Some(SemaphoreView { count: value as int, queue: Seq::empty() }),
            ));
            0
        },
    }
}

/// Destroys the semaphore that `handle` names.
pub fn sys_sem_destroy(table: &mut SemaphoreTable, handle: usize) -> (code: i32)
    requires
        old(table).wf(),
    ensures
        final(table).wf(),
        code == 0 <==> lookup(old(table)@, handle).is_some(),
        code != 0 ==> code == -EINVAL && final(table)@ == old(table)@,
        code == 0 ==> final(table)@ == with_slot(old(table)@, handle, None),
{
    if handle == 0 || handle > table.slots.len() {
        return -EINVAL;
    }
    assert(table@[handle - 1] == slot_view(table.slots@[handle - 1]));
    if table.slots[handle - 1].is_none() {
        return -EINVAL;
    }
    table.slots[handle - 1] = None;
    assert(table@ =~= with_slot(old(table)@, handle, None));
    0
}

/// Releases the semaphore that `handle` names. Returns the error number
/// and the task to wake, if there is one.
pub fn sys_sem_post(table: &mut SemaphoreTable, handle: usize) -> (result: (i32, Option<TaskId>))
    requires
        old(table).wf(),
        lookup(old(table)@, handle) matches Some(sem) ==> (sem.queue.len() == 0 ==> sem.count
            < isize::MAX),
    ensures
        final(table).wf(),
        result.0 == 0 <==> lookup(old(table)@, handle).is_some(),
        result.0 != 0 ==> result.0 == -EINVAL && result.1.is_none() && final(table)@ == old(table)@,
        lookup(old(table)@, handle) matches Some(sem) ==> {
            &&& result.1 == sem.next_woken()
            &&& final(table)@ == with_slot(old(table)@, handle, Some(sem.release()))
        },
{
    if handle == 0 || handle > table.slots.len() {
        return (-EINVAL, None);
    }
    assert(table@[handle - 1] == slot_view(table.slots@[handle - 1]));
    let result = match &mut table.slots[handle - 1] {
        None => (-EINVAL, None),
        Some(sem) => {
            let woken = sem.release();
            (0, woken)
        },
    };
    proof {
        match lookup(old(table)@, handle) {
            Some(before) => {
                assert(table@ =~= with_slot(old(table)@, handle, Some(before.release())));
            },
            None => {
                assert(table@ =~= old(table)@);
            },
        }
        assert forall|i: int| 0 <= i < table@.len() implies (#[trigger] table@[i] matches Some(s)
            ==> s.wf() && s.count <= isize::MAX) by {
            if i != handle - 1 {
                assert(table@[i] == old(table)@[i]);
            }
        }
    }
    result
}

/// Takes a unit of the semaphore that `handle` names if one is there.
/// Fails with `-ECANCELED` if none is; the caller is never queued.
pub fn sys_sem_trywait(table: &mut SemaphoreTable, handle: usize) -> (code: i32)
    requires
        old(table).wf(),
    ensures
        final(table).wf(),
        lookup(old(table)@, handle).is_none() ==> code == -EINVAL && final(table)@ == old(table)@,
        lookup(old(table)@, handle) matches Some(sem) ==> {
            &&& code == if sem.count > 0 {
                0
            } else {
                -ECANCELED
            }
            &&& final(table)@ == with_slot(old(table)@, handle, Some(sem.take()))
        },
{
    if handle == 0 || handle > table.slots.len() {
        return -EINVAL;
    }
    assert(table@[handle - 1] == slot_view(table.slots@[handle - 1]));
    let code = match &mut table.slots[handle - 1] {
        None => -EINVAL,
        Some(sem) => {
            if sem.try_acquire() {
                0
            } else {
                -ECANCELED
            }
        },
    };
    proof {
        match lookup(old(table)@, handle) {
            Some(before) => {
                assert(table@ =~= with_slot(old(table)@, handle, Some(before.take())));
            },
            None => {
                assert(table@ =~= old(table)@);
            },
        }
        assert forall|i: int| 0 <= i < table@.len() implies (#[trigger] table@[i] matches Some(s)
            ==> s.wf() && s.count <= isize::MAX) by {
            if i != handle - 1 {
                assert(table@[i] == old(table)@[i]);
            }
        }
    }
    code
}

/// The time for which a wait of `ms` milliseconds may last: zero stands for
/// a wait without limit.
pub open spec fn wait_limit(ms: u32) -> Option<u64> {
    if ms > 0 {
        Some(ms as u64)
    } else {
        None
    }
}

/// Waits on the semaphore that `handle` names, for at most `ms`
/// milliseconds, or without limit if `ms` is zero. With a unit at hand the
/// call is over at once; otherwise `task` is queued and must be suspended.
/// The core of the task must be outside critical sections and handlers.
pub fn sys_sem_timedwait(
    table: &mut SemaphoreTable,
    ctx: &CoreContext,
    handle: usize,
    ms: u32,
    task: TaskId,
) -> (wait: SysWait)
    requires
        old(table).wf(),
        ctx@.may_suspend(),
        lookup(old(table)@, handle) matches Some(sem) ==> !sem.is_waiting(task),
    ensures
        final(table).wf(),
        lookup(old(table)@, handle).is_none() ==> {
            &&& wait == SysWait::Done((-EINVAL) as i32)
            &&& final(table)@ == old(table)@
        },
        lookup(old(table)@, handle) matches Some(sem) ==> {
            &&& wait == if sem.count > 0 {
                SysWait::Done(0)
            } else {
                SysWait::Blocked { timeout: wait_limit(ms) }
            }
            &&& final(table)@ == with_slot(old(table)@, handle, Some(sem.acquire(task)))
        },
{
    if handle == 0 || handle > table.slots.len() {
        return SysWait::Done(-EINVAL);
    }
    let delay = if ms > 0 {
        Some(ms as u64)
    } else {
        None
    };
    assert(table@[handle - 1] == slot_view(table.slots@[handle - 1]));
    let wait = match &mut table.slots[handle - 1] {
        None => SysWait::Done(-EINVAL),
        Some(sem) => {
            match sem.acquire(ctx, task, delay) {
                AcquireStep::Acquired => SysWait::Done(0),
                AcquireStep::Suspended { timeout } => SysWait::Blocked { timeout },
            }
        },
    };
    proof {
        match lookup(old(table)@, handle) {
            Some(before) => {
                assert(table@ =~= with_slot(old(table)@, handle, Some(before.acquire(task))));
            },
            None => {
                assert(table@ =~= old(table)@);
            },
        }
        assert forall|i: int| 0 <= i < table@.len() implies (#[trigger] table@[i] matches Some(s)
            ==> s.wf() && s.count <= isize::MAX) by {
            if i != handle - 1 {
                assert(table@[i] == old(table)@[i]);
            }
        }
    }
    wait
}

/// The same as `sys_sem_timedwait`.
pub fn sys_sem_cancelablewait(
    table: &mut SemaphoreTable,
    ctx: &CoreContext,
    handle: usize,
    ms: u32,
    task: TaskId,
) -> (wait: SysWait)
    requires
        old(table).wf(),
        ctx@.may_suspend(),
        lookup(old(table)@, handle) matches Some(sem) ==> !sem.is_waiting(task),
    ensures
        final(table).wf(),
        lookup(old(table)@, handle).is_none() ==> {
            &&& wait == SysWait::Done((-EINVAL) as i32)
            &&& final(table)@ == old(table)@
        },
        lookup(old(table)@, handle) matches Some(sem) ==> {
            &&& wait == if sem.count > 0 {
                SysWait::Done(0)
            } else {
                SysWait::Blocked { timeout: wait_limit(ms) }
            }
            &&& final(table)@ == with_slot(old(table)@, handle, Some(sem.acquire(task)))
        },
{
    sys_sem_timedwait(table, ctx, handle, ms, task)
}

/// Ends the wait of `task` on the semaphore that `handle` names because
/// its time is up, and returns what the wait returns: `-ETIME` if the task
/// was still queued, which it no longer is, and zero if a post had woken
/// it before.
pub fn sys_sem_timeout(table: &mut SemaphoreTable, handle: usize, task: TaskId) -> (code: i32)
    requires
        old(table).wf(),
    ensures
        final(table).wf(),
        lookup(old(table)@, handle).is_none() ==> code == -EINVAL && final(table)@ == old(table)@,
        lookup(old(table)@, handle) matches Some(sem) ==> {
            &&& code == if sem.is_waiting(task) {
                -ETIME
            } else {
                0
            }
            &&& final(table)@ == with_slot(old(table)@, handle, Some(sem.cancel_wait(task)))
        },
{
    if handle == 0 || handle > table.slots.len() {
        return -EINVAL;
    }
    assert(table@[handle - 1] == slot_view(table.slots@[handle - 1]));
    let code = match &mut table.slots[handle - 1] {
        None => -EINVAL,
        Some(sem) => {
            if sem.cancel_wait(task) {
                -ETIME
            } else {
                0
            }
        },
    };
    proof {
        match lookup(old(table)@, handle) {
            Some(before) => {
                assert(table@ =~= with_slot(old(table)@, handle, Some(before.cancel_wait(task))));
            },
            None => {
                assert(table@ =~= old(table)@);
            },
        }
        assert forall|i: int| 0 <= i < table@.len() implies (#[trigger] table@[i] matches Some(s)
            ==> s.wf() && s.count <= isize::MAX) by {
            if i != handle - 1 {
                assert(table@[i] == old(table)@[i]);
            }
        }
    }
    code
}

} // verus!
