use unikernel_core::irq::InterruptFlag;
use unikernel_core::context::CoreContext;
use unikernel_core::syscalls::{
    sys_sem_cancelablewait, sys_sem_destroy, sys_sem_init, sys_sem_post, sys_sem_timedwait,
    sys_sem_timeout, sys_sem_trywait, SemaphoreTable, SysWait, ECANCELED, EINVAL, ETIME,
};

fn unlocked() -> CoreContext {
    CoreContext::new(InterruptFlag::new(true))
}

#[test]
fn error_numbers_are_the_usual_ones() {
    assert_eq!(EINVAL, 22);
    assert_eq!(ETIME, 62);
    assert_eq!(ECANCELED, 125);
}

#[test]
fn sem_init_without_a_place_for_the_handle_is_invalid() {
    let mut table = SemaphoreTable::new();
    assert_eq!(sys_sem_init(&mut table, None, 1), -22);
    assert_eq!(table.handles(), 0);
}

#[test]
fn sem_init_gives_out_handles_that_are_not_null() {
    let mut table = SemaphoreTable::new();
    let mut first = 0usize;
    let mut second = 0usize;
    assert_eq!(sys_sem_init(&mut table, Some(&mut first), 3), 0);
    assert_eq!(sys_sem_init(&mut table, Some(&mut second), 0), 0);
    assert_eq!(first, 1);
    assert_eq!(second, 2);
    assert_eq!(table.count(first), Some(3));
    assert_eq!(table.count(second), Some(0));
    assert_eq!(table.count(0), None);
}

#[test]
fn calls_on_the_null_handle_are_invalid() {
    let mut table = SemaphoreTable::new();
    let mut handle = 0usize;
    assert_eq!(sys_sem_init(&mut table, Some(&mut handle), 1), 0);
    assert_eq!(sys_sem_destroy(&mut table, 0), -EINVAL);
    assert_eq!(sys_sem_post(&mut table, 0), (-EINVAL, None));
    assert_eq!(sys_sem_trywait(&mut table, 0), -EINVAL);
    assert_eq!(sys_sem_timedwait(&mut table, &unlocked(), 0, 10, 1), SysWait::Done(-EINVAL));
    assert_eq!(sys_sem_cancelablewait(&mut table, &unlocked(), 0, 10, 1), SysWait::Done(-EINVAL));
    assert_eq!(sys_sem_timeout(&mut table, 0, 1), -EINVAL);
    assert_eq!(table.count(handle), Some(1));
}

#[test]
fn calls_on_a_destroyed_handle_are_invalid() {
    let mut table = SemaphoreTable::new();
    let mut handle = 0usize;
    sys_sem_init(&mut table, Some(&mut handle), 1);
    assert_eq!(sys_sem_destroy(&mut table, handle), 0);
    assert_eq!(sys_sem_destroy(&mut table, handle), -EINVAL);
    assert_eq!(sys_sem_post(&mut table, handle), (-EINVAL, None));
    assert_eq!(sys_sem_trywait(&mut table, handle), -EINVAL);
    assert_eq!(sys_sem_trywait(&mut table, 17), -EINVAL);
}

#[test]
fn trywait_without_a_unit_is_cancelled() {
    let mut table = SemaphoreTable::new();
    let mut handle = 0usize;
    sys_sem_init(&mut table, Some(&mut handle), 1);
    assert_eq!(sys_sem_trywait(&mut table, handle), 0);
    assert_eq!(sys_sem_trywait(&mut table, handle), -125);
    assert_eq!(sys_sem_post(&mut table, handle), (0, None));
    assert_eq!(sys_sem_trywait(&mut table, handle), 0);
}

#[test]
fn timedwait_that_nobody_posts_times_out() {
    let mut table = SemaphoreTable::new();
    let mut handle = 0usize;
    sys_sem_init(&mut table, Some(&mut handle), 0);
    assert_eq!(
        sys_sem_timedwait(&mut table, &unlocked(), handle, 50, 8),
        SysWait::Blocked { timeout: Some(50) }
    );
    assert!(table.is_waiting(handle, 8));
    assert!(!table.is_waiting(handle, 9));
    assert!(!table.is_waiting(0, 8));
    assert_eq!(sys_sem_timeout(&mut table, handle, 8), -62);
    assert!(!table.is_waiting(handle, 8));
    assert_eq!(table.count(handle), Some(0));
}

#[test]
fn timedwait_of_zero_milliseconds_waits_without_limit() {
    let mut table = SemaphoreTable::new();
    let mut handle = 0usize;
    sys_sem_init(&mut table, Some(&mut handle), 0);
    assert_eq!(
        sys_sem_timedwait(&mut table, &unlocked(), handle, 0, 8),
        SysWait::Blocked { timeout: None }
    );
    assert_eq!(sys_sem_post(&mut table, handle), (0, Some(8)));
    assert_eq!(sys_sem_timeout(&mut table, handle, 8), 0);
}

#[test]
fn cancelablewait_is_timedwait() {
    let mut table = SemaphoreTable::new();
    let mut handle = 0usize;
    sys_sem_init(&mut table, Some(&mut handle), 1);
    assert_eq!(sys_sem_cancelablewait(&mut table, &unlocked(), handle, 5, 2), SysWait::Done(0));
    assert_eq!(
        sys_sem_cancelablewait(&mut table, &unlocked(), handle, 5, 2),
        SysWait::Blocked { timeout: Some(5) }
    );
    assert_eq!(sys_sem_post(&mut table, handle), (0, Some(2)));
}
