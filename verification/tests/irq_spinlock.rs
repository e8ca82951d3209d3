use unikernel_core::irq::{sys_irq_disable, sys_irq_enable, InterruptFlag};
use unikernel_core::context::CoreContext;
use unikernel_core::spinlock::SpinlockIrqSave;

#[test]
fn irq_enable_turns_interrupts_on() {
    let mut flag = InterruptFlag::new(false);
    sys_irq_enable(&mut flag);
    assert!(flag.is_enabled());
    sys_irq_enable(&mut flag);
    assert!(flag.is_enabled());
}

#[test]
fn irq_disable_returns_the_state_before() {
    let mut flag = InterruptFlag::new(true);
    assert!(sys_irq_disable(&mut flag));
    assert!(!flag.is_enabled());
    assert!(!sys_irq_disable(&mut flag));
    assert!(!flag.is_enabled());
}

#[test]
fn nested_disables_restore_only_at_the_last_restore() {
    let mut flag = InterruptFlag::new(true);
    let mut saved = Vec::new();
    for _ in 0..5 {
        saved.push(flag.nested_disable());
        assert!(!flag.is_enabled());
    }
    assert_eq!(saved, vec![true, false, false, false, false]);
    for _ in 0..4 {
        flag.nested_enable(saved.pop().unwrap());
        assert!(!flag.is_enabled());
    }
    flag.nested_enable(saved.pop().unwrap());
    assert!(flag.is_enabled());
}

#[test]
fn nested_disables_keep_interrupts_off_if_they_were_off() {
    let mut flag = InterruptFlag::new(false);
    let outer = flag.nested_disable();
    let inner = flag.nested_disable();
    flag.nested_enable(inner);
    flag.nested_enable(outer);
    assert!(!flag.is_enabled());
}

#[test]
fn spinlock_keeps_interrupts_off_while_held() {
    let mut ctx = CoreContext::new(InterruptFlag::new(true));
    let mut lock = SpinlockIrqSave::new();
    assert!(lock.lock(&mut ctx));
    assert!(lock.is_locked());
    assert!(!ctx.interrupts_enabled());
    assert_eq!(ctx.depth(), 1);
    lock.unlock(&mut ctx);
    assert!(!lock.is_locked());
    assert!(ctx.interrupts_enabled());
    assert_eq!(ctx.depth(), 0);
}

#[test]
fn nested_spinlocks_restore_at_the_outermost_unlock() {
    let mut ctx = CoreContext::new(InterruptFlag::new(true));
    let mut outer = SpinlockIrqSave::new();
    let mut inner = SpinlockIrqSave::new();
    assert!(outer.lock(&mut ctx));
    assert!(inner.lock(&mut ctx));
    assert_eq!(ctx.depth(), 2);
    inner.unlock(&mut ctx);
    assert!(!ctx.interrupts_enabled());
    outer.unlock(&mut ctx);
    assert!(ctx.interrupts_enabled());
}

#[test]
fn spinlock_held_elsewhere_is_taken_by_a_later_spin() {
    let mut holder = CoreContext::new(InterruptFlag::new(true));
    let mut waiter = CoreContext::new(InterruptFlag::new(false));
    let mut lock = SpinlockIrqSave::new();
    assert!(lock.lock(&mut holder));
    assert!(!lock.lock(&mut waiter));
    assert!(!lock.spin());
    assert!(!waiter.interrupts_enabled());
    lock.unlock(&mut holder);
    assert!(holder.interrupts_enabled());
    assert!(lock.spin());
    lock.unlock(&mut waiter);
    assert!(!waiter.interrupts_enabled());
}

#[test]
fn context_outside_locks_and_handlers_may_suspend() {
    let ctx = CoreContext::new(InterruptFlag::new(false));
    assert_eq!(ctx.depth(), 0);
    assert!(!ctx.in_interrupt());
    assert!(!ctx.interrupts_enabled());
    assert!(ctx.may_suspend());
}

#[test]
fn nothing_may_suspend_under_a_lock() {
    let mut ctx = CoreContext::new(InterruptFlag::new(true));
    let mut lock = SpinlockIrqSave::new();
    lock.lock(&mut ctx);
    assert!(!ctx.may_suspend());
    lock.unlock(&mut ctx);
    assert!(ctx.may_suspend());
}

#[test]
fn nothing_may_suspend_in_an_interrupt_handler() {
    let mut ctx = CoreContext::new(InterruptFlag::new(true));
    ctx.enter_interrupt();
    assert!(ctx.in_interrupt());
    assert!(!ctx.interrupts_enabled());
    assert!(!ctx.may_suspend());
    let mut lock = SpinlockIrqSave::new();
    assert!(lock.lock(&mut ctx));
    lock.unlock(&mut ctx);
    assert!(!ctx.interrupts_enabled());
    assert!(!ctx.may_suspend());
    ctx.leave_interrupt();
    assert!(ctx.interrupts_enabled());
    assert!(ctx.may_suspend());
}
