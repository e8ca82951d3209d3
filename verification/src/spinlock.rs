//! A spinlock that keeps interrupts off on the core that holds it.
//!
//! The lock itself is the exclusion flag that all cores share. What a core
//! remembers about the locks it holds stands in its `CoreContext`. Busy
//! waiting is the caller's loop: `lock` makes the first attempt on the flag
//! and `spin` every further one.

use vstd::prelude::*;
use crate::context::CoreContext;

verus! {

/// The exclusion flag of an interrupt-safe spinlock.
pub struct SpinlockIrqSave {
    locked: bool,
}

impl View for SpinlockIrqSave {
    type V = bool;

    /// Whether the lock is held.
    closed spec fn view(&self) -> bool {
        self.locked
    }
}

impl SpinlockIrqSave {
    /// A lock that nobody holds.
    pub fn new() -> (lock: SpinlockIrqSave)
        ensures
            !lock@,
    {
        SpinlockIrqSave { locked: false }
    }

    /// Whether the lock is held.
    pub fn is_locked(&self) -> (locked: bool)
        ensures
            locked == self@,
    {
        self.locked
    }

    /// One compare-and-exchange on the flag: it is taken if it was free.
    pub fn spin(&mut self) -> (acquired: bool)
        ensures
            acquired == !old(self)@,
            final(self)@,
    {
        if self.locked {
            false
        } else {
            self.locked = true;
            true
        }
    }

    /// Records the core's interrupt state, switches interrupts off and makes
    /// the first attempt on the flag. On `false` the lock is held elsewhere:
    /// the caller repeats `spin` until it returns `true`, with interrupts
    /// still off.
    pub fn lock(&mut self, ctx: &mut CoreContext) -> (acquired: bool)
        requires
            old(ctx).wf(),
            old(ctx)@.depth < usize::MAX,
        ensures
            final(ctx).wf(),
            final(ctx)@ == old(ctx)@.enter(),
            !final(ctx)@.enabled,
            !final(ctx)@.may_suspend(),
            acquired == !old(self)@,
            final(self)@,
    {
        ctx.enter();
        self.spin()
    }

    /// Frees the flag, and restores the interrupt state that the core's
    /// outermost `lock` found if this was its outermost lock.
    pub fn unlock(&mut self, ctx: &mut CoreContext)
        requires
            old(self)@,
            old(ctx).wf(),
            old(ctx)@.depth > 0,
        ensures
            !final(self)@,
            final(ctx).wf(),
            final(ctx)@ == old(ctx)@.leave(),
    {
        self.locked = false;
        ctx.leave();
    }
}

} // verus!
