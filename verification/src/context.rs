//! The execution context of a core: its interrupt flag, the interrupt-safe
//! locks it holds, and whether it is handling an interrupt.
//!
//! The context decides what a piece of code may do. Code that holds an
//! interrupt-safe lock or handles an interrupt must not suspend the task
//! it runs in, so the calls that may suspend ask for a context that allows
//! it.

use vstd::prelude::*;
use crate::irq::InterruptFlag;

verus! {

/// The mathematical state of a core's context.
pub struct CoreContextView {
    /// Whether interrupts are enabled on the core.
    pub enabled: bool,
    /// The interrupt state that the outermost lock found.
    pub saved: bool,
    /// How many interrupt-safe locks the core holds or is waiting for.
    pub depth: nat,
    /// Whether the core is handling an interrupt.
    pub in_interrupt: bool,
}

impl CoreContextView {
    /// While the core holds a lock or handles an interrupt, its interrupts
    /// are off, and a lock taken inside a handler has found them off.
    pub open spec fn wf(self) -> bool {
        &&& self.depth > 0 || self.in_interrupt ==> !self.enabled
        &&& self.depth > 0 && self.in_interrupt ==> !self.saved
    }

    /// Whether the task that runs on the core may be suspended: not inside
    /// a critical section and not inside an interrupt handler.
    pub open spec fn may_suspend(self) -> bool {
        self.depth == 0 && !self.in_interrupt
    }

    /// The core starts to take a lock.
    pub open spec fn enter(self) -> CoreContextView {
        CoreContextView {
            enabled: false,
            saved: if self.depth == 0 {
                self.enabled
            } else {
                self.saved
            },
            depth: self.depth + 1,
            ..self
        }
    }

    /// The core has given a lock back.
    pub open spec fn leave(self) -> CoreContextView {
        CoreContextView {
            enabled: if self.depth == 1 {
                self.enabled || self.saved
            } else {
                self.enabled
            },
            depth: (self.depth - 1) as nat,
            ..self
        }
    }

    /// The core after it has started to take `n` locks.
    pub open spec fn enter_n(self, n: nat) -> CoreContextView
        decreases n,
    {
        if n == 0 {
            self
        } else {
            self.enter_n((n - 1) as nat).enter()
        }
    }

    /// The core after it has given `n` locks back.
    pub open spec fn leave_n(self, n: nat) -> CoreContextView
        decreases n,
    {
        if n == 0 {
            self
        } else {
            self.leave_n((n - 1) as nat).leave()
        }
    }
}

/// What one core knows about its own state of execution.
pub struct CoreContext {
    flag: InterruptFlag,
    saved: bool,
    depth: usize,
    in_interrupt: bool,
}

impl View for CoreContext {
    type V = CoreContextView;

    closed spec fn view(&self) -> CoreContextView {
        CoreContextView {
            enabled: self.flag@,
            saved: self.saved,
            depth: self.depth as nat,
            in_interrupt: self.in_interrupt,
        }
    }
}

impl CoreContext {
    /// Holds of every context that this module hands out.
    pub open spec fn wf(&self) -> bool {
        self@.wf() && self@.depth <= usize::MAX
    }

    /// The context of a core that holds no lock and handles no interrupt.
    pub fn new(flag: InterruptFlag) -> (ctx: CoreContext)
        ensures
            ctx.wf(),
            ctx@ == (CoreContextView {
                enabled: flag@,
                saved: false,
                depth: 0,
                in_interrupt: false,
            }),
            ctx@.may_suspend(),
    {
        CoreContext { flag, saved: false, depth: 0, in_interrupt: false }
    }

    /// Whether interrupts are enabled on the core.
    pub fn interrupts_enabled(&self) -> (enabled: bool)
        ensures
            enabled == self@.enabled,
    {
        self.flag.is_enabled()
    }

    /// The number of interrupt-safe locks that the core holds or is waiting for.
    pub fn depth(&self) -> (depth: usize)
        ensures
            depth == self@.depth,
    {
        self.depth
    }

    /// Whether the core is handling an interrupt.
    pub fn in_interrupt(&self) -> (in_interrupt: bool)
        ensures
            in_interrupt == self@.in_interrupt,
    {
        self.in_interrupt
    }

    /// Whether the task that runs on the core may be suspended.
    pub fn may_suspend(&self) -> (allowed: bool)
        ensures
            allowed == self@.may_suspend(),
    {
        self.depth == 0 && !self.in_interrupt
    }

    /// Switches interrupts off for a lock that the core is about to take.
    /// The state they were in is kept only if this is the outermost lock.
    pub fn enter(&mut self)
        requires
            old(self).wf(),
            old(self)@.depth < usize::MAX,
        ensures
            final(self).wf(),
            final(self)@ == old(self)@.enter(),
    {
        let was_enabled = self.flag.nested_disable();
        if self.depth == 0 {
            self.saved = was_enabled;
        }
        self.depth += 1;
    }

    /// Counts one lock less, and restores the saved interrupt state if that
    /// was the outermost one.
    pub fn leave(&mut self)
        requires
            old(self).wf(),
            old(self)@.depth > 0,
        ensures
            final(self).wf(),
            final(self)@ == old(self)@.leave(),
    {
        self.depth -= 1;
        if self.depth == 0 {
            self.flag.nested_enable(self.saved);
        }
    }

    /// The core takes an interrupt, which it can only do while interrupts
    /// are on: they go off for the time of the handler.
    pub fn enter_interrupt(&mut self)
        requires
            old(self).wf(),
            old(self)@.enabled,
        ensures
            final(self).wf(),
            final(self)@ == (CoreContextView { enabled: false, in_interrupt: true, ..old(self)@ }),
            !final(self)@.may_suspend(),
    {
        self.flag.disable();
        self.in_interrupt = true;
    }

    /// The core returns from the handler to what it interrupted, with
    /// interrupts on again.
    pub fn leave_interrupt(&mut self)
        requires
            old(self).wf(),
            old(self)@.in_interrupt,
            old(self)@.depth == 0,
        ensures
            final(self).wf(),
            final(self)@ == (CoreContextView { enabled: true, in_interrupt: false, ..old(self)@ }),
            final(self)@.may_suspend(),
    {
        self.flag.enable();
        self.in_interrupt = false;
    }
}

/// Taking `n` locks from outside any critical section saves the interrupt
/// state once and leaves interrupts off.
pub proof fn lemma_enter_n(v: CoreContextView, n: nat)
    requires
        v.depth == 0,
        n > 0,
    ensures
        v.enter_n(n) == (CoreContextView { enabled: false, saved: v.enabled, depth: n, ..v }),
    decreases n,
{
    if n > 1 {
        lemma_enter_n(v, (n - 1) as nat);
    } else {
        assert(v.enter_n(0) == v);
    }
}

/// Interrupts stay off from the outermost lock to the outermost unlock, and
/// the state that the outermost lock found comes back exactly then.
pub proof fn lemma_nested_sections(v: CoreContextView, n: nat, k: nat)
    requires
        v.depth == 0,
        n > 0,
        k <= n,
    ensures
        v.enter_n(n).leave_n(k).depth == n - k,
        k < n ==> !v.enter_n(n).leave_n(k).enabled,
        k == n ==> v.enter_n(n).leave_n(k).enabled == v.enabled,
        v.enter_n(n).leave_n(k).saved == v.enabled,
        v.enter_n(n).leave_n(k).in_interrupt == v.in_interrupt,
    decreases k,
{
    lemma_enter_n(v, n);
    if k > 0 {
        lemma_nested_sections(v, n, (k - 1) as nat);
    }
}

} // verus!
