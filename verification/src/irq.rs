//! The interrupt-enable flag of one core and the calls that switch it.

use vstd::prelude::*;

verus! {

/// The interrupt-enable flag of one core.
#[derive(Clone, Copy, Debug)]
pub struct InterruptFlag {
    enabled: bool,
}

impl View for InterruptFlag {
    type V = bool;

    /// Whether interrupts are enabled.
    closed spec fn view(&self) -> bool {
        self.enabled
    }
}

/// The flag after a saved state is restored: a saved "enabled" switches
/// interrupts on, a saved "disabled" leaves the flag alone.
pub open spec fn restored(enabled: bool, was_enabled: bool) -> bool {
    enabled || was_enabled
}

impl InterruptFlag {
    /// A flag in the given state.
    pub fn new(enabled: bool) -> (flag: InterruptFlag)
        ensures
            flag@ == enabled,
    {
        InterruptFlag { enabled }
    }

    /// Whether interrupts are enabled.
    pub fn is_enabled(&self) -> (enabled: bool)
        ensures
            enabled == self@,
    {
        self.enabled
    }

    /// Switches interrupts on, whatever the flag was.
    pub fn enable(&mut self)
        ensures
            final(self)@,
    {
        self.enabled = true;
    }

    /// Switches interrupts off, whatever the flag was.
    pub fn disable(&mut self)
        ensures
            !final(self)@,
    {
        self.enabled = false;
    }

    /// Switches interrupts off and returns whether they were on, so that the
    /// caller can restore exactly that state with `nested_enable`.
    pub fn nested_disable(&mut self) -> (was_enabled: bool)
        ensures
            was_enabled == old(self)@,
            !final(self)@,
    {
        let was_enabled = self.enabled;
        self.enabled = false;
        was_enabled
    }

    /// Restores the state that a matching `nested_disable` returned.
    pub fn nested_enable(&mut self, was_enabled: bool)
        ensures
            final(self)@ == restored(old(self)@, was_enabled),
    {
        if was_enabled {
            self.enabled = true;
        }
    }
}

/// Turns interrupts on unconditionally.
pub fn sys_irq_enable(flag: &mut InterruptFlag)
    ensures
        final(flag)@,
{
    flag.enable();
}

/// Turns interrupts off and returns whether they were on before.
pub fn sys_irq_disable(flag: &mut InterruptFlag) -> (was_enabled: bool)
    ensures
        was_enabled == old(flag)@,
        !final(flag)@,
{
    flag.nested_disable()
}

/// The states that `n` nested disables save, outermost first.
pub open spec fn saved_states(enabled: bool, n: nat) -> Seq<bool>
    decreases n,
{
    if n == 0 {
        Seq::empty()
    } else {
        saved_states(enabled, (n - 1) as nat).push(flag_after_disables(enabled, (n - 1) as nat))
    }
}

/// The flag after `n` nested disables.
pub open spec fn flag_after_disables(enabled: bool, n: nat) -> bool {
    if n == 0 {
        enabled
    } else {
        false
    }
}

/// The flag after the innermost `k` of the saved states have been restored,
/// innermost first.
pub open spec fn flag_after_restores(enabled: bool, saved: Seq<bool>, k: nat) -> bool
    decreases k,
{
    if k == 0 || saved.len() == 0 {
        enabled
    } else {
        flag_after_restores(restored(enabled, saved.last()), saved.drop_last(), (k - 1) as nat)
    }
}

/// Only the outermost disable can have saved "enabled".
pub proof fn lemma_saved_states(enabled: bool, n: nat)
    ensures
        saved_states(enabled, n).len() == n,
        n > 0 ==> saved_states(enabled, n)[0] == enabled,
        forall|i: int| 1 <= i < n ==> !#[trigger] saved_states(enabled, n)[i],
    decreases n,
{
    if n > 0 {
        lemma_saved_states(enabled, (n - 1) as nat);
    }
}

/// Restoring saved states of which only the outermost may be "enabled"
/// keeps interrupts off until the outermost one is restored.
pub proof fn lemma_restores(saved: Seq<bool>, k: nat)
    requires
        forall|i: int| 1 <= i < saved.len() ==> !#[trigger] saved[i],
    ensures
        flag_after_restores(false, saved, k) == (k >= saved.len() && saved.len() > 0 && saved[0]),
    decreases k,
{
    if k > 0 && saved.len() > 0 {
        let rest = saved.drop_last();
        if saved.len() == 1 {
            assert(rest.len() == 0);
            if k - 1 > 0 {
                assert(flag_after_restores(saved.last(), rest, (k - 1) as nat) == saved.last());
            }
        } else {
            assert(!saved[saved.len() - 1]);
            assert(rest[0] == saved[0]);
            lemma_restores(rest, (k - 1) as nat);
        }
    }
}

/// After `n` nested disables on one core, each followed later by its
/// matching restore, interrupts stay off until the last restore and are
/// then in the state in which the first disable found them.
pub proof fn lemma_nested_disable_restore(enabled: bool, n: nat, k: nat)
    requires
        n > 0,
        k <= n,
    ensures
        k < n ==> !flag_after_restores(
            flag_after_disables(enabled, n),
            saved_states(enabled, n),
            k,
        ),
        k == n ==> flag_after_restores(
            flag_after_disables(enabled, n),
            saved_states(enabled, n),
            k,
        ) == enabled,
{
    lemma_saved_states(enabled, n);
    lemma_restores(saved_states(enabled, n), k);
}

} // verus!
