//! The global interrupt-enable bit and the critical sections built on it.
use vstd::prelude::*;

verus! {

/// The processor's global enable for maskable interrupts.
#[derive(Clone, Copy, Debug, PartialEq, Eq, Structural)]
pub struct InterruptMask {
    pub enabled: bool,
}

/// The mask after entering a critical section: interrupts are off.
pub open spec fn entered(m: InterruptMask) -> InterruptMask {
    InterruptMask { enabled: false }
}

/// The mask after leaving a critical section that saved `prior` on entry.
pub open spec fn exited(m: InterruptMask, prior: bool) -> InterruptMask {
    InterruptMask { enabled: prior }
}

impl InterruptMask {
    /// The state at reset: interrupts are off.
    pub fn new() -> (r: InterruptMask)
        ensures
            !r.enabled,
    {
        InterruptMask { enabled: false }
    }

    /// Turns interrupt delivery on.
    pub fn enable(&mut self)
        ensures
            final(self).enabled,
    {
        self.enabled = true;
    }

    /// Enters a critical section: interrupts go off, and the state they were
    /// in is returned so that leaving can put it back.
    pub fn enter(&mut self) -> (prior: bool)
        ensures
            prior == old(self).enabled,
            *final(self) == entered(*old(self)),
    {
        let prior = self.enabled;
        self.enabled = false;
        prior
    }

    /// Leaves a critical section, restoring the state saved on entry.
    pub fn exit(&mut self, prior: bool)
        ensures
            *final(self) == exited(*old(self), prior),
    {
        self.enabled = prior;
    }
}

/// Two nested critical sections: leaving the inner one keeps interrupts off,
/// and leaving the outer one restores exactly the state from before both.
pub proof fn lemma_nested_sections_restore(m: InterruptMask)
    ensures
        !entered(m).enabled,
        !entered(entered(m)).enabled,
        !exited(entered(entered(m)), entered(m).enabled).enabled,
        exited(exited(entered(entered(m)), entered(m).enabled), m.enabled) == m,
{
}

} // verus!
