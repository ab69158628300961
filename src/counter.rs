//! The counter shared between the foreground loop and the interrupt handler.
use vstd::prelude::*;

verus! {

/// The number of distinct values a counter can hold.
pub open spec fn counter_modulus() -> int {
    0x1_0000_0000
}

/// The value after one increment: one more, wrapping to zero past the top.
pub open spec fn wrapping_succ(v: u32) -> u32 {
    if v == u32::MAX {
        0
    } else {
        (v + 1) as u32
    }
}

/// The value after `n` increments from `v`.
pub open spec fn succ_n(v: u32, n: nat) -> u32
    decreases n,
{
    if n == 0 {
        v
    } else {
        wrapping_succ(succ_n(v, (n - 1) as nat))
    }
}

/// A counter of type `u32` that wraps silently on overflow.
#[derive(Clone, Copy, Debug, PartialEq, Eq, Structural)]
pub struct SharedCounter {
    pub value: u32,
}

impl SharedCounter {
    /// A counter holding `initial`.
    pub fn new(initial: u32) -> (r: SharedCounter)
        ensures
            r.value == initial,
    {
        SharedCounter { value: initial }
    }

    /// Adds one, wrapping to zero past `u32::MAX`.
    pub fn increment(&mut self)
        ensures
            final(self).value == wrapping_succ(old(self).value),
    {
        self.value = self.value.wrapping_add(1);
    }

    /// The value last written.
    pub fn read(&self) -> (r: u32)
        ensures
            r == self.value,
    {
        self.value
    }
}

/// `n` increments from `v` land on `v + n`, reduced modulo the counter's range.
pub proof fn lemma_increments_wrap(v: u32, n: nat)
    ensures
        succ_n(v, n) as int == (v as int + n) % counter_modulus(),
    decreases n,
{
    if n > 0 {
        lemma_increments_wrap(v, (n - 1) as nat);
        let p = (v as int + (n - 1)) % counter_modulus();
        assert((v as int + n) % counter_modulus() == (p + 1) % counter_modulus()) by {
            vstd::arithmetic::div_mod::lemma_add_mod_noop(v as int + (n - 1), 1, counter_modulus());
        }
    }
}

/// Incrementing the largest value gives zero.
pub proof fn lemma_increment_at_max_wraps_to_zero()
    ensures
        wrapping_succ(u32::MAX) == 0,
        (u32::MAX as int + 1) % counter_modulus() == 0,
{
}

} // verus!
