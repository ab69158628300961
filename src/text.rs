//! Decimal rendering of the counter into a bounded text buffer.
use vstd::prelude::*;

verus! {

/// Bytes of room in the buffer the counter is formatted into: more than the
/// ten digits of `u32::MAX`, so formatting never runs out of space.
pub const TEXT_CAPACITY: usize = 32;

/// The character for a digit below ten.
pub open spec fn digit_char(d: nat) -> char {
    if d == 0 { '0' }
    else if d == 1 { '1' }
    else if d == 2 { '2' }
    else if d == 3 { '3' }
    else if d == 4 { '4' }
    else if d == 5 { '5' }
    else if d == 6 { '6' }
    else if d == 7 { '7' }
    else if d == 8 { '8' }
    else { '9' }
}

/// The decimal digits of `n`, most significant first, without leading zeros.
pub open spec fn decimal(n: nat) -> Seq<char>
    decreases n,
{
    if n < 10 {
        seq![digit_char(n)]
    } else {
        decimal(n / 10).push(digit_char(n % 10))
    }
}

/// Relies on heapless 0.7's `From<u32>` for `heapless::String<N>`, which
/// writes the value with `{}`: its decimal digits. With `TEXT_CAPACITY` bytes
/// the write cannot fail, so the call does not panic.
#[verifier::external_body]
fn heapless_decimal(n: u32) -> (r: String)
    ensures
        r@ == decimal(n as nat),
{
    let text = heapless::String::<TEXT_CAPACITY>::from(n);
    String::from(text.as_str())
}

/// The counter value as the text shown on the display.
pub fn format_counter(n: u32) -> (r: String)
    ensures
        r@ == decimal(n as nat),
        r@.len() <= 10,
{
    proof {
        lemma_decimal_len(n as nat);
    }
    heapless_decimal(n)
}

/// A decimal rendering has at least one digit, and at most ten when the
/// number fits in a `u32`.
pub proof fn lemma_decimal_len(n: nat)
    ensures
        decimal(n).len() >= 1,
        n < 10 ==> decimal(n).len() == 1,
        n < 0x1_0000_0000 ==> decimal(n).len() <= 10,
{
    lemma_digits_nonempty(n);
    if n < 0x1_0000_0000 {
        reveal_with_fuel(pow10, 11);
        assert(pow10(10) == 10000000000nat);
        lemma_digits_below(n, 10);
    }
}

proof fn lemma_digits_nonempty(n: nat)
    ensures
        decimal(n).len() >= 1,
        n < 10 ==> decimal(n).len() == 1,
    decreases n,
{
    if n >= 10 {
        lemma_digits_nonempty(n / 10);
    }
}

/// A number below `10^k` has at most `k` digits.
proof fn lemma_digits_below(n: nat, k: nat)
    requires
        k >= 1,
        n < pow10(k),
    ensures
        decimal(n).len() <= k,
    decreases n,
{
    if n >= 10 {
        assert(k >= 2) by {
            if k == 1 {
                assert(pow10(1) == 10);
            }
        }
        assert(n / 10 < pow10((k - 1) as nat)) by {
            assert(pow10(k) == 10 * pow10((k - 1) as nat));
        }
        lemma_digits_below(n / 10, (k - 1) as nat);
    }
}

/// Ten to the power `k`.
pub open spec fn pow10(k: nat) -> nat
    decreases k,
{
    if k == 0 { 1 } else { 10 * pow10((k - 1) as nat) }
}

} // verus!
