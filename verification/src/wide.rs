//! Multiply-then-divide on amounts through a 256-bit intermediate, so that
//! the product never wraps before the division.

use primitive_types::U256;
use vstd::arithmetic::div_mod::{lemma_div_is_ordered, lemma_div_multiples_vanish};
use vstd::arithmetic::mul::{lemma_mul_inequality, lemma_mul_is_commutative};
use vstd::prelude::*;

verus! {

/// The truncated quotient `floor(a * b / d)` over the mathematical integers.
pub open spec fn mul_div(a: nat, b: nat, d: nat) -> nat
    recommends
        d > 0,
{
    (a * b) / d
}

/// What a 256-bit multiply-then-divide hands back in 128 bits: the quotient
/// where it fits, nothing where it does not.
pub open spec fn narrowed(a: nat, b: nat, d: nat) -> Option<u128>
    recommends
        d > 0,
{
    if mul_div(a, b, d) <= u128::MAX {
        Some(mul_div(a, b, d) as u128)
    } else {
        None
    }
}

/// Scaling by a fraction of at most one never grows the amount.
pub proof fn lemma_mul_div_bounded(a: nat, b: nat, d: nat)
    requires
        d > 0,
        b <= d,
    ensures
        mul_div(a, b, d) <= a,
{
    lemma_mul_is_commutative(a as int, b as int);
    lemma_mul_is_commutative(a as int, d as int);
    lemma_mul_inequality(b as int, d as int, a as int);
    lemma_div_is_ordered((a * b) as int, (a * d) as int, d as int);
    lemma_div_multiples_vanish(a as int, d as int);
    lemma_mul_is_commutative(d as int, a as int);
}

/// Scaling by the same denominator is monotonic in the numerator.
pub proof fn lemma_mul_div_monotonic(a: nat, b1: nat, b2: nat, d: nat)
    requires
        d > 0,
        b1 <= b2,
    ensures
        mul_div(a, b1, d) <= mul_div(a, b2, d),
{
    lemma_mul_is_commutative(a as int, b1 as int);
    lemma_mul_is_commutative(a as int, b2 as int);
    lemma_mul_inequality(b1 as int, b2 as int, a as int);
    lemma_div_is_ordered((a * b1) as int, (a * b2) as int, d as int);
}

/// Calls `primitive_types::U256`: widens the operands with `From<u128>`,
/// multiplies the first two with `Mul` (two 128-bit operands cannot overflow
/// 256 bits), divides by the third with `Div` (which panics on a zero
/// divisor, excluded here) and narrows with `TryFrom<U256> for u128`, whose
/// error is mapped to `None`. The contract claims that the quotient is exact
/// and that `None` comes exactly when it exceeds 128 bits.
#[verifier::external_body]
pub(crate) fn mul_div_u256(a: u128, b: u128, d: u128) -> (q: Option<u128>)
    requires
        d > 0,
    ensures
        q == narrowed(a as nat, b as nat, d as nat),
{
    u128::try_from(U256::from(a) * U256::from(b) / U256::from(d)).ok()
}

/// `floor(a * b / d)`, or `None` when `d` is zero or the quotient does not
/// fit in 128 bits.
pub fn checked_mul_div(a: u128, b: u128, d: u128) -> (q: Option<u128>)
    ensures
        q == (if d == 0 {
            None
        } else {
            narrowed(a as nat, b as nat, d as nat)
        }),
{
    if d == 0 {
        None
    } else {
        mul_div_u256(a, b, d)
    }
}

/// The share `floor(amount * part / whole)` of an amount, for a fraction of
/// at most one.
pub fn share(amount: u128, part: u64, whole: u64) -> (r: u128)
    requires
        0 < whole,
        part <= whole,
    ensures
        r == mul_div(amount as nat, part as nat, whole as nat),
        r <= amount,
{
    proof {
        lemma_mul_div_bounded(amount as nat, part as nat, whole as nat);
    }
    let q = mul_div_u256(amount, part as u128, whole as u128);
    q.unwrap()
}

} // verus!
