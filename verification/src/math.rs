//! Exact integer ratio arithmetic for the vesting calculator.
//!
//! A linearly vesting item unlocks `floor(total * elapsed / window)` of its
//! quantity. The product `total * elapsed` can exceed the machine word, so the
//! executable computation splits `total` by the divisor first; the proofs here
//! show that the split computes the exact mathematical floor.

use vstd::prelude::*;

verus! {

use vstd::arithmetic::div_mod::{lemma_div_is_ordered, lemma_fundamental_div_mod};
use vstd::arithmetic::mul::lemma_mul_inequality;

/// `floor(total * numerator / denominator)` as a mathematical integer.
pub open spec fn mul_div(total: u128, numerator: int, denominator: int) -> int
    recommends
        denominator > 0,
{
    total * numerator / denominator
}

/// The unlocked fraction never exceeds the whole: a ratio of at most one,
/// applied with rounding toward zero, cannot over-disburse.
pub proof fn lemma_mul_div_le_total(total: u128, numerator: int, denominator: int)
    requires
        0 < denominator,
        0 <= numerator <= denominator,
    ensures
        0 <= mul_div(total, numerator, denominator) <= total,
{
    lemma_mul_inequality(numerator, denominator, total as int);
    assert(total * numerator == numerator * total) by (nonlinear_arith);
    assert(total * denominator == denominator * total) by (nonlinear_arith);
    lemma_div_is_ordered(total * numerator, total * denominator, denominator);
    assert(total * denominator / denominator == total) by (nonlinear_arith)
        requires
            0 < denominator,
    ;
    assert(total * numerator >= 0) by (nonlinear_arith)
        requires
            numerator >= 0,
    ;
    assert(total * numerator / denominator >= 0) by (nonlinear_arith)
        requires
            total * numerator >= 0,
            0 < denominator,
    ;
}

/// A longer elapsed time never unlocks less: the ratio is monotone in its
/// numerator.
pub proof fn lemma_mul_div_monotone(total: u128, n1: int, n2: int, denominator: int)
    requires
        0 < denominator,
        n1 <= n2,
    ensures
        mul_div(total, n1, denominator) <= mul_div(total, n2, denominator),
{
    lemma_mul_inequality(n1, n2, total as int);
    assert(total * n1 == n1 * total) by (nonlinear_arith);
    assert(total * n2 == n2 * total) by (nonlinear_arith);
    lemma_div_is_ordered(total * n1, total * n2, denominator);
}

/// Computes `floor(total * numerator / denominator)` exactly, without the
/// intermediate product overflowing, by dividing `total` by the denominator
/// first and treating quotient and remainder separately.
pub fn mul_ratio(total: u128, numerator: u64, denominator: u64) -> (r: u128)
    requires
        0 < denominator,
        numerator <= denominator,
    ensures
        r == mul_div(total, numerator as int, denominator as int),
{
    proof {
        lemma_mul_div_le_total(total, numerator as int, denominator as int);
    }
    let q = total / (denominator as u128);
    let rem = total % (denominator as u128);
    proof {
        lemma_fundamental_div_mod(total as int, denominator as int);
        assert(q * numerator <= q * denominator) by (nonlinear_arith)
            requires
                numerator <= denominator,
                q >= 0,
        ;
        assert(q * denominator <= total) by (nonlinear_arith)
            requires
                0 < denominator,
                total == denominator * q + rem,
                0 <= rem,
        ;
        assert(rem * numerator <= (u64::MAX - 1) as int * (u64::MAX as int)) by (nonlinear_arith)
            requires
                0 <= rem,
                rem < denominator,
                denominator <= u64::MAX,
                0 <= numerator,
                numerator <= u64::MAX,
        ;
        assert(q * numerator + rem * numerator / (denominator as int) == total * numerator / (
        denominator as int)) by (nonlinear_arith)
            requires
                0 < denominator,
                total == denominator * q + rem,
                0 <= rem < denominator,
                0 <= numerator,
        ;
        assert(rem * numerator / (denominator as int) <= total * numerator / (denominator as int))
            by (nonlinear_arith)
            requires
                0 < denominator,
                0 <= q * numerator,
                q * numerator + rem * numerator / (denominator as int) == total * numerator / (
                denominator as int),
                0 <= rem * numerator,
        ;
        assert(0 <= q * numerator) by (nonlinear_arith)
            requires
                0 <= q,
                0 <= numerator,
        ;
    }
    q * (numerator as u128) + (rem * (numerator as u128)) / (denominator as u128)
}

} // verus!
