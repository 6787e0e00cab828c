//! Small arithmetic facts about products and floor division that the
//! generator's proofs use repeatedly.

use vstd::prelude::*;
use vstd::arithmetic::div_mod::{lemma_fundamental_div_mod, lemma_mod_bound, lemma_div_is_ordered, lemma_div_multiples_vanish};

verus! {

/// A product grows with both factors.
pub proof fn lemma_mul_le(a: int, b: int, x: int, y: int)
    requires
        0 <= a <= x,
        0 <= b <= y,
    ensures
        a * b <= x * y,
{
    assert(a * b <= x * y) by (nonlinear_arith)
        requires
            0 <= a <= x,
            0 <= b <= y,
    ;
}

/// A common positive factor can be cancelled from an inequality.
pub proof fn lemma_cancel_mul_le(a: int, b: int, c: int)
    requires
        c > 0,
        a * c <= b * c,
    ensures
        a <= b,
{
    assert(a <= b) by (nonlinear_arith)
        requires
            c > 0,
            a * c <= b * c,
    ;
}

/// What floor division leaves: the quotient times the divisor reaches at
/// most the dividend, and misses it by less than the divisor.
pub proof fn lemma_div_rem(a: int, b: int)
    requires
        0 <= a,
        0 < b,
    ensures
        0 <= a / b,
        b * (a / b) <= a,
        a < b * (a / b) + b,
{
    lemma_fundamental_div_mod(a, b);
    lemma_mod_bound(a, b);
    assert(a / b >= 0) by (nonlinear_arith)
        requires
            0 <= a,
            0 < b,
            b * (a / b) + a % b == a,
            0 <= a % b < b,
    ;
}

/// Floor division is monotone across different denominators: if the exact
/// fraction a/b is at most c/d, so are the floors.
pub proof fn lemma_div_frac_le(a: int, b: int, c: int, d: int)
    requires
        0 <= a,
        0 < b,
        0 < d,
        a * d <= c * b,
    ensures
        a / b <= c / d,
{
    let q = a / b;
    lemma_div_rem(a, b);
    assert((q * d) * b <= c * b) by (nonlinear_arith)
        requires
            b * q <= a,
            a * d <= c * b,
            0 <= d,
            0 < b,
    ;
    lemma_cancel_mul_le(q * d, c, b);
    lemma_div_is_ordered(q * d, c, d);
    lemma_div_multiples_vanish(q, d);
    assert(q * d == d * q) by (nonlinear_arith);
}

/// A strict bound on the dividend gives a bound on the quotient: if the
/// dividend stays strictly under `(k + 1)` times the divisor, the quotient
/// stays at most `k`.
pub proof fn lemma_div_lt(a: int, b: int, k: int)
    requires
        0 <= a,
        0 < b,
        0 <= k,
        a < b * (k + 1),
    ensures
        a / b <= k,
{
    lemma_div_rem(a, b);
    assert(a / b <= k) by (nonlinear_arith)
        requires
            b * (a / b) <= a,
            a < b * (k + 1),
            0 < b,
            0 <= a / b,
    ;
}

/// Bounding a quotient from a bound on dividend and divisor: if the
/// dividend stays under `bound` times the divisor, the quotient stays
/// under `bound`.
pub proof fn lemma_div_bounded(a: int, b: int, bound: int)
    requires
        0 <= a,
        0 < b,
        a <= bound * b,
    ensures
        a / b <= bound,
{
    lemma_div_is_ordered(a, bound * b, b);
    lemma_div_multiples_vanish(bound, b);
    assert(bound * b == b * bound) by (nonlinear_arith);
}

} // verus!
