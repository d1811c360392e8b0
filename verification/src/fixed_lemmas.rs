//! Facts about the rounding of fixed-point products and quotients.
use crate::fixed_point::{div_toward_zero, mul_floor, quotient_toward_zero, scale};
use vstd::arithmetic::div_mod::{
    lemma_div_multiples_vanish, lemma_fundamental_div_mod, lemma_mod_bound,
};
use vstd::prelude::*;

verus! {

/// A quotient of numbers that are not negative lies within one divisor below
/// the exact quotient.
pub proof fn lemma_floor_bounds(n: int, d: int)
    requires
        d > 0,
    ensures
        (n / d) * d <= n < (n / d) * d + d,
{
    lemma_fundamental_div_mod(n, d);
    lemma_mod_bound(n, d);
    assert(d * (n / d) == (n / d) * d) by (nonlinear_arith);
}

/// The quotient rounded toward zero, times the divisor, lies within one
/// divisor of the dividend, on the side of zero.
pub proof fn lemma_quotient_toward_zero_bounds(n: int, d: int)
    requires
        d > 0,
    ensures
        n >= 0 ==> n - d < quotient_toward_zero(n, d) * d <= n,
        n <= 0 ==> n <= quotient_toward_zero(n, d) * d < n + d,
        n >= 0 ==> quotient_toward_zero(n, d) >= 0,
        n <= 0 ==> quotient_toward_zero(n, d) <= 0,
{
    if n >= 0 {
        lemma_floor_bounds(n, d);
        assert(n / d >= 0) by (nonlinear_arith)
            requires
                (n / d) * d + d > n,
                n >= 0,
                d > 0,
        ;
    } else {
        lemma_floor_bounds(-n, d);
        let q = (-n) / d;
        assert(q >= 0) by (nonlinear_arith)
            requires
                q * d + d > -n,
                -n >= 0,
                d > 0,
        ;
        assert((-q) * d == -(q * d)) by (nonlinear_arith);
    }
}

/// Among the multiples of a positive divisor there is one quotient only
/// whose product lies within one divisor of the dividend on the side of
/// zero.
pub proof fn lemma_quotient_toward_zero_unique(n: int, d: int, q: int)
    requires
        d > 0,
        n >= 0 ==> n - d < q * d <= n,
        n < 0 ==> n <= q * d < n + d,
    ensures
        q == quotient_toward_zero(n, d),
{
    lemma_quotient_toward_zero_bounds(n, d);
    let r = quotient_toward_zero(n, d);
    assert(q == r) by (nonlinear_arith)
        requires
            d > 0,
            -d < q * d - r * d < d,
    ;
}

/// A product with a whole number is exact.
pub proof fn lemma_mul_by_whole(v: int, p: int)
    ensures
        mul_floor(v, p * scale()) == v * p,
{
    assert(v * (p * scale()) == scale() * (v * p)) by (nonlinear_arith);
    lemma_div_multiples_vanish(v * p, scale());
}

/// A quotient by a positive whole number is the quotient of the bits by that
/// number, rounded toward zero.
pub proof fn lemma_div_by_whole(v: int, p: int)
    requires
        p >= 1,
    ensures
        div_toward_zero(v, p * scale()) == quotient_toward_zero(v, p),
{
    let s = scale();
    let q = quotient_toward_zero(v, p);
    lemma_quotient_toward_zero_bounds(v, p);
    assert(p * s > 0) by (nonlinear_arith)
        requires
            p >= 1,
            s > 0,
    ;
    assert(q * (p * s) == (q * p) * s) by (nonlinear_arith);
    if v >= 0 {
        assert(v * s - p * s < (q * p) * s <= v * s) by (nonlinear_arith)
            requires
                v - p < q * p <= v,
                s > 0,
        ;
        assert(v * s >= 0) by (nonlinear_arith)
            requires
                v >= 0,
                s > 0,
        ;
    } else {
        assert(v * s <= (q * p) * s < v * s + p * s) by (nonlinear_arith)
            requires
                v <= q * p < v + p,
                s > 0,
        ;
        assert(v * s < 0) by (nonlinear_arith)
            requires
                v < 0,
                s > 0,
        ;
    }
    lemma_quotient_toward_zero_unique(v * s, p * s, q);
}

/// Dividing a multiple of a positive number by that number gives the
/// multiplier back.
pub proof fn lemma_quotient_of_multiple(x: int, p: int)
    requires
        p >= 1,
    ensures
        quotient_toward_zero(x * p, p) == x,
{
    if x >= 0 {
        assert(x * p >= 0) by (nonlinear_arith)
            requires
                x >= 0,
                p >= 1,
        ;
    } else {
        assert(x * p < 0) by (nonlinear_arith)
            requires
                x < 0,
                p >= 1,
        ;
    }
    lemma_quotient_toward_zero_unique(x * p, p, x);
}

} // verus!
