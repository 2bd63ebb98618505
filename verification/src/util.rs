//! Small shared value types and the exact integer arithmetic helpers
//! that the movement and timer code is specified against.

use vstd::prelude::*;

use crate::consts;

verus! {

/// Whether a trigger pull actually fired a shot.
#[derive(Clone, Copy, PartialEq, Eq, Structural, Debug)]
pub struct Shot(pub bool);

/// Whether something changed position this tick.
#[derive(Clone, Copy, PartialEq, Eq, Structural, Debug)]
pub struct Moved(pub bool);

/// Whether a repeating timer fired this tick.
#[derive(Clone, Copy, PartialEq, Eq, Structural, Debug)]
pub struct Ticked(pub bool);

/// Coordinates are kept within `[-POS_LIMIT, POS_LIMIT]`.
pub open spec fn spec_clamp_pos(v: int) -> int {
    if v < -consts::POS_LIMIT {
        -consts::POS_LIMIT as int
    } else if v > consts::POS_LIMIT {
        consts::POS_LIMIT as int
    } else {
        v
    }
}

/// Division that truncates toward zero, for a positive divisor; this is
/// what the movement scaling below computes.
pub open spec fn spec_tdiv(n: int, d: int) -> int
    recommends
        d > 0,
{
    if n >= 0 {
        n / d
    } else {
        -((-n) / d)
    }
}

/// `a + b`, clamped into the coordinate band. Never overflows.
pub fn add_clamped(a: i64, b: i64) -> (r: i64)
    ensures
        r == spec_clamp_pos(a + b),
        -consts::POS_LIMIT <= r <= consts::POS_LIMIT,
{
    let s: i128 = a as i128 + b as i128;
    if s < -consts::POS_LIMIT as i128 {
        -consts::POS_LIMIT
    } else if s > consts::POS_LIMIT as i128 {
        consts::POS_LIMIT
    } else {
        s as i64
    }
}

/// `a * b * c / den`, truncated toward zero, computed without overflow.
pub fn mul3_div(a: i64, b: i64, c: i64, den: i64) -> (r: i64)
    requires
        den > 0,
        -0x4000_0000_0000_0000 <= a * b * c <= 0x4000_0000_0000_0000,
    ensures
        r == spec_tdiv(a * b * c, den as int),
{
    proof {
        let ab: int = a as int * b as int;
        assert(-0x4000_0000_0000_0000_0000_0000_0000_0000 <= ab
            <= 0x4000_0000_0000_0000_0000_0000_0000_0000) by (nonlinear_arith)
            requires
                -0x8000_0000_0000_0000 <= a as int <= 0x7FFF_FFFF_FFFF_FFFF,
                -0x8000_0000_0000_0000 <= b as int <= 0x7FFF_FFFF_FFFF_FFFF,
                ab == a as int * b as int,
        ;
    }
    let p: i128 = a as i128 * b as i128 * c as i128;
    let neg: bool = p < 0;
    let mag: u128 = if neg {
        (-p) as u128
    } else {
        p as u128
    };
    let q: u128 = mag / (den as u128);
    proof {
        assert(q <= mag) by {
            vstd::arithmetic::div_mod::lemma_div_is_ordered_by_denominator(
                mag as int,
                1,
                den as int,
            );
        }
    }
    let qi: i64 = q as i64;
    if neg {
        -qi
    } else {
        qi
    }
}

/// Interval bound for a product, from interval bounds on the factors.
pub proof fn lemma_abs_mul_le(a: int, b: int, bound_a: int, bound_b: int)
    requires
        -bound_a <= a <= bound_a,
        -bound_b <= b <= bound_b,
        0 <= bound_a,
        0 <= bound_b,
    ensures
        -(bound_a * bound_b) <= a * b <= bound_a * bound_b,
{
    assert(-(bound_a * bound_b) <= a * b <= bound_a * bound_b) by (nonlinear_arith)
        requires
            -bound_a <= a <= bound_a,
            -bound_b <= b <= bound_b,
            0 <= bound_a,
            0 <= bound_b,
    ;
}

/// Truncating division never grows the magnitude.
pub proof fn lemma_tdiv_abs_le(x: int, d: int, b: int)
    requires
        d >= 1,
        -b <= x <= b,
        0 <= b,
    ensures
        -b <= spec_tdiv(x, d) <= b,
{
    if x >= 0 {
        vstd::arithmetic::div_mod::lemma_div_pos_is_pos(x, d);
        vstd::arithmetic::div_mod::lemma_div_nonincreasing(x, d);
    } else {
        vstd::arithmetic::div_mod::lemma_div_pos_is_pos(-x, d);
        vstd::arithmetic::div_mod::lemma_div_nonincreasing(-x, d);
    }
}

/// A truncated quotient is bounded by any multiple-of-the-divisor
/// bound on the dividend.
pub proof fn lemma_tdiv_quotient_bound(x: int, d: int, b: int)
    requires
        d >= 1,
        0 <= b,
        -(b * d) <= x <= b * d,
    ensures
        -b <= spec_tdiv(x, d) <= b,
{
    vstd::arithmetic::div_mod::lemma_div_by_multiple(b, d);
    if x >= 0 {
        vstd::arithmetic::div_mod::lemma_div_pos_is_pos(x, d);
        vstd::arithmetic::div_mod::lemma_div_is_ordered(x, b * d, d);
    } else {
        vstd::arithmetic::div_mod::lemma_div_pos_is_pos(-x, d);
        vstd::arithmetic::div_mod::lemma_div_is_ordered(-x, b * d, d);
    }
}

/// `a * b / den`, truncated toward zero.
pub fn mul_div(a: i64, b: i64, den: i64) -> (r: i64)
    requires
        den > 0,
        -0x4000_0000_0000_0000 <= a * b <= 0x4000_0000_0000_0000,
    ensures
        r == spec_tdiv(a * b, den as int),
{
    mul3_div(a, b, 1, den)
}

} // verus!
