//! Saturating fixed-point arithmetic for audio samples and parameters.
//!
//! A value `x: i64` stands for the real number `x / SCALE`. All operations
//! saturate at `±Q_LIMIT`, so every function in the engine is total and no
//! intermediate computation can overflow.

use vstd::prelude::*;

verus! {

/// One unit in fixed-point representation (2^30).
pub const SCALE: i64 = 1073741824;

/// The fixed-point encoding of 1.0.
pub const Q_ONE: i64 = 1073741824;

/// The fixed-point encoding of 0.5.
pub const Q_HALF: i64 = 536870912;

/// The fixed-point encoding of 0.25.
pub const Q_QUARTER: i64 = 268435456;

/// The fixed-point encoding of 2.0.
pub const Q_TWO: i64 = 2147483648;

/// The fixed-point encoding of 1000.
pub const Q_THOUSAND: i64 = 1073741824000;

/// The fixed-point encoding of 2*pi.
pub const TAU: i64 = 6746518852;

/// Largest representable magnitude; arithmetic saturates here (i64::MAX).
pub const Q_LIMIT: i64 = 9223372036854775807;

/// Saturation of a mathematical integer into the symmetric i64 range.
pub open spec fn sat_s(x: int) -> i64 {
    if x > Q_LIMIT as int {
        Q_LIMIT
    } else if x < -(Q_LIMIT as int) {
        (-(Q_LIMIT as int)) as i64
    } else {
        x as i64
    }
}

/// Division truncating toward zero (for positive divisors).
pub open spec fn tdiv_s(x: int, d: int) -> int {
    if x >= 0 {
        x / d
    } else {
        -((-x) / d)
    }
}

/// Saturating fixed-point product: (a * b) / SCALE, truncated toward zero.
pub open spec fn q_mul_s(a: i64, b: i64) -> i64 {
    sat_s(tdiv_s(a * b, SCALE as int))
}

/// Saturating sum.
pub open spec fn q_add_s(a: i64, b: i64) -> i64 {
    sat_s(a + b)
}

/// Saturating difference.
pub open spec fn q_sub_s(a: i64, b: i64) -> i64 {
    sat_s(a - b)
}

/// Saturating fixed-point quotient: (a * SCALE) / b, truncated toward zero.
pub open spec fn q_div_s(a: i64, b: i64) -> i64 {
    sat_s(tdiv_s(a * (SCALE as int), b as int))
}

/// Saturating negation (maps i64::MIN to Q_LIMIT).
pub open spec fn q_neg_s(a: i64) -> i64 {
    sat_s(-(a as int))
}

/// Absolute value, saturated (total on all of i64).
pub open spec fn q_abs_s(a: i64) -> i64 {
    if a < 0 {
        q_neg_s(a)
    } else {
        a
    }
}

/// Clamp into `[lo, hi]`.
pub open spec fn q_clamp_s(x: i64, lo: i64, hi: i64) -> i64 {
    if x < lo {
        lo
    } else if x > hi {
        hi
    } else {
        x
    }
}

fn sat64(q: i128) -> (r: i64)
    ensures
        r == sat_s(q as int),
{
    if q > Q_LIMIT as i128 {
        Q_LIMIT
    } else if q < -(Q_LIMIT as i128) {
        -Q_LIMIT
    } else {
        q as i64
    }
}

/// Truncating division of an i128 by a positive divisor, as a total function.
fn tdiv128(x: i128, d: i128) -> (r: i128)
    requires
        d > 0,
        -0x40000000000000000000000000000000 <= x
            <= 0x40000000000000000000000000000000,
    ensures
        r == tdiv_s(x as int, d as int),
{
    proof {
        lemma_tdiv128_fits(x as int, d as int);
    }
    match x.checked_div(d) {
        Some(q) => q,
        None => 0,
    }
}

proof fn lemma_tdiv128_fits(x: int, d: int)
    requires
        d > 0,
        -0x40000000000000000000000000000000 <= x
            <= 0x40000000000000000000000000000000,
    ensures
        -0x40000000000000000000000000000000 <= tdiv_s(x, d)
            <= 0x40000000000000000000000000000000,
        x > 0 ==> x / d == tdiv_s(x, d),
        x < 0 ==> ((x * -1) / d) * -1 == tdiv_s(x, d),
        x == 0 ==> tdiv_s(x, d) == 0,
{
    if x >= 0 {
        vstd::arithmetic::div_mod::lemma_div_nonincreasing(x, d);
        vstd::arithmetic::div_mod::lemma_div_pos_is_pos(x, d);
    } else {
        vstd::arithmetic::div_mod::lemma_div_nonincreasing(-x, d);
        vstd::arithmetic::div_mod::lemma_div_pos_is_pos(-x, d);
        assert(x * -1 == -x) by (nonlinear_arith);
        assert(((-x) / d) * -1 == -((-x) / d)) by (nonlinear_arith);
    }
}

/// Saturating fixed-point multiplication.
pub fn q_mul(a: i64, b: i64) -> (r: i64)
    ensures
        r == q_mul_s(a, b),
{
    proof {
        assert((a as int) * (b as int) <= 0x40000000000000000000000000000000
            && (a as int) * (b as int) >= -0x40000000000000000000000000000000)
            by (nonlinear_arith)
            requires
                -0x8000000000000000 <= a as int <= 0x7fffffffffffffff,
                -0x8000000000000000 <= b as int <= 0x7fffffffffffffff,
        ;
    }
    let p: i128 = (a as i128) * (b as i128);
    let q = tdiv128(p, SCALE as i128);
    sat64(q)
}

/// Saturating addition.
pub fn q_add(a: i64, b: i64) -> (r: i64)
    ensures
        r == q_add_s(a, b),
{
    let s: i128 = (a as i128) + (b as i128);
    sat64(s)
}

/// Saturating subtraction.
pub fn q_sub(a: i64, b: i64) -> (r: i64)
    ensures
        r == q_sub_s(a, b),
{
    let s: i128 = (a as i128) - (b as i128);
    sat64(s)
}

/// Saturating fixed-point division by a positive divisor.
pub fn q_div(a: i64, b: i64) -> (r: i64)
    requires
        b > 0,
    ensures
        r == q_div_s(a, b),
{
    proof {
        assert((a as int) * (SCALE as int) <= 0x40000000000000000000000000000000
            && (a as int) * (SCALE as int) >= -0x40000000000000000000000000000000)
            by (nonlinear_arith)
            requires
                -0x8000000000000000 <= a as int <= 0x7fffffffffffffff,
        ;
    }
    let n: i128 = (a as i128) * (SCALE as i128);
    let q = tdiv128(n, b as i128);
    sat64(q)
}

/// Saturating negation.
pub fn q_neg(a: i64) -> (r: i64)
    ensures
        r == q_neg_s(a),
{
    sat64(-(a as i128))
}

/// Absolute value, saturated.
pub fn q_abs(a: i64) -> (r: i64)
    ensures
        r == q_abs_s(a),
        r >= 0,
{
    if a < 0 {
        q_neg(a)
    } else {
        a
    }
}

/// Clamp into `[lo, hi]`.
pub fn q_clamp(x: i64, lo: i64, hi: i64) -> (r: i64)
    ensures
        r == q_clamp_s(x, lo, hi),
{
    if x < lo {
        lo
    } else if x > hi {
        hi
    } else {
        x
    }
}

/// Integer part of a nonnegative fixed-point value, in whole units.
pub fn q_int_part(a: i64) -> (r: u64)
    requires
        a >= 0,
    ensures
        r == (a as int) / (SCALE as int),
        r <= a,
{
    proof {
        vstd::arithmetic::div_mod::lemma_div_nonincreasing(a as int, SCALE as int);
        vstd::arithmetic::div_mod::lemma_div_pos_is_pos(a as int, SCALE as int);
    }
    (a as u64) / (SCALE as u64)
}

/// Fractional part of a nonnegative fixed-point value.
pub fn q_frac(a: i64) -> (r: i64)
    requires
        a >= 0,
    ensures
        r == (a as int) % (SCALE as int),
        0 <= r < SCALE,
{
    ((a as u64) % (SCALE as u64)) as i64
}

/// The fixed-point encoding of a small integer.
pub fn q_from_int(n: i64) -> (r: i64)
    ensures
        r == sat_s(n * (SCALE as int)),
{
    proof {
        assert((n as int) * (SCALE as int) <= 0x40000000000000000000000000000000
            && (n as int) * (SCALE as int) >= -0x40000000000000000000000000000000)
            by (nonlinear_arith)
            requires
                -0x8000000000000000 <= n as int <= 0x7fffffffffffffff,
        ;
    }
    let p: i128 = (n as i128) * (SCALE as i128);
    sat64(p)
}

/// A product of nonnegative factors is nonnegative.
pub proof fn lemma_q_mul_nonneg(a: i64, b: i64)
    requires
        a >= 0,
        b >= 0,
    ensures
        q_mul_s(a, b) >= 0,
{
    assert((a as int) * (b as int) >= 0) by (nonlinear_arith)
        requires a as int >= 0, b as int >= 0;
    vstd::arithmetic::div_mod::lemma_div_pos_is_pos((a as int) * (b as int), SCALE as int);
}

/// Multiplying by zero gives zero.
pub proof fn lemma_q_mul_zero(b: i64)
    ensures
        q_mul_s(0i64, b) == 0i64,
        q_mul_s(b, 0i64) == 0i64,
{
    assert((0int) * (b as int) == 0) by (nonlinear_arith);
    assert((b as int) * (0int) == 0) by (nonlinear_arith);
}

/// Multiplying by the fixed-point one is the identity (off the one
/// unrepresentable magnitude).
pub proof fn lemma_q_mul_one(d: i64)
    requires
        -Q_LIMIT <= d,
    ensures
        q_mul_s(d, Q_ONE) == d,
        q_mul_s(Q_ONE, d) == d,
{
    if d >= 0 {
        vstd::arithmetic::div_mod::lemma_div_by_multiple(d as int, SCALE as int);
        assert((d as int) * (Q_ONE as int) == (d as int) * (SCALE as int));
        assert((Q_ONE as int) * (d as int) == (d as int) * (SCALE as int))
            by (nonlinear_arith);
    } else {
        vstd::arithmetic::div_mod::lemma_div_by_multiple(-(d as int), SCALE as int);
        assert(-((d as int) * (Q_ONE as int)) == (-(d as int)) * (SCALE as int))
            by (nonlinear_arith);
        assert(-((Q_ONE as int) * (d as int)) == (-(d as int)) * (SCALE as int))
            by (nonlinear_arith);
    }
}

/// A product with a factor in `[0, Q_ONE]` keeps the sign of the other factor
/// and never grows its magnitude.
pub proof fn lemma_q_mul_unit_bound(c: i64, d: i64)
    requires
        0 <= c <= Q_ONE,
        d >= 0,
    ensures
        0 <= q_mul_s(c, d) <= d,
{
    vstd::arithmetic::mul::lemma_mul_inequality(c as int, Q_ONE as int, d as int);
    assert(c * d >= 0) by (nonlinear_arith)
        requires c >= 0, d >= 0;
    vstd::arithmetic::div_mod::lemma_div_is_ordered(c * d, Q_ONE * d, SCALE as int);
    assert(Q_ONE * d == (SCALE as int) * d) by (nonlinear_arith);
    vstd::arithmetic::div_mod::lemma_div_multiples_vanish(d as int, SCALE as int);
    vstd::arithmetic::div_mod::lemma_div_pos_is_pos(c * d, SCALE as int);
}

/// The mirror image of `lemma_q_mul_unit_bound` for a nonpositive factor.
pub proof fn lemma_q_mul_unit_bound_neg(c: i64, d: i64)
    requires
        0 <= c <= Q_ONE,
        d <= 0,
    ensures
        d <= q_mul_s(c, d) <= 0,
{
    let e = -(d as int);
    vstd::arithmetic::mul::lemma_mul_inequality(c as int, Q_ONE as int, e);
    assert((c as int) * e >= 0) by (nonlinear_arith)
        requires c >= 0, e >= 0;
    vstd::arithmetic::div_mod::lemma_div_is_ordered((c as int) * e, Q_ONE * e, SCALE as int);
    assert(Q_ONE * e == (SCALE as int) * e) by (nonlinear_arith);
    vstd::arithmetic::div_mod::lemma_div_multiples_vanish(e, SCALE as int);
    vstd::arithmetic::div_mod::lemma_div_pos_is_pos((c as int) * e, SCALE as int);
    assert((c as int) * (d as int) == -((c as int) * (-(d as int)))) by (nonlinear_arith);
}

} // verus!
