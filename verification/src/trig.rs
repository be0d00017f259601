//! Sine and cosine on turn-valued phases, by quadrant reduction and
//! truncated power series.
//!
//! Arguments are fractions of a turn in `[0, Q_ONE)`. The quadrant is peeled
//! off exactly, so the quadrature points come out exact: `cos_turn(0)` is
//! one, `cos_turn` of a quarter or three-quarter turn is zero. Within a
//! quadrant the series is evaluated in fixed point and clamped into `[0, 1]`.

use vstd::prelude::*;
use crate::qmath::{
    Q_ONE, Q_QUARTER, TAU, q_mul_s, q_sub_s, q_add_s, q_clamp_s, q_neg_s, q_mul, q_sub, q_add,
    q_clamp, q_neg,
};

verus! {

/// 1/2, 1/24, 1/720, 1/40320 in fixed point: the cosine series denominators.
pub const COS_C2: i64 = 536870912;

pub const COS_C4: i64 = 44739243;

pub const COS_C6: i64 = 1491308;

pub const COS_C8: i64 = 26630;

/// 1/6, 1/120, 1/5040, 1/362880 in fixed point: the sine series denominators.
pub const SIN_C3: i64 = 178956971;

pub const SIN_C5: i64 = 8947849;

pub const SIN_C7: i64 = 213044;

pub const SIN_C9: i64 = 2959;

/// Truncated cosine series on a quadrant-local angle, clamped into `[0, 1]`.
#[verifier::opaque]
pub open spec fn cos_quadrant_s(theta: i64) -> i64 {
    let t = q_mul_s(theta, theta);
    let h1 = q_sub_s(q_mul_s(COS_C8, t), COS_C6);
    let h2 = q_add_s(q_mul_s(h1, t), COS_C4);
    let h3 = q_sub_s(q_mul_s(h2, t), COS_C2);
    let h4 = q_add_s(q_mul_s(h3, t), Q_ONE);
    q_clamp_s(h4, 0, Q_ONE)
}

/// Truncated sine series on a quadrant-local angle, clamped into `[0, 1]`.
#[verifier::opaque]
pub open spec fn sin_quadrant_s(theta: i64) -> i64 {
    let t = q_mul_s(theta, theta);
    let h1 = q_sub_s(q_mul_s(SIN_C9, t), SIN_C7);
    let h2 = q_add_s(q_mul_s(h1, t), SIN_C5);
    let h3 = q_sub_s(q_mul_s(h2, t), SIN_C3);
    let h4 = q_add_s(q_mul_s(h3, t), Q_ONE);
    q_clamp_s(q_mul_s(theta, h4), 0, Q_ONE)
}

/// Cosine of `u` turns, for `u` in `[0, Q_ONE)`.
#[verifier::opaque]
pub open spec fn cos_turn_s(u: i64) -> i64 {
    let x = (if u >= 3 * Q_QUARTER {
        u - 3 * Q_QUARTER
    } else if u >= 2 * Q_QUARTER {
        u - 2 * Q_QUARTER
    } else if u >= Q_QUARTER {
        u - Q_QUARTER
    } else {
        u as int
    }) as i64;
    let theta = q_mul_s(x, TAU);
    if u >= 3 * Q_QUARTER {
        sin_quadrant_s(theta)
    } else if u >= 2 * Q_QUARTER {
        q_neg_s(cos_quadrant_s(theta))
    } else if u >= Q_QUARTER {
        q_neg_s(sin_quadrant_s(theta))
    } else {
        cos_quadrant_s(theta)
    }
}

/// Sine of `u` turns, for `u` in `[0, Q_ONE)`: the cosine a quarter turn
/// later.
#[verifier::opaque]
pub open spec fn sin_turn_s(u: i64) -> i64 {
    cos_turn_s(
        if u >= Q_QUARTER {
            (u - Q_QUARTER) as i64
        } else {
            (u + 3 * Q_QUARTER) as i64
        },
    )
}

/// At a zero quadrant-local angle the series collapse: every product has a
/// zero factor, so the cosine series is exactly one and the sine series
/// exactly zero.
proof fn lemma_quadrant_series_at_zero()
    ensures
        cos_quadrant_s(0) == Q_ONE,
        sin_quadrant_s(0) == 0,
{
    reveal(cos_quadrant_s);
    reveal(sin_quadrant_s);
    assert(q_mul_s(0i64, 0i64) == 0);
    assert(q_mul_s(COS_C8, 0i64) == 0);
    assert(q_sub_s(0i64, COS_C6) == (-COS_C6) as i64);
    assert(q_mul_s((-COS_C6) as i64, 0i64) == 0);
    assert(q_add_s(0i64, COS_C4) == COS_C4);
    assert(q_mul_s(COS_C4, 0i64) == 0);
    assert(q_sub_s(0i64, COS_C2) == (-COS_C2) as i64);
    assert(q_mul_s((-COS_C2) as i64, 0i64) == 0);
    assert(q_add_s(0i64, Q_ONE) == Q_ONE);
    assert(q_clamp_s(Q_ONE, 0, Q_ONE) == Q_ONE);
    assert(q_mul_s(SIN_C9, 0i64) == 0);
    assert(q_sub_s(0i64, SIN_C7) == (-SIN_C7) as i64);
    assert(q_mul_s((-SIN_C7) as i64, 0i64) == 0);
    assert(q_add_s(0i64, SIN_C5) == SIN_C5);
    assert(q_mul_s(SIN_C5, 0i64) == 0);
    assert(q_sub_s(0i64, SIN_C3) == (-SIN_C3) as i64);
    assert(q_mul_s((-SIN_C3) as i64, 0i64) == 0);
    assert(q_clamp_s(q_mul_s(0i64, q_add_s(0i64, Q_ONE)), 0, Q_ONE) == 0);
}

fn cos_quadrant(theta: i64) -> (r: i64)
    ensures
        r == cos_quadrant_s(theta),
        0 <= r <= Q_ONE,
{
    proof {
        reveal(cos_quadrant_s);
    }
    let t = q_mul(theta, theta);
    let h1 = q_sub(q_mul(COS_C8, t), COS_C6);
    let h2 = q_add(q_mul(h1, t), COS_C4);
    let h3 = q_sub(q_mul(h2, t), COS_C2);
    let h4 = q_add(q_mul(h3, t), Q_ONE);
    q_clamp(h4, 0, Q_ONE)
}

fn sin_quadrant(theta: i64) -> (r: i64)
    ensures
        r == sin_quadrant_s(theta),
        0 <= r <= Q_ONE,
{
    proof {
        reveal(sin_quadrant_s);
    }
    let t = q_mul(theta, theta);
    let h1 = q_sub(q_mul(SIN_C9, t), SIN_C7);
    let h2 = q_add(q_mul(h1, t), SIN_C5);
    let h3 = q_sub(q_mul(h2, t), SIN_C3);
    let h4 = q_add(q_mul(h3, t), Q_ONE);
    q_clamp(q_mul(theta, h4), 0, Q_ONE)
}

/// Cosine of a phase given as a fraction of a turn.
pub fn cos_turn(u: i64) -> (r: i64)
    requires
        0 <= u < Q_ONE,
    ensures
        r == cos_turn_s(u),
        -Q_ONE <= r <= Q_ONE,
        u == 0 ==> r == Q_ONE,
        u == Q_QUARTER ==> r == 0,
        u == 2 * Q_QUARTER ==> r == -Q_ONE,
        u == 3 * Q_QUARTER ==> r == 0,
{
    proof {
        reveal(cos_turn_s);
        lemma_quadrant_series_at_zero();
        assert(q_mul_s(0i64, TAU) == 0);
        assert(q_neg_s(0i64) == 0);
        assert(cos_turn_s(0) == Q_ONE);
        assert(cos_turn_s(Q_QUARTER) == 0);
        assert(cos_turn_s((2 * Q_QUARTER) as i64) == (-Q_ONE) as i64);
        assert(cos_turn_s((3 * Q_QUARTER) as i64) == 0);
    }
    let (x, quadrant): (i64, u8) = if u >= 3 * Q_QUARTER {
        (u - 3 * Q_QUARTER, 3)
    } else if u >= 2 * Q_QUARTER {
        (u - 2 * Q_QUARTER, 2)
    } else if u >= Q_QUARTER {
        (u - Q_QUARTER, 1)
    } else {
        (u, 0)
    };
    let theta = q_mul(x, TAU);
    if quadrant == 3 {
        sin_quadrant(theta)
    } else if quadrant == 2 {
        q_neg(cos_quadrant(theta))
    } else if quadrant == 1 {
        q_neg(sin_quadrant(theta))
    } else {
        cos_quadrant(theta)
    }
}

/// Sine of a phase given as a fraction of a turn.
pub fn sin_turn(u: i64) -> (r: i64)
    requires
        0 <= u < Q_ONE,
    ensures
        r == sin_turn_s(u),
        -Q_ONE <= r <= Q_ONE,
        u == 0 ==> r == 0,
{
    proof {
        reveal(sin_turn_s);
    }
    if u >= Q_QUARTER {
        cos_turn(u - Q_QUARTER)
    } else {
        cos_turn(u + 3 * Q_QUARTER)
    }
}

} // verus!
