//! Soft saturation of the feedback lanes: a bounded cubic approximation of
//! an arctangent, blended in by a squared mix amount.

use vstd::prelude::*;
use crate::qmath::{
    Q_ONE, Q_LIMIT, q_mul_s, q_add_s, q_sub_s, q_clamp_s, q_mul, q_add, q_sub, q_clamp,
    lemma_q_mul_one,
};
use super::lanes::Lanes;

verus! {

/// 2.65155 in fixed point: where the cubic leaves the [-1, 1] band.
pub const SAT_INPUT_LIMIT: i64 = 2847080133;

/// 0.97239411 in fixed point: the cubic's linear coefficient.
pub const SAT_LINEAR: i64 = 1044100225;

/// 0.19194795 in fixed point: the cubic's third-order coefficient.
pub const SAT_CUBIC: i64 = 206102542;

/// The bounded arctangent shape on one lane: the cubic
/// `(SAT_LINEAR - SAT_CUBIC * x^2) * x` inside the input band, clamped to
/// `[-1, 1]`, and continued by the saturated rails outside it.
pub open spec fn fast_atan_s(x: i64) -> i64 {
    if x < -SAT_INPUT_LIMIT {
        Q_ONE
    } else if x > SAT_INPUT_LIMIT {
        (-Q_ONE) as i64
    } else {
        q_clamp_s(
            q_mul_s(q_sub_s(SAT_LINEAR, q_mul_s(SAT_CUBIC, q_mul_s(x, x))), x),
            (-Q_ONE) as i64,
            Q_ONE,
        )
    }
}

/// One saturated lane: the clean sample moved toward its shaped value by the
/// squared mix amount.
pub open spec fn saturate_s(x: i64, mix_sq: i64) -> i64 {
    q_add_s(x, q_mul_s(q_sub_s(fast_atan_s(x), x), mix_sq))
}

/// With the activation gain fully engaged, a saturated lane is exactly the
/// bounded arctangent shape of its input: the feedback loop then cannot
/// store a sample louder than one, whatever came in.
pub proof fn lemma_full_saturation_bounds(x: i64)
    requires
        -Q_LIMIT + Q_ONE <= x <= Q_LIMIT - Q_ONE,
    ensures
        saturate_s(x, Q_ONE) == fast_atan_s(x),
        -Q_ONE <= saturate_s(x, Q_ONE) <= Q_ONE,
{
    let a = fast_atan_s(x);
    assert(-Q_ONE <= a <= Q_ONE);
    let d = q_sub_s(a, x);
    lemma_q_mul_one(d);
    assert(q_mul_s(d, Q_ONE) == d);
    assert(q_add_s(x, d) == a);
}

pub struct Saturation;

impl Saturation {
    /// Applies the soft clip to all four lanes, blended by `mix` squared.
    /// A zero sample stays exactly zero for every mix amount.
    pub fn process(taps: Lanes, mix: i64) -> (r: Lanes)
        ensures
            r.a == saturate_s(taps.a, q_clamp_s(q_mul_s(mix, mix), 0, Q_ONE)),
            r.b == saturate_s(taps.b, q_clamp_s(q_mul_s(mix, mix), 0, Q_ONE)),
            r.c == saturate_s(taps.c, q_clamp_s(q_mul_s(mix, mix), 0, Q_ONE)),
            r.d == saturate_s(taps.d, q_clamp_s(q_mul_s(mix, mix), 0, Q_ONE)),
            taps.is_zero() ==> r.is_zero(),
    {
        let m = q_clamp(q_mul(mix, mix), 0, Q_ONE);
        proof {
            crate::qmath::lemma_q_mul_zero(SAT_CUBIC);
            crate::qmath::lemma_q_mul_zero(q_sub_s(SAT_LINEAR, 0i64));
            crate::qmath::lemma_q_mul_zero(m);
        }
        Lanes {
            a: q_add(taps.a, q_mul(q_sub(Self::fast_atan2(taps.a), taps.a), m)),
            b: q_add(taps.b, q_mul(q_sub(Self::fast_atan2(taps.b), taps.b), m)),
            c: q_add(taps.c, q_mul(q_sub(Self::fast_atan2(taps.c), taps.c), m)),
            d: q_add(taps.d, q_mul(q_sub(Self::fast_atan2(taps.d), taps.d), m)),
        }
    }

    /// The bounded cubic arctangent shape of a single lane.
    pub fn fast_atan2(x: i64) -> (r: i64)
        ensures
            r == fast_atan_s(x),
            -Q_ONE <= r <= Q_ONE,
            x == 0 ==> r == 0,
    {
        if x < -SAT_INPUT_LIMIT {
            Q_ONE
        } else if x > SAT_INPUT_LIMIT {
            -Q_ONE
        } else {
            proof {
                if x == 0 {
                    crate::qmath::lemma_q_mul_zero(x);
                    crate::qmath::lemma_q_mul_zero(SAT_CUBIC);
                    crate::qmath::lemma_q_mul_zero(q_sub_s(SAT_LINEAR, 0i64));
                }
            }
            q_clamp(
                q_mul(q_sub(SAT_LINEAR, q_mul(SAT_CUBIC, q_mul(x, x))), x),
                -Q_ONE,
                Q_ONE,
            )
        }
    }
}

} // verus!
