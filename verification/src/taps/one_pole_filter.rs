//! Absorption stage: a one-pole lowpass per feedback lane, its coefficient
//! scaled by `absorb` and by the sample rate, modelling frequency-dependent
//! boundary loss.

use vstd::prelude::*;
use crate::qmath::{
    Q_ONE, q_mul_s, q_add_s, q_sub_s, q_div_s, q_clamp_s, sat_s, SCALE, q_mul, q_add, q_sub,
    q_div, q_clamp,
};
use super::lanes::Lanes;
use super::dc_block::{flush_s, DcBlock};

verus! {

/// 44100 in fixed point: the reference rate the absorption constants were
/// tuned at.
pub const REFERENCE_RATE: i64 = 47352014438400;

/// One lowpass step: `z' = input * (1 - b1) + z * b1`.
pub open spec fn lowpass_step_s(b1: i64, z: i64, input: i64) -> i64 {
    flush_s(q_add_s(q_mul_s(input, q_sub_s(Q_ONE, b1)), q_mul_s(z, b1)))
}

/// The effective feedback coefficient for a given `absorb`, at this filter's
/// rate scale.
pub open spec fn absorb_coef_s(t: i64, absorb: i64) -> i64 {
    q_clamp_s(q_mul_s(absorb, t), 0, Q_ONE)
}

pub struct OnePoleFilter {
    t: i64,
    z: Lanes,
}

impl OnePoleFilter {
    pub closed spec fn wf(self) -> bool {
        0 <= self.t
    }

    pub closed spec fn t(self) -> i64 {
        self.t
    }

    pub closed spec fn z(self) -> Lanes {
        self.z
    }

    pub open spec fn is_silent(self) -> bool {
        self.z().is_zero()
    }

    pub fn new(sample_rate: u32) -> (r: OnePoleFilter)
        requires
            1 <= sample_rate,
        ensures
            r.wf(),
            r.is_silent(),
            r.t() == q_clamp_s(
                q_div_s(REFERENCE_RATE, sat_s((sample_rate as int) * (SCALE as int))),
                0,
                (Q_ONE * 8) as i64,
            ),
    {
        proof {
            assert((sample_rate as int) * (SCALE as int) >= SCALE as int
                && (sample_rate as int) * (SCALE as int) <= 0xffffffff * 0x40000000)
                by (nonlinear_arith)
                requires 1 <= sample_rate as int <= 0xffffffff,
            ;
        }
        let srq: i64 = (sample_rate as i64) * SCALE;
        let t = q_clamp(q_div(REFERENCE_RATE, srq), 0, Q_ONE * 8);
        OnePoleFilter { t, z: Lanes::zero() }
    }

    /// Lowpasses all four lanes by the absorb-scaled coefficient. Silence in,
    /// silent state: silence out.
    pub fn process(&mut self, input: Lanes, absorb: i64) -> (r: Lanes)
        requires
            old(self).wf(),
        ensures
            final(self).wf(),
            final(self).t() == old(self).t(),
            r.a == lowpass_step_s(absorb_coef_s(old(self).t(), absorb), old(self).z().a, input.a),
            r.b == lowpass_step_s(absorb_coef_s(old(self).t(), absorb), old(self).z().b, input.b),
            r.c == lowpass_step_s(absorb_coef_s(old(self).t(), absorb), old(self).z().c, input.c),
            r.d == lowpass_step_s(absorb_coef_s(old(self).t(), absorb), old(self).z().d, input.d),
            final(self).z() == r,
            old(self).is_silent() && input.is_zero() ==> r.is_zero() && final(self).is_silent(),
    {
        let b1 = q_clamp(q_mul(absorb, self.t), 0, Q_ONE);
        let a0 = q_sub(Q_ONE, b1);
        proof {
            crate::qmath::lemma_q_mul_zero(a0);
            crate::qmath::lemma_q_mul_zero(b1);
        }
        let z = Lanes {
            a: DcBlock::flush_denormal(q_add(q_mul(input.a, a0), q_mul(self.z.a, b1))),
            b: DcBlock::flush_denormal(q_add(q_mul(input.b, a0), q_mul(self.z.b, b1))),
            c: DcBlock::flush_denormal(q_add(q_mul(input.c, a0), q_mul(self.z.c, b1))),
            d: DcBlock::flush_denormal(q_add(q_mul(input.d, a0), q_mul(self.z.d, b1))),
        };
        self.z = z;
        z
    }
}

} // verus!
