//! First-order DC blocker for the four feedback lanes: a differenced input
//! with a leaky integrator, so any constant offset in the feedback path dies
//! out instead of accumulating.

use vstd::prelude::*;
use crate::qmath::{Q_ONE, q_mul_s, q_add_s, q_sub_s, q_div_s, q_clamp_s, q_mul, q_add, q_sub,
    q_div, q_clamp};
use super::lanes::Lanes;

verus! {

/// 220.5 in fixed point: the blocker's corner scales with sample rate.
pub const DC_CORNER: i64 = 236760072192;

/// Magnitudes below this many fixed-point quanta are flushed to exact zero,
/// the fixed-point counterpart of denormal flushing.
pub const DENORMAL_EPSILON: i64 = 4;

/// Tiny residues become exact zero so decaying tails settle instead of
/// ringing forever in the last few quanta.
pub open spec fn flush_s(x: i64) -> i64 {
    if -DENORMAL_EPSILON < x && x < DENORMAL_EPSILON {
        0i64
    } else {
        x
    }
}

/// One DC-block step on a single lane: `y = x - x_prev + coeff * y_prev`.
pub open spec fn dc_step_s(coeff: i64, xm1: i64, ym1: i64, x: i64) -> i64 {
    q_add_s(q_sub_s(x, xm1), q_mul_s(coeff, ym1))
}

pub struct DcBlock {
    coeff: i64,
    xm1: Lanes,
    ym1: Lanes,
}

impl DcBlock {
    pub closed spec fn wf(self) -> bool {
        0 <= self.coeff <= Q_ONE
    }

    pub closed spec fn coeff(self) -> i64 {
        self.coeff
    }

    pub closed spec fn xm1(self) -> Lanes {
        self.xm1
    }

    pub closed spec fn ym1(self) -> Lanes {
        self.ym1
    }

    /// Silent filter state.
    pub open spec fn is_silent(self) -> bool {
        self.xm1().is_zero() && self.ym1().is_zero()
    }

    pub fn new(sample_rate: u32) -> (r: DcBlock)
        requires
            1 <= sample_rate,
        ensures
            r.wf(),
            r.is_silent(),
            r.coeff() == q_clamp_s(
                q_sub_s(Q_ONE, q_div_s(DC_CORNER, crate::qmath::sat_s(
                    (sample_rate as int) * (crate::qmath::SCALE as int),
                ))),
                0,
                Q_ONE,
            ),
    {
        proof {
            assert((sample_rate as int) * (crate::qmath::SCALE as int)
                >= crate::qmath::SCALE as int
                && (sample_rate as int) * (crate::qmath::SCALE as int)
                    <= 0xffffffff * 0x40000000)
                by (nonlinear_arith)
                requires 1 <= sample_rate as int <= 0xffffffff,
            ;
        }
        let srq: i64 = (sample_rate as i64) * crate::qmath::SCALE;
        let coeff = q_clamp(q_sub(Q_ONE, q_div(DC_CORNER, srq)), 0, Q_ONE);
        DcBlock { coeff, xm1: Lanes::zero(), ym1: Lanes::zero() }
    }

    /// Blocks DC on all four lanes and remembers the new history (flushed of
    /// tiny residues). Silence in, silent state: silence out.
    pub fn process(&mut self, x: Lanes) -> (y: Lanes)
        requires
            old(self).wf(),
        ensures
            final(self).wf(),
            final(self).coeff() == old(self).coeff(),
            y.a == dc_step_s(old(self).coeff(), old(self).xm1().a, old(self).ym1().a, x.a),
            y.b == dc_step_s(old(self).coeff(), old(self).xm1().b, old(self).ym1().b, x.b),
            y.c == dc_step_s(old(self).coeff(), old(self).xm1().c, old(self).ym1().c, x.c),
            y.d == dc_step_s(old(self).coeff(), old(self).xm1().d, old(self).ym1().d, x.d),
            final(self).xm1() == x,
            final(self).ym1().a == flush_s(y.a),
            final(self).ym1().b == flush_s(y.b),
            final(self).ym1().c == flush_s(y.c),
            final(self).ym1().d == flush_s(y.d),
            old(self).is_silent() && x.is_zero() ==> y.is_zero() && final(self).is_silent(),
    {
        proof {
            crate::qmath::lemma_q_mul_zero(self.coeff);
        }
        let y = Lanes {
            a: q_add(q_sub(x.a, self.xm1.a), q_mul(self.coeff, self.ym1.a)),
            b: q_add(q_sub(x.b, self.xm1.b), q_mul(self.coeff, self.ym1.b)),
            c: q_add(q_sub(x.c, self.xm1.c), q_mul(self.coeff, self.ym1.c)),
            d: q_add(q_sub(x.d, self.xm1.d), q_mul(self.coeff, self.ym1.d)),
        };
        self.xm1 = x;
        self.ym1 = Lanes {
            a: Self::flush_denormal(y.a),
            b: Self::flush_denormal(y.b),
            c: Self::flush_denormal(y.c),
            d: Self::flush_denormal(y.d),
        };
        y
    }

    /// Zeroes a value too small to matter, exactly as `flush_s` states.
    pub fn flush_denormal(x: i64) -> (r: i64)
        ensures
            r == flush_s(x),
    {
        if -DENORMAL_EPSILON < x && x < DENORMAL_EPSILON {
            0
        } else {
            x
        }
    }
}

} // verus!
