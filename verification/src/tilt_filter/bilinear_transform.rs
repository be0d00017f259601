//! Bilinear transform: maps the analog (s-domain) second-order coefficients
//! to digital (z-domain) ones at the configured sample rate, normalized so
//! the output denominator leads with one.

use vstd::prelude::*;
use crate::qmath::{
    Q_ONE, Q_TWO, SCALE, sat_s, q_mul_s, q_add_s, q_sub_s, q_div_s, q_clamp_s, q_mul, q_add,
    q_sub, q_div, q_clamp, lemma_q_mul_nonneg,
};
use super::biquad_filter::Coefficients;

verus! {

/// 500000 in fixed point: half of the microseconds in a second.
pub const HALF_PERIOD_SCALE: i64 = 536870912000000;

/// One polynomial through the transform: the linear term scaled by the
/// half-period, the quadratic term by its square, then the three stencil
/// sums.
pub open spec fn bilinear_poly_s(x0: i64, x1: i64, x2: i64, th: i64) -> (i64, i64, i64) {
    let y1 = q_mul_s(x1, th);
    let y2 = q_mul_s(x2, q_mul_s(th, th));
    (
        q_add_s(q_add_s(x0, y1), y2),
        q_sub_s(q_mul_s(y2, Q_TWO), q_mul_s(x0, Q_TWO)),
        q_add_s(q_sub_s(x0, y1), y2),
    )
}

/// Both polynomials transformed, then everything divided by the leading
/// denominator coefficient (held at one or above).
pub open spec fn bilinear_normalize_s(c: Coefficients, th: i64) -> Coefficients {
    let nb = bilinear_poly_s(c.b0, c.b1, c.b2, th);
    let na = bilinear_poly_s(c.a0, c.a1, c.a2, th);
    let d = if na.0 < 1 { 1i64 } else { na.0 };
    Coefficients {
        b0: q_div_s(nb.0, d),
        b1: q_div_s(nb.1, d),
        b2: q_div_s(nb.2, d),
        a0: q_div_s(na.0, d),
        a1: q_div_s(na.1, d),
        a2: q_div_s(na.2, d),
    }
}

pub struct BilinearTransform {
    t_half: i64,
    t_quarter_sq: i64,
}

impl BilinearTransform {
    pub closed spec fn wf(self) -> bool {
        &&& 0 <= self.t_half
        &&& self.t_quarter_sq == q_mul_s(self.t_half, self.t_half)
    }

    /// Half the sample period, in microseconds.
    pub closed spec fn th(self) -> i64 {
        self.t_half
    }

    pub fn new(sample_rate: u32) -> (r: BilinearTransform)
        requires
            1 <= sample_rate,
        ensures
            r.wf(),
            r.th() == q_clamp_s(
                q_div_s(HALF_PERIOD_SCALE, sat_s((sample_rate as int) * (SCALE as int))),
                0,
                HALF_PERIOD_SCALE,
            ),
    {
        proof {
            assert((sample_rate as int) * (SCALE as int) >= SCALE as int
                && (sample_rate as int) * (SCALE as int) <= 0xffffffff * 0x40000000)
                by (nonlinear_arith)
                requires 1 <= sample_rate as int <= 0xffffffff,
            ;
        }
        let srq: i64 = (sample_rate as i64) * SCALE;
        let th = q_clamp(q_div(HALF_PERIOD_SCALE, srq), 0, HALF_PERIOD_SCALE);
        let tq = q_mul(th, th);
        BilinearTransform { t_half: th, t_quarter_sq: tq }
    }

    /// Transforms and normalizes one coefficient set. When numerator and
    /// denominator agree (with a nonnegative denominator leading at one or
    /// more), they still agree afterwards and the leading numerator
    /// coefficient is exactly one.
    pub fn process(&self, c: Coefficients) -> (r: Coefficients)
        requires
            self.wf(),
        ensures
            r == bilinear_normalize_s(c, self.th()),
            c.b0 == c.a0 && c.b1 == c.a1 && c.b2 == c.a2 && c.a0 >= 1 && c.a1 >= 0 && c.a2
                >= 0 ==> r.b0 == Q_ONE && r.b1 == r.a1 && r.b2 == r.a2,
    {
        let (b0, b1, b2) = self.transform_poly(c.b0, c.b1, c.b2);
        let (a0, a1, a2) = self.transform_poly(c.a0, c.a1, c.a2);
        let d = if a0 < 1 {
            1
        } else {
            a0
        };
        proof {
            if c.b0 == c.a0 && c.b1 == c.a1 && c.b2 == c.a2 && c.a0 >= 1 && c.a1 >= 0
                && c.a2 >= 0 {
                lemma_q_mul_nonneg(c.a1, self.t_half);
                lemma_q_mul_nonneg(c.a2, q_mul_s(self.t_half, self.t_half));
                assert(a0 >= 1);
                assert(d == a0);
                vstd::arithmetic::div_mod::lemma_div_multiples_vanish(
                    SCALE as int,
                    a0 as int,
                );
                assert((a0 as int) * (SCALE as int) == (a0 as int) * (SCALE as int));
                assert(q_div_s(a0, d) == Q_ONE);
            }
        }
        Coefficients {
            b0: q_div(b0, d),
            b1: q_div(b1, d),
            b2: q_div(b2, d),
            a0: q_div(a0, d),
            a1: q_div(a1, d),
            a2: q_div(a2, d),
        }
    }

    /// One polynomial through the transform stencil.
    fn transform_poly(&self, x0: i64, x1: i64, x2: i64) -> (r: (i64, i64, i64))
        requires
            self.wf(),
        ensures
            r == bilinear_poly_s(x0, x1, x2, self.th()),
    {
        let y1 = q_mul(x1, self.t_half);
        let y2 = q_mul(x2, self.t_quarter_sq);
        (
            q_add(q_add(x0, y1), y2),
            q_sub(q_mul(y2, Q_TWO), q_mul(x0, Q_TWO)),
            q_add(q_sub(x0, y1), y2),
        )
    }
}

} // verus!
