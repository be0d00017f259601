//! Tilt equalizer: a shelving EQ derived from an analog bridged-T RC
//! prototype. The tilt parameter splits a potentiometer; closed-form
//! s-domain coefficients follow from the fixed component values, are mapped
//! to the z-domain by a bilinear transform, and applied per channel by a
//! canonical second-order section.
//!
//! The numerator and denominator share their structure: each coefficient is
//! a base constant plus the two halves of the split potentiometer weighted
//! one way for the numerator and the other way for the denominator. At the
//! centre position the halves coincide, the two polynomials become equal,
//! and the filter is exactly the identity — proved below.

pub mod bilinear_transform;
pub mod biquad_filter;

use vstd::prelude::*;
use crate::qmath::{
    Q_ONE, Q_HALF, q_mul_s, q_add_s, q_sub_s, q_clamp_s, q_mul, q_add, q_sub, q_clamp,
    lemma_q_mul_unit_bound,
};
use bilinear_transform::{BilinearTransform, bilinear_normalize_s, HALF_PERIOD_SCALE};
use biquad_filter::{BiquadFilter, biquad_out_s, biquad_z0_s, biquad_z1_s, Coefficients};

verus! {

/// The split potentiometer's total resistance (in the filter's normalized
/// units).
pub const R_TILT: i64 = 150323855360;

/// Base, numerator-side and denominator-side weights of the three
/// polynomial coefficients, precomputed from the fixed R and C values.
pub const TILT_U0: i64 = 175372920674058;

pub const TILT_V0: i64 = 3731338737746;

pub const TILT_W0: i64 = 77943520299581;

pub const TILT_U1: i64 = 14554355675955;

pub const TILT_V1: i64 = 309667142042;

pub const TILT_W1: i64 = 282608848077;

pub const TILT_U2: i64 = 50465865728;

pub const TILT_V2: i64 = 1073741824;

/// The s-domain coefficients for a tilt position in `[0, 1]`: the numerator
/// weights the lower pot half by `V` and the upper by `W`, the denominator
/// the other way around.
pub open spec fn s_coefficients_s(tilt: i64) -> Coefficients {
    let r_a = q_mul_s(R_TILT, q_clamp_s(tilt, 0, Q_ONE));
    let r_b = q_sub_s(R_TILT, r_a);
    Coefficients {
        b0: q_add_s(q_add_s(TILT_U0, q_mul_s(TILT_V0, r_b)), q_mul_s(TILT_W0, r_a)),
        b1: q_add_s(q_add_s(TILT_U1, q_mul_s(TILT_V1, r_b)), q_mul_s(TILT_W1, r_a)),
        b2: q_add_s(q_add_s(TILT_U2, q_mul_s(TILT_V2, r_b)), 0),
        a0: q_add_s(q_add_s(TILT_U0, q_mul_s(TILT_V0, r_a)), q_mul_s(TILT_W0, r_b)),
        a1: q_add_s(q_add_s(TILT_U1, q_mul_s(TILT_V1, r_a)), q_mul_s(TILT_W1, r_b)),
        a2: q_add_s(q_add_s(TILT_U2, q_mul_s(TILT_V2, r_a)), 0),
    }
}

/// At the centre position the two pot halves are equal, so numerator and
/// denominator coincide coefficient by coefficient, and each is at least
/// its base constant.
pub proof fn lemma_flat_s_coefficients()
    ensures
        s_coefficients_s(Q_HALF).b0 == s_coefficients_s(Q_HALF).a0,
        s_coefficients_s(Q_HALF).b1 == s_coefficients_s(Q_HALF).a1,
        s_coefficients_s(Q_HALF).b2 == s_coefficients_s(Q_HALF).a2,
        s_coefficients_s(Q_HALF).a0 >= TILT_U0,
        s_coefficients_s(Q_HALF).a1 >= 0,
        s_coefficients_s(Q_HALF).a2 >= 0,
{
    assert(q_clamp_s(Q_HALF, 0, Q_ONE) == Q_HALF);
    assert(q_mul_s(R_TILT, Q_HALF) == 75161927680);
    let r = 75161927680i64;
    assert((TILT_V0 as int) * r >= 0 && (TILT_W0 as int) * r >= 0 && (TILT_V1 as int) * r >= 0
        && (TILT_W1 as int) * r >= 0 && (TILT_V2 as int) * r >= 0) by (nonlinear_arith)
        requires
            TILT_V0 as int >= 0,
            TILT_W0 as int >= 0,
            TILT_V1 as int >= 0,
            TILT_W1 as int >= 0,
            TILT_V2 as int >= 0,
            r >= 0,
    ;
    vstd::arithmetic::div_mod::lemma_div_pos_is_pos((TILT_V0 as int) * r, crate::qmath::SCALE as int);
    vstd::arithmetic::div_mod::lemma_div_pos_is_pos((TILT_W0 as int) * r, crate::qmath::SCALE as int);
    vstd::arithmetic::div_mod::lemma_div_pos_is_pos((TILT_V1 as int) * r, crate::qmath::SCALE as int);
    vstd::arithmetic::div_mod::lemma_div_pos_is_pos((TILT_W1 as int) * r, crate::qmath::SCALE as int);
    vstd::arithmetic::div_mod::lemma_div_pos_is_pos((TILT_V2 as int) * r, crate::qmath::SCALE as int);
}

pub struct TiltFilter {
    bilinear_transform: BilinearTransform,
    biquad_filter: BiquadFilter,
}

impl TiltFilter {
    pub closed spec fn wf(self) -> bool {
        self.bilinear_transform.wf()
    }

    /// The biquad histories of both channels.
    pub closed spec fn state(self) -> (i64, i64, i64, i64) {
        self.biquad_filter.state()
    }

    pub closed spec fn is_silent(self) -> bool {
        self.biquad_filter.is_silent()
    }

    pub closed spec fn th(self) -> i64 {
        self.bilinear_transform.th()
    }

    pub fn new(sample_rate: u32) -> (r: TiltFilter)
        requires
            1 <= sample_rate,
        ensures
            r.wf(),
            r.is_silent(),
            r.th() == crate::qmath::q_clamp_s(
                crate::qmath::q_div_s(
                    HALF_PERIOD_SCALE,
                    crate::qmath::sat_s((sample_rate as int) * (crate::qmath::SCALE as int)),
                ),
                0,
                HALF_PERIOD_SCALE,
            ),
    {
        TiltFilter {
            bilinear_transform: BilinearTransform::new(sample_rate),
            biquad_filter: BiquadFilter::new(),
        }
    }

    /// One tilted sample pair. At the centre position (`tilt == Q_HALF`)
    /// the filter, from silent state, is exactly the identity and its state
    /// stays silent; a zero input into silent state likewise stays silent.
    pub fn process(&mut self, input: (i64, i64), tilt: i64) -> (r: (i64, i64))
        requires
            old(self).wf(),
            -0x7fffffffffffffff <= input.0,
            -0x7fffffffffffffff <= input.1,
        ensures
            final(self).wf(),
            final(self).th() == old(self).th(),
            ({
                let z = bilinear_normalize_s(s_coefficients_s(tilt), old(self).th());
                &&& r.0 == biquad_out_s(z, old(self).state().0, input.0)
                &&& r.1 == biquad_out_s(z, old(self).state().2, input.1)
                &&& final(self).state().0 == biquad_z0_s(z, old(self).state().1, input.0, r.0)
                &&& final(self).state().1 == biquad_z1_s(z, input.0, r.0)
                &&& final(self).state().2 == biquad_z0_s(z, old(self).state().3, input.1, r.1)
                &&& final(self).state().3 == biquad_z1_s(z, input.1, r.1)
            }),
            tilt == Q_HALF && old(self).is_silent() ==> r == input && final(self).is_silent(),
            input == (0i64, 0i64) && old(self).is_silent()
                ==> r == (0i64, 0i64) && final(self).is_silent(),
    {
        let s_domain_coefficients = self.get_s_domain_coefficients(tilt);
        let z_domain_coefficients = self.bilinear_transform.process(s_domain_coefficients);
        proof {
            if tilt == Q_HALF {
                lemma_flat_s_coefficients();
            }
        }
        self.biquad_filter.process(input, z_domain_coefficients)
    }

    /// The closed-form s-domain coefficients for this tilt position.
    fn get_s_domain_coefficients(&self, tilt: i64) -> (r: Coefficients)
        ensures
            r == s_coefficients_s(tilt),
    {
        let r_a = q_mul(R_TILT, q_clamp(tilt, 0, Q_ONE));
        proof {
            lemma_q_mul_unit_bound(q_clamp_s(tilt, 0, Q_ONE), R_TILT);
            assert(q_mul_s(R_TILT, q_clamp_s(tilt, 0, Q_ONE)) == q_mul_s(
                q_clamp_s(tilt, 0, Q_ONE),
                R_TILT,
            )) by {
                assert((R_TILT as int) * (q_clamp_s(tilt, 0, Q_ONE) as int) == (q_clamp_s(
                    tilt,
                    0,
                    Q_ONE,
                ) as int) * (R_TILT as int)) by (nonlinear_arith);
            }
        }
        let r_b = q_sub(R_TILT, r_a);
        Coefficients {
            b0: q_add(q_add(TILT_U0, q_mul(TILT_V0, r_b)), q_mul(TILT_W0, r_a)),
            b1: q_add(q_add(TILT_U1, q_mul(TILT_V1, r_b)), q_mul(TILT_W1, r_a)),
            b2: q_add(q_add(TILT_U2, q_mul(TILT_V2, r_b)), 0),
            a0: q_add(q_add(TILT_U0, q_mul(TILT_V0, r_a)), q_mul(TILT_W0, r_b)),
            a1: q_add(q_add(TILT_U1, q_mul(TILT_V1, r_a)), q_mul(TILT_W1, r_b)),
            a2: q_add(q_add(TILT_U2, q_mul(TILT_V2, r_a)), 0),
        }
    }
}

} // verus!
