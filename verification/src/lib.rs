//! A stereo reverberation engine in saturating fixed-point arithmetic.
//!
//! Samples and control parameters are Q30 fixed-point numbers (`i64` values
//! standing for `x / SCALE`), so the whole signal path is total, free of
//! overflow, and exactly specified. The pipeline per sample: advance the
//! parameter smoothers, derive the dependent quantities, run the pre-delay
//! (forward or reversed), the feedback delay network, the tilt equalizer,
//! and finally the constant-power dry/wet mix against the untouched input.

pub mod qmath;
pub mod constants;
pub mod delay_line;
pub mod stereo_delay_line;
pub mod phasor;
pub mod smooth;
pub mod trig;
pub mod mix;
pub mod predelay;
pub mod taps;
pub mod tilt_filter;
pub mod params;
pub mod smooth_parameters;
pub mod one_pole_filter;
pub mod reverb_parameters;

pub use mix::Mix;
pub use params::Params;
pub use predelay::PreDelay;
pub use taps::Taps;
pub use tilt_filter::TiltFilter;

use vstd::prelude::*;
use crate::qmath::{
    Q_ONE, Q_THOUSAND, SCALE, sat_s, q_mul_s, q_sub_s, q_clamp_s, q_div_s, q_mul, q_sub,
};
use crate::tilt_filter::bilinear_transform::HALF_PERIOD_SCALE;
use crate::phasor::phasor_step_s;
use crate::tilt_filter::biquad_filter::{biquad_z0_s, biquad_z1_s};
use crate::constants::{MIN_PREDELAY, MAX_PREDELAY, MAX_SAMPLE_RATE};
use crate::smooth::{ExponentialSmooth, smooth_step_s};
use crate::predelay::predelay_out_s;
use crate::delay_line::write_s;
use crate::taps::lanes::Lanes;
use crate::tilt_filter::s_coefficients_s;
use crate::tilt_filter::bilinear_transform::bilinear_normalize_s;
use crate::tilt_filter::biquad_filter::biquad_out_s;
use crate::mix::mix_run_s;

verus! {

/// 3 in fixed point.
pub const Q_THREE: i64 = 3221225472;

/// 0.8 in fixed point: the top of the diffusion range.
pub const DIFFUSE_RANGE: i64 = 858993459;

/// One third in fixed point: absorption below this leaves the boundary
/// lossless.
pub const ABSORB_KNEE: i64 = 357913906;

/// 1.490214 in fixed point: re-ranges the absorb parameter so its maximum
/// coefficient caps at a 50 Hz cutoff.
pub const ABSORB_RERANGE: i64 = 1600105099;

/// The value a smoother hands out on its next step.
pub open spec fn next_value_s(s: ExponentialSmooth) -> i64 {
    smooth_step_s(s.current(), s.target(), s.coef())
}

/// The diffusion amount derived from `absorb`: saturating three times the
/// absorption, scaled into `[0, 0.8]`.
pub open spec fn diffuse_of_s(absorb: i64) -> i64 {
    let t = q_mul_s(absorb, Q_THREE);
    q_mul_s(if t > Q_ONE { Q_ONE } else { t }, DIFFUSE_RANGE)
}

/// The re-ranged absorption coefficient: zero below the knee, then scaled
/// so the documented maximum lands just under the stability cap.
pub open spec fn absorb_rerange_s(absorb: i64) -> i64 {
    let t = q_sub_s(absorb, ABSORB_KNEE);
    q_mul_s(if t < 0 { 0i64 } else { t }, ABSORB_RERANGE)
}

pub struct Reverb {
    predelay: PreDelay,
    taps: Taps,
    tilt_filter: TiltFilter,
}

/// The stereo output of one engine step, as a function of the previous
/// state, the advanced modulator phases and grain offsets in the final
/// state, the input pair, and the parameter smoothers before their step.
#[verifier::opaque]
pub open spec fn reverb_step_output(
    finalr: Reverb,
    prev: Reverb,
    input: (i64, i64),
    p: Params,
) -> (i64, i64) {
    let reverse_v = next_value_s(p.reverse);
    let predelay_v = next_value_s(p.predelay);
    let size_v = next_value_s(p.size);
    let depth_v = next_value_s(p.depth);
    let tilt_v = next_value_s(p.tilt);
    let mix_v = next_value_s(p.mix);
    let t = q_clamp_s(predelay_v, MIN_PREDELAY, MAX_PREDELAY);
    let taps_out = crate::taps::step_output(
        finalr.taps_part(),
        prev.taps_part(),
        size_v,
        p.speed,
        depth_v,
    );
    let z = bilinear_normalize_s(s_coefficients_s(tilt_v), prev.tilt_part().th());
    let tilt_out = (
        biquad_out_s(z, prev.tilt_part().state().0, taps_out.0),
        biquad_out_s(z, prev.tilt_part().state().2, taps_out.1),
    );
    mix_run_s(input, tilt_out, mix_v)
}

/// What the pre-delay stage hands the delay network in one engine step.
#[verifier::opaque]
pub open spec fn reverb_step_predelay(finalr: Reverb, prev: Reverb, p: Params) -> (i64, i64) {
    let reverse_v = next_value_s(p.reverse);
    let predelay_v = next_value_s(p.predelay);
    let t = q_clamp_s(predelay_v, MIN_PREDELAY, MAX_PREDELAY);
    predelay_out_s(
        prev.predelay_part().view_left(),
        prev.predelay_part().view_right(),
        prev.predelay_part().spr(),
        finalr.predelay_part().phase(),
        t,
        reverse_v,
    )
}

/// What one engine step writes back into the four network delay lines.
#[verifier::opaque]
pub open spec fn reverb_step_feedback(
    finalr: Reverb,
    prev: Reverb,
    input: (i64, i64),
    p: Params,
) -> Lanes {
    let size_v = next_value_s(p.size);
    let depth_v = next_value_s(p.depth);
    let absorb_v = next_value_s(p.absorb);
    let decay_v = next_value_s(p.decay);
    let shimmer_v = next_value_s(p.shimmer);
    crate::taps::step_feedback(
        finalr.taps_part(),
        prev.taps_part(),
        reverb_step_predelay(finalr, prev, p),
        size_v,
        p.speed,
        depth_v,
        diffuse_of_s(absorb_v),
        absorb_rerange_s(absorb_v),
        decay_v,
        shimmer_v,
    )
}

impl Reverb {
    pub closed spec fn wf(self) -> bool {
        &&& self.predelay.wf()
        &&& self.taps.wf()
        &&& self.tilt_filter.wf()
    }

    /// Every signal store in the engine holds silence.
    pub closed spec fn is_silent(self) -> bool {
        &&& crate::delay_line::all_zero(self.predelay.view_left())
        &&& crate::delay_line::all_zero(self.predelay.view_right())
        &&& self.taps.is_silent()
        &&& self.tilt_filter.is_silent()
    }

    pub closed spec fn predelay_part(self) -> PreDelay {
        self.predelay
    }

    pub closed spec fn taps_part(self) -> Taps {
        self.taps
    }

    pub closed spec fn tilt_part(self) -> TiltFilter {
        self.tilt_filter
    }

    /// A fresh, silent engine for the given sample rate. All buffers are
    /// sized here, once, and every rate-derived quantity — the pre-delay
    /// line's capacity and rate factors, the whole network configuration,
    /// and the tilt EQ's pre-warp — is pinned to `sample_rate` for the
    /// engine's lifetime.
    pub fn new(sample_rate: u32) -> (r: Reverb)
        requires
            1 <= sample_rate <= MAX_SAMPLE_RATE,
        ensures
            r.wf(),
            r.is_silent(),
            crate::taps::configured_for(r.taps_part(), sample_rate),
            r.taps_part().lfo_phase() == 0,
            r.taps_part().activation_gain() == 0,
            r.predelay_part().phase() == 0,
            r.predelay_part().spr() == (sample_rate as int) * (SCALE as int) / 1000,
            r.predelay_part().srq() == sat_s((sample_rate as int) * (SCALE as int)),
            r.predelay_part().view_left().len() == (sample_rate as int) * 510 / 1000 + 4,
            r.predelay_part().view_right().len() == r.predelay_part().view_left().len(),
            forall|time: i64| 0 <= time <= 510 * (SCALE as int)
                ==> #[trigger] q_mul_s(time, r.predelay_part().spr()) <= (r.predelay_part()
                .view_left().len() - 2) * (SCALE as int),
            r.tilt_part().th() == q_clamp_s(
                q_div_s(HALF_PERIOD_SCALE, sat_s((sample_rate as int) * (SCALE as int))),
                0,
                HALF_PERIOD_SCALE,
            ),
    {
        Reverb {
            predelay: PreDelay::new(sample_rate),
            taps: Taps::new(sample_rate),
            tilt_filter: TiltFilter::new(sample_rate),
        }
    }

    /// One engine step: advance the parameter smoothers, derive the
    /// dependent quantities, then pre-delay, delay network, tilt EQ, and
    /// the constant-power mix against the dry input. Zero input into a
    /// silent engine yields zero output and leaves the engine silent.
    pub fn process(&mut self, input: (i64, i64), params: &mut Params) -> (r: (i64, i64))
        requires
            old(self).wf(),
            old(params).wf(),
            -0x7fffffffffffffff <= input.0,
            -0x7fffffffffffffff <= input.1,
        ensures
            final(self).wf(),
            final(params).wf(),
            r == reverb_step_output(*final(self), *old(self), input, *old(params)),
            -0x7fffffffffffffff <= r.0 <= 0x7fffffffffffffff,
            -0x7fffffffffffffff <= r.1 <= 0x7fffffffffffffff,
            final(params).reverse.current() == next_value_s(old(params).reverse),
            final(params).predelay.current() == next_value_s(old(params).predelay),
            final(params).size.current() == next_value_s(old(params).size),
            final(params).depth.current() == next_value_s(old(params).depth),
            final(params).absorb.current() == next_value_s(old(params).absorb),
            final(params).decay.current() == next_value_s(old(params).decay),
            final(params).tilt.current() == next_value_s(old(params).tilt),
            final(params).shimmer.current() == next_value_s(old(params).shimmer),
            final(params).mix.current() == next_value_s(old(params).mix),
            final(params).speed == old(params).speed,
            final(params).reverse.target() == old(params).reverse.target()
                && final(params).reverse.coef() == old(params).reverse.coef(),
            final(params).predelay.target() == old(params).predelay.target()
                && final(params).predelay.coef() == old(params).predelay.coef(),
            final(params).size.target() == old(params).size.target()
                && final(params).size.coef() == old(params).size.coef(),
            final(params).depth.target() == old(params).depth.target()
                && final(params).depth.coef() == old(params).depth.coef(),
            final(params).absorb.target() == old(params).absorb.target()
                && final(params).absorb.coef() == old(params).absorb.coef(),
            final(params).decay.target() == old(params).decay.target()
                && final(params).decay.coef() == old(params).decay.coef(),
            final(params).tilt.target() == old(params).tilt.target()
                && final(params).tilt.coef() == old(params).tilt.coef(),
            final(params).shimmer.target() == old(params).shimmer.target()
                && final(params).shimmer.coef() == old(params).shimmer.coef(),
            final(params).mix.target() == old(params).mix.target()
                && final(params).mix.coef() == old(params).mix.coef(),
            final(params).is_initialized == old(params).is_initialized,
            final(self).predelay_part().phase() == if q_clamp_s(
                next_value_s(old(params).reverse),
                0,
                Q_ONE,
            ) == 0 {
                old(self).predelay_part().phase()
            } else {
                phasor_step_s(
                    old(self).predelay_part().phase(),
                    old(self).predelay_part().srq(),
                    q_div_s(
                        Q_THOUSAND,
                        q_clamp_s(
                            next_value_s(old(params).predelay),
                            MIN_PREDELAY,
                            MAX_PREDELAY,
                        ),
                    ),
                )
            },
            final(self).tilt_part().th() == old(self).tilt_part().th(),
            ({
                let z = crate::tilt_filter::bilinear_transform::bilinear_normalize_s(
                    crate::tilt_filter::s_coefficients_s(next_value_s(old(params).tilt)),
                    old(self).tilt_part().th(),
                );
                let ti = crate::taps::step_output(
                    final(self).taps_part(),
                    old(self).taps_part(),
                    next_value_s(old(params).size),
                    old(params).speed,
                    next_value_s(old(params).depth),
                );
                let y0 = biquad_out_s(z, old(self).tilt_part().state().0, ti.0);
                let y1 = biquad_out_s(z, old(self).tilt_part().state().2, ti.1);
                &&& final(self).tilt_part().state().0 == biquad_z0_s(
                    z,
                    old(self).tilt_part().state().1,
                    ti.0,
                    y0,
                )
                &&& final(self).tilt_part().state().1 == biquad_z1_s(z, ti.0, y0)
                &&& final(self).tilt_part().state().2 == biquad_z0_s(
                    z,
                    old(self).tilt_part().state().3,
                    ti.1,
                    y1,
                )
                &&& final(self).tilt_part().state().3 == biquad_z1_s(z, ti.1, y1)
            }),
            final(self).predelay_part().view_left() == crate::delay_line::write_s(
                old(self).predelay_part().view_left(),
                input.0,
            ),
            final(self).predelay_part().view_right() == crate::delay_line::write_s(
                old(self).predelay_part().view_right(),
                input.1,
            ),
            ({
                let w = reverb_step_feedback(*final(self), *old(self), input, *old(params));
                &&& final(self).taps_part().line0_view() == write_s(
                    old(self).taps_part().line0_view(),
                    w.a,
                )
                &&& final(self).taps_part().line1_view() == write_s(
                    old(self).taps_part().line1_view(),
                    w.b,
                )
                &&& final(self).taps_part().line2_view() == write_s(
                    old(self).taps_part().line2_view(),
                    w.c,
                )
                &&& final(self).taps_part().line3_view() == write_s(
                    old(self).taps_part().line3_view(),
                    w.d,
                )
            }),
            ({
                let p = *old(params);
                crate::taps::step_relation(
                    final(self).taps_part(),
                    old(self).taps_part(),
                    reverb_step_predelay(*final(self), *old(self), p),
                    next_value_s(p.size),
                    p.speed,
                    next_value_s(p.depth),
                    diffuse_of_s(next_value_s(p.absorb)),
                    absorb_rerange_s(next_value_s(p.absorb)),
                    next_value_s(p.decay),
                    next_value_s(p.shimmer),
                )
            }),
            input == (0i64, 0i64) && old(self).is_silent()
                ==> r == (0i64, 0i64) && final(self).is_silent(),
    {
        let reverse = params.reverse.next();
        let predelay = params.predelay.next();
        let size = params.size.next();
        let speed = params.speed;
        let depth = params.depth.next();
        let absorb = params.absorb.next();
        let decay = params.decay.next();
        let tilt = params.tilt.next();
        let shimmer = params.shimmer.next();
        let mix = params.mix.next();
        let diffuse_raw = q_mul(absorb, Q_THREE);
        let diffuse = q_mul(
            if diffuse_raw > Q_ONE {
                Q_ONE
            } else {
                diffuse_raw
            },
            DIFFUSE_RANGE,
        );
        let absorb_shift = q_sub(absorb, ABSORB_KNEE);
        let absorb2 = q_mul(
            if absorb_shift < 0 {
                0
            } else {
                absorb_shift
            },
            ABSORB_RERANGE,
        );

        let predelay_output = self.predelay.process(input, predelay, reverse);
        let taps_output = self.taps.process(
            predelay_output,
            size,
            speed,
            depth,
            diffuse,
            absorb2,
            decay,
            shimmer,
        );

        let tilt_filter_output = self.tilt_filter.process(taps_output, tilt);
        let out = Mix::run(input, tilt_filter_output, mix);
        proof {
            reveal(reverb_step_output);
            reveal(reverb_step_predelay);
            reveal(reverb_step_feedback);
            assert(predelay_output == reverb_step_predelay(*self, *old(self), *old(params)));
            assert(diffuse == diffuse_of_s(next_value_s(old(params).absorb)));
            assert(absorb2 == absorb_rerange_s(next_value_s(old(params).absorb)));
            if input == (0i64, 0i64) && old(self).is_silent() {
                assert(predelay_output == (0i64, 0i64));
                assert(taps_output == (0i64, 0i64));
                assert(tilt_filter_output == (0i64, 0i64));
                assert(out == (0i64, 0i64));
                assert(self.is_silent());
            }
        }
        out
    }
}

} // verus!
