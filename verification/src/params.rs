//! The engine's control parameters, each behind its own smoother with an
//! independently tuned reaction rate, so automation never clicks. Incoming
//! values are clamped to the documented ranges, then the depth and tilt
//! curves are warped before smoothing.

use vstd::prelude::*;
use crate::qmath::{
    Q_ONE, Q_HALF, q_mul_s, q_add_s, q_abs_s, q_clamp_s, q_mul, q_add, q_abs, q_clamp,
};
use crate::constants::{MIN_PREDELAY, MAX_PREDELAY, MIN_SIZE, MAX_SIZE, MAX_DEPTH};
use crate::smooth::{ExponentialSmooth, smooth_coef_s};

verus! {

/// 1.2 in fixed point: the top of the decay range.
pub const MAX_DECAY: i64 = 1288490189;

/// 50 in fixed point: the top of the modulation speed range, in Hz.
pub const MAX_SPEED: i64 = 53687091200;

/// 0.02 in fixed point: the bottom of the modulation speed range, in Hz.
pub const MIN_SPEED: i64 = 21474836;

/// 12 in fixed point: the reaction rate (Hz) of most parameter smoothers.
pub const SMOOTH_FREQ_DEFAULT: i64 = 12884901888;

/// 7 in fixed point: the pre-delay smoother's reaction rate in Hz.
pub const SMOOTH_FREQ_PREDELAY: i64 = 7516192768;

/// 2 in fixed point: the size smoother's reaction rate in Hz.
pub const SMOOTH_FREQ_SIZE: i64 = 2147483648;

/// The signed-square warp that gives depth and tilt a finer touch near
/// zero: `x * |x|`.
pub open spec fn signed_square_s(x: i64) -> i64 {
    q_mul_s(x, q_abs_s(x))
}

/// The depth actually smoothed: the signed square scaled to milliseconds of
/// excursion.
pub open spec fn depth_warp_s(depth: i64) -> i64 {
    q_mul_s(signed_square_s(q_clamp_s(depth, (-Q_ONE) as i64, Q_ONE)), MAX_DEPTH)
}

/// The tilt actually smoothed: the signed square folded into `[0, 1]`.
pub open spec fn tilt_warp_s(tilt: i64) -> i64 {
    q_add_s(
        q_mul_s(signed_square_s(q_clamp_s(tilt, (-Q_ONE) as i64, Q_ONE)), Q_HALF),
        Q_HALF,
    )
}

pub struct Params {
    pub reverse: ExponentialSmooth,
    pub predelay: ExponentialSmooth,
    pub size: ExponentialSmooth,
    pub speed: i64,
    pub depth: ExponentialSmooth,
    pub absorb: ExponentialSmooth,
    pub decay: ExponentialSmooth,
    pub tilt: ExponentialSmooth,
    pub shimmer: ExponentialSmooth,
    pub mix: ExponentialSmooth,
    pub is_initialized: bool,
}

impl Params {
    pub open spec fn wf(self) -> bool {
        &&& self.reverse.wf()
        &&& self.predelay.wf()
        &&& self.size.wf()
        &&& self.depth.wf()
        &&& self.absorb.wf()
        &&& self.decay.wf()
        &&& self.tilt.wf()
        &&& self.shimmer.wf()
        &&& self.mix.wf()
    }

    pub open spec fn initialized(self) -> bool {
        self.is_initialized
    }

    pub fn new(sample_rate: u32) -> (r: Params)
        requires
            1 <= sample_rate,
        ensures
            r.wf(),
            !r.initialized(),
            r.speed == 0,
            r.reverse.coef() == smooth_coef_s(sample_rate, SMOOTH_FREQ_DEFAULT),
            r.predelay.coef() == smooth_coef_s(sample_rate, SMOOTH_FREQ_PREDELAY),
            r.size.coef() == smooth_coef_s(sample_rate, SMOOTH_FREQ_SIZE),
            r.depth.coef() == smooth_coef_s(sample_rate, SMOOTH_FREQ_DEFAULT),
            r.absorb.coef() == smooth_coef_s(sample_rate, SMOOTH_FREQ_DEFAULT),
            r.decay.coef() == smooth_coef_s(sample_rate, SMOOTH_FREQ_DEFAULT),
            r.tilt.coef() == smooth_coef_s(sample_rate, SMOOTH_FREQ_DEFAULT),
            r.shimmer.coef() == smooth_coef_s(sample_rate, SMOOTH_FREQ_DEFAULT),
            r.mix.coef() == smooth_coef_s(sample_rate, SMOOTH_FREQ_DEFAULT),
            r.reverse.current() == 0 && r.reverse.target() == 0,
            r.predelay.current() == 0 && r.predelay.target() == 0,
            r.size.current() == 0 && r.size.target() == 0,
            r.depth.current() == 0 && r.depth.target() == 0,
            r.absorb.current() == 0 && r.absorb.target() == 0,
            r.decay.current() == 0 && r.decay.target() == 0,
            r.tilt.current() == 0 && r.tilt.target() == 0,
            r.shimmer.current() == 0 && r.shimmer.target() == 0,
            r.mix.current() == 0 && r.mix.target() == 0,
    {
        Params {
            reverse: ExponentialSmooth::new(sample_rate, SMOOTH_FREQ_DEFAULT),
            predelay: ExponentialSmooth::new(sample_rate, SMOOTH_FREQ_PREDELAY),
            size: ExponentialSmooth::new(sample_rate, SMOOTH_FREQ_SIZE),
            speed: 0,
            depth: ExponentialSmooth::new(sample_rate, SMOOTH_FREQ_DEFAULT),
            absorb: ExponentialSmooth::new(sample_rate, SMOOTH_FREQ_DEFAULT),
            decay: ExponentialSmooth::new(sample_rate, SMOOTH_FREQ_DEFAULT),
            tilt: ExponentialSmooth::new(sample_rate, SMOOTH_FREQ_DEFAULT),
            shimmer: ExponentialSmooth::new(sample_rate, SMOOTH_FREQ_DEFAULT),
            mix: ExponentialSmooth::new(sample_rate, SMOOTH_FREQ_DEFAULT),
            is_initialized: false,
        }
    }

    /// Hands the engine a fresh set of control values, clamped to their
    /// documented ranges and warped where the curve calls for it. The first
    /// call snaps every smoother (no ramp-in from zero); later calls only
    /// retarget them.
    pub fn set(
        &mut self,
        reverse: i64,
        predelay: i64,
        size: i64,
        speed: i64,
        depth: i64,
        absorb: i64,
        decay: i64,
        tilt: i64,
        shimmer: i64,
        mix: i64,
    )
        requires
            old(self).wf(),
        ensures
            final(self).wf(),
            final(self).initialized(),
            final(self).speed == q_clamp_s(speed, MIN_SPEED, MAX_SPEED),
            final(self).reverse.target() == q_clamp_s(reverse, 0, Q_ONE),
            final(self).predelay.target() == q_clamp_s(predelay, MIN_PREDELAY, MAX_PREDELAY),
            final(self).size.target() == q_clamp_s(size, MIN_SIZE, MAX_SIZE),
            final(self).depth.target() == depth_warp_s(depth),
            final(self).absorb.target() == q_clamp_s(absorb, 0, Q_ONE),
            final(self).decay.target() == q_clamp_s(decay, 0, MAX_DECAY),
            final(self).tilt.target() == tilt_warp_s(tilt),
            final(self).shimmer.target() == q_clamp_s(shimmer, 0, Q_ONE),
            final(self).mix.target() == q_clamp_s(mix, 0, Q_ONE),
            old(self).initialized() ==> {
                &&& final(self).reverse.current() == old(self).reverse.current()
                &&& final(self).predelay.current() == old(self).predelay.current()
                &&& final(self).size.current() == old(self).size.current()
                &&& final(self).depth.current() == old(self).depth.current()
                &&& final(self).absorb.current() == old(self).absorb.current()
                &&& final(self).decay.current() == old(self).decay.current()
                &&& final(self).tilt.current() == old(self).tilt.current()
                &&& final(self).shimmer.current() == old(self).shimmer.current()
                &&& final(self).mix.current() == old(self).mix.current()
            },
            !old(self).initialized() ==> {
                &&& final(self).reverse.current() == final(self).reverse.target()
                &&& final(self).predelay.current() == final(self).predelay.target()
                &&& final(self).size.current() == final(self).size.target()
                &&& final(self).depth.current() == final(self).depth.target()
                &&& final(self).absorb.current() == final(self).absorb.target()
                &&& final(self).decay.current() == final(self).decay.target()
                &&& final(self).tilt.current() == final(self).tilt.target()
                &&& final(self).shimmer.current() == final(self).shimmer.target()
                &&& final(self).mix.current() == final(self).mix.target()
            },
    {
        self.speed = q_clamp(speed, MIN_SPEED, MAX_SPEED);
        let reverse_c = q_clamp(reverse, 0, Q_ONE);
        let predelay_c = q_clamp(predelay, MIN_PREDELAY, MAX_PREDELAY);
        let size_c = q_clamp(size, MIN_SIZE, MAX_SIZE);
        let depth_c = q_clamp(depth, -Q_ONE, Q_ONE);
        let depth_w = q_mul(q_mul(depth_c, q_abs(depth_c)), MAX_DEPTH);
        let absorb_c = q_clamp(absorb, 0, Q_ONE);
        let decay_c = q_clamp(decay, 0, MAX_DECAY);
        let tilt_c = q_clamp(tilt, -Q_ONE, Q_ONE);
        let tilt_w = q_add(q_mul(q_mul(tilt_c, q_abs(tilt_c)), Q_HALF), Q_HALF);
        let shimmer_c = q_clamp(shimmer, 0, Q_ONE);
        let mix_c = q_clamp(mix, 0, Q_ONE);
        proof {
            lemma_warp_bounds(depth_c, MAX_DEPTH);
            lemma_warp_bounds(tilt_c, Q_HALF);
        }
        if self.is_initialized {
            self.reverse.set_target(reverse_c);
            self.predelay.set_target(predelay_c);
            self.size.set_target(size_c);
            self.depth.set_target(depth_w);
            self.absorb.set_target(absorb_c);
            self.decay.set_target(decay_c);
            self.tilt.set_target(tilt_w);
            self.shimmer.set_target(shimmer_c);
            self.mix.set_target(mix_c);
        } else {
            self.reverse.initialize(reverse_c);
            self.predelay.initialize(predelay_c);
            self.size.initialize(size_c);
            self.depth.initialize(depth_w);
            self.absorb.initialize(absorb_c);
            self.decay.initialize(decay_c);
            self.tilt.initialize(tilt_w);
            self.shimmer.initialize(shimmer_c);
            self.mix.initialize(mix_c);
            self.is_initialized = true;
        }
    }
}

/// The signed square of a value in `[-1, 1]`, scaled by a nonnegative gain,
/// stays within plus or minus that gain.
proof fn lemma_warp_bounds(x: i64, gain: i64)
    requires
        -Q_ONE <= x <= Q_ONE,
        0 <= gain,
    ensures
        -gain <= q_mul_s(q_mul_s(x, q_abs_s(x)), gain) <= gain,
{
    let sq = q_mul_s(x, q_abs_s(x));
    if x >= 0 {
        crate::qmath::lemma_q_mul_unit_bound(q_abs_s(x), x);
        assert((x as int) * (q_abs_s(x) as int) == (q_abs_s(x) as int) * (x as int))
            by (nonlinear_arith);
    } else {
        crate::qmath::lemma_q_mul_unit_bound_neg(q_abs_s(x), x);
        assert((x as int) * (q_abs_s(x) as int) == (q_abs_s(x) as int) * (x as int))
            by (nonlinear_arith);
    }
    assert(-Q_ONE <= sq <= Q_ONE);
    if sq >= 0 {
        crate::qmath::lemma_q_mul_unit_bound(sq, gain);
    } else {
        lemma_neg_unit_gain(sq, gain);
    }
}

/// A factor in `[-1, 0]` times a nonnegative gain stays within `[-gain, 0]`.
proof fn lemma_neg_unit_gain(c: i64, gain: i64)
    requires
        -Q_ONE <= c <= 0,
        0 <= gain,
    ensures
        -gain <= q_mul_s(c, gain) <= 0,
{
    crate::qmath::lemma_q_mul_unit_bound((-(c as int)) as i64, gain);
    assert((c as int) * (gain as int) == -(((-(c as int)) as i64 as int) * (gain as int)))
        by (nonlinear_arith)
        requires -0x40000000 <= c as int <= 0;
}

} // verus!
