//! A standalone one-pole smoothing filter whose coefficient is given either
//! as a linear amount (scaled by the sample rate against the reference
//! rate) or as a cutoff frequency in Hz.

use vstd::prelude::*;
use crate::qmath::{
    Q_ONE, SCALE, sat_s, q_mul_s, q_add_s, q_sub_s, q_div_s, q_clamp_s, q_mul, q_add, q_sub,
    q_div, q_clamp,
};
use crate::trig::{sin_turn_s, sin_turn};

verus! {

/// 44100 in fixed point: the reference rate the linear coefficient is tuned
/// at.
pub const LINEAR_REFERENCE_RATE: i64 = 47352014438400;

/// How the smoothing coefficient is derived from the input value.
#[derive(Clone, Copy, PartialEq, Eq, Structural)]
pub enum CoefficientMode {
    Linear,
    Hertz,
}

/// The linear-mode coefficient: `(1 - r)` rescaled from the reference rate
/// to this filter's rate, clamped into `[0, 1]`.
pub open spec fn linear_coef_s(srq: i64, r: i64) -> i64 {
    q_clamp_s(q_mul_s(q_div_s(q_sub_s(Q_ONE, r), LINEAR_REFERENCE_RATE), srq), 0, Q_ONE)
}

/// The frequency-mode coefficient: the sine of the normalized cutoff,
/// clamped into `[0, 1]`.
pub open spec fn hertz_coef_s(srq: i64, freq: i64) -> i64 {
    q_clamp_s(
        sin_turn_s(q_clamp_s(q_div_s(freq, srq), 0, (Q_ONE - 1) as i64)),
        0,
        Q_ONE,
    )
}

pub struct OnePoleFilter {
    sample_rate_q: i64,
    z: i64,
}

impl OnePoleFilter {
    pub closed spec fn wf(self) -> bool {
        self.sample_rate_q >= SCALE
    }

    pub closed spec fn srq(self) -> i64 {
        self.sample_rate_q
    }

    /// The filter history.
    pub closed spec fn state(self) -> i64 {
        self.z
    }

    pub fn new(sample_rate: u32) -> (r: OnePoleFilter)
        requires
            1 <= sample_rate,
        ensures
            r.wf(),
            r.state() == 0,
            r.srq() == sat_s((sample_rate as int) * (SCALE as int)),
    {
        proof {
            assert((sample_rate as int) * (SCALE as int) >= SCALE as int
                && (sample_rate as int) * (SCALE as int) <= 0xffffffff * 0x40000000)
                by (nonlinear_arith)
                requires 1 <= sample_rate as int <= 0xffffffff,
            ;
        }
        let srq: i64 = (sample_rate as i64) * SCALE;
        OnePoleFilter { sample_rate_q: srq, z: 0 }
    }

    /// One smoothing step toward `input`, with the coefficient derived from
    /// `cutoff_freq` in the chosen mode.
    pub fn run(&mut self, input: i64, cutoff_freq: i64, mode: CoefficientMode) -> (r: i64)
        requires
            old(self).wf(),
        ensures
            final(self).wf(),
            final(self).srq() == old(self).srq(),
            ({
                let coef = if mode == CoefficientMode::Linear {
                    linear_coef_s(old(self).srq(), cutoff_freq)
                } else {
                    hertz_coef_s(old(self).srq(), cutoff_freq)
                };
                r == q_add_s(
                    q_mul_s(old(self).state(), q_sub_s(Q_ONE, coef)),
                    q_mul_s(input, coef),
                )
            }),
            r == final(self).state(),
    {
        let coefficient = match mode {
            CoefficientMode::Linear => self.convert_linear_input_to_coefficient(cutoff_freq),
            CoefficientMode::Hertz => self.convert_hertz_to_coefficient(cutoff_freq),
        };
        let output = self.mix(self.z, input, coefficient);
        self.z = output;
        output
    }

    fn convert_linear_input_to_coefficient(&self, r: i64) -> (c: i64)
        requires
            self.wf(),
        ensures
            c == linear_coef_s(self.srq(), r),
    {
        q_clamp(
            q_mul(q_div(q_sub(Q_ONE, r), LINEAR_REFERENCE_RATE), self.sample_rate_q),
            0,
            Q_ONE,
        )
    }

    fn convert_hertz_to_coefficient(&self, freq: i64) -> (c: i64)
        requires
            self.wf(),
        ensures
            c == hertz_coef_s(self.srq(), freq),
    {
        let u = q_clamp(q_div(freq, self.sample_rate_q), 0, Q_ONE - 1);
        q_clamp(sin_turn(u), 0, Q_ONE)
    }

    /// A linear blend of `a` toward `b` by `interp`.
    fn mix(&self, a: i64, b: i64, interp: i64) -> (r: i64)
        ensures
            r == q_add_s(q_mul_s(a, q_sub_s(Q_ONE, interp)), q_mul_s(b, interp)),
    {
        q_add(q_mul(a, q_sub(Q_ONE, interp)), q_mul(b, interp))
    }
}

} // verus!
