//! Decides how strongly the saturation stage engages: a running peak
//! amplitude and a smoothed activation gain that ramps toward one while the
//! signal is hot and back toward zero while it is quiet, so the soft clip
//! never switches in with a click.

use vstd::prelude::*;
use crate::qmath::{Q_ONE, q_abs_s, q_abs};
use crate::smooth::{ExponentialSmooth, smooth_step_s, smooth_coef_s};

verus! {

/// 0.75 in fixed point: the amplitude above which saturation engages.
pub const SATURATION_THRESHOLD: i64 = 805306368;

pub struct SaturationActivator {
    amplitude: i64,
    smooth_saturation_gain: ExponentialSmooth,
}

impl SaturationActivator {
    pub closed spec fn wf(self) -> bool {
        self.smooth_saturation_gain.wf()
    }

    pub closed spec fn amplitude(self) -> i64 {
        self.amplitude
    }

    /// The smoothed activation gain.
    pub closed spec fn gain(self) -> i64 {
        self.smooth_saturation_gain.current()
    }

    pub fn new(sample_rate: u32) -> (r: SaturationActivator)
        requires
            1 <= sample_rate,
        ensures
            r.wf(),
            r.amplitude() == 0,
            r.gain() == 0,
            r.smooth_coef() == smooth_coef_s(sample_rate, (3 * Q_ONE) as i64),
    {
        SaturationActivator {
            amplitude: 0,
            smooth_saturation_gain: ExponentialSmooth::new(sample_rate, 3 * Q_ONE),
        }
    }

    /// Tracks the instantaneous stereo peak.
    pub fn set_amplitude(&mut self, input: (i64, i64))
        requires
            old(self).wf(),
        ensures
            final(self).wf(),
            final(self).gain() == old(self).gain(),
            final(self).smooth_coef() == old(self).smooth_coef(),
            final(self).amplitude() == if q_abs_s(input.0) >= q_abs_s(input.1) {
                q_abs_s(input.0)
            } else {
                q_abs_s(input.1)
            },
    {
        let l = q_abs(input.0);
        let r = q_abs(input.1);
        self.amplitude = if l >= r {
            l
        } else {
            r
        };
    }

    /// One smoothing step of the activation gain toward one (hot signal) or
    /// zero (quiet signal); the gain stays inside `[0, 1]` whenever it
    /// starts there.
    pub fn get_saturation_gain(&mut self) -> (r: i64)
        requires
            old(self).wf(),
        ensures
            final(self).wf(),
            final(self).amplitude() == old(self).amplitude(),
            r == smooth_step_s(
                old(self).gain(),
                if old(self).amplitude() > SATURATION_THRESHOLD {
                    Q_ONE
                } else {
                    0i64
                },
                old(self).smooth_coef(),
            ),
            final(self).gain() == r,
            0 <= old(self).gain() <= Q_ONE ==> 0 <= r <= Q_ONE,
    {
        let target = if self.amplitude > SATURATION_THRESHOLD {
            Q_ONE
        } else {
            0
        };
        self.smooth_saturation_gain.process(target)
    }

    /// The activation ramp's smoothing coefficient.
    pub closed spec fn smooth_coef(self) -> i64 {
        self.smooth_saturation_gain.coef()
    }
}

} // verus!
