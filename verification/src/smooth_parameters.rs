//! A bank of parameter smoothers retargeted together, for hosts that hand
//! the engine a whole parameter set per block.

use vstd::prelude::*;
use crate::qmath::{Q_ONE, q_clamp_s, q_clamp};
use crate::constants::{MIN_PREDELAY, MAX_PREDELAY, MIN_SIZE, MAX_SIZE, MAX_DEPTH};
use crate::params::{MAX_DECAY, SMOOTH_FREQ_DEFAULT, SMOOTH_FREQ_PREDELAY, SMOOTH_FREQ_SIZE};
use crate::smooth::ExponentialSmooth;

verus! {

pub struct SmoothParameters {
    pub reverse: ExponentialSmooth,
    pub predelay: ExponentialSmooth,
    pub size: ExponentialSmooth,
    pub depth: ExponentialSmooth,
    pub absorb: ExponentialSmooth,
    pub decay: ExponentialSmooth,
    pub tilt: ExponentialSmooth,
    pub shimmer: ExponentialSmooth,
    pub mix: ExponentialSmooth,
}

impl SmoothParameters {
    pub open spec fn wf(self) -> bool {
        &&& self.reverse.wf()
        &&& self.predelay.wf()
        &&& self.size.wf()
        &&& self.depth.wf()
        &&& self.absorb.wf()
        &&& self.decay.wf()
        &&& self.tilt.wf()
        &&& self.shimmer.wf()
        &&& self.mix.wf()
    }

    pub fn new(sample_rate: u32) -> (r: SmoothParameters)
        requires
            1 <= sample_rate,
        ensures
            r.wf(),
    {
        SmoothParameters {
            reverse: ExponentialSmooth::new(sample_rate, SMOOTH_FREQ_DEFAULT),
            predelay: ExponentialSmooth::new(sample_rate, SMOOTH_FREQ_PREDELAY),
            size: ExponentialSmooth::new(sample_rate, SMOOTH_FREQ_SIZE),
            depth: ExponentialSmooth::new(sample_rate, SMOOTH_FREQ_DEFAULT),
            absorb: ExponentialSmooth::new(sample_rate, SMOOTH_FREQ_DEFAULT),
            decay: ExponentialSmooth::new(sample_rate, SMOOTH_FREQ_DEFAULT),
            tilt: ExponentialSmooth::new(sample_rate, SMOOTH_FREQ_DEFAULT),
            shimmer: ExponentialSmooth::new(sample_rate, SMOOTH_FREQ_DEFAULT),
            mix: ExponentialSmooth::new(sample_rate, SMOOTH_FREQ_DEFAULT),
        }
    }

    /// Retargets every smoother at once, each value clamped to its
    /// documented range; the smoothed values themselves do not jump.
    pub fn set_targets(
        &mut self,
        reverse: i64,
        predelay: i64,
        size: i64,
        depth: i64,
        absorb: i64,
        decay: i64,
        tilt: i64,
        shimmer: i64,
        mix: i64,
    )
        requires
            old(self).wf(),
        ensures
            final(self).wf(),
            final(self).reverse.target() == q_clamp_s(reverse, 0, Q_ONE),
            final(self).predelay.target() == q_clamp_s(predelay, MIN_PREDELAY, MAX_PREDELAY),
            final(self).size.target() == q_clamp_s(size, MIN_SIZE, MAX_SIZE),
            final(self).depth.target() == q_clamp_s(depth, (-MAX_DEPTH) as i64, MAX_DEPTH),
            final(self).absorb.target() == q_clamp_s(absorb, 0, Q_ONE),
            final(self).decay.target() == q_clamp_s(decay, 0, MAX_DECAY),
            final(self).tilt.target() == q_clamp_s(tilt, 0, Q_ONE),
            final(self).shimmer.target() == q_clamp_s(shimmer, 0, Q_ONE),
            final(self).mix.target() == q_clamp_s(mix, 0, Q_ONE),
            final(self).reverse.current() == old(self).reverse.current(),
            final(self).predelay.current() == old(self).predelay.current(),
            final(self).size.current() == old(self).size.current(),
            final(self).depth.current() == old(self).depth.current(),
            final(self).absorb.current() == old(self).absorb.current(),
            final(self).decay.current() == old(self).decay.current(),
            final(self).tilt.current() == old(self).tilt.current(),
            final(self).shimmer.current() == old(self).shimmer.current(),
            final(self).mix.current() == old(self).mix.current(),
    {
        self.reverse.set_target(q_clamp(reverse, 0, Q_ONE));
        self.predelay.set_target(q_clamp(predelay, MIN_PREDELAY, MAX_PREDELAY));
        self.size.set_target(q_clamp(size, MIN_SIZE, MAX_SIZE));
        self.depth.set_target(q_clamp(depth, -MAX_DEPTH, MAX_DEPTH));
        self.absorb.set_target(q_clamp(absorb, 0, Q_ONE));
        self.decay.set_target(q_clamp(decay, 0, MAX_DECAY));
        self.tilt.set_target(q_clamp(tilt, 0, Q_ONE));
        self.shimmer.set_target(q_clamp(shimmer, 0, Q_ONE));
        self.mix.set_target(q_clamp(mix, 0, Q_ONE));
    }
}

} // verus!
