//! One-pole parameter smoothing: each call moves the current value a fixed
//! fraction of the remaining distance toward the target, so a parameter
//! change becomes a click-free ramp that approaches its target monotonically
//! and never overshoots.

use vstd::prelude::*;
use crate::qmath::{
    Q_ONE, SCALE, TAU, sat_s, tdiv_s, q_mul_s, q_add_s, q_sub_s, q_div_s, q_clamp_s, q_mul,
    q_add, q_sub, q_div, q_clamp, lemma_q_mul_unit_bound, lemma_q_mul_unit_bound_neg,
};

verus! {

pub struct ExponentialSmooth {
    z: i64,
    target: i64,
    coef: i64,
}

/// The per-sample smoothing coefficient for a one-pole filter at `freq` Hz:
/// `2*pi*freq/sample_rate`, clamped into `[0, 1]`.
pub open spec fn smooth_coef_s(sample_rate: u32, freq: i64) -> i64 {
    q_clamp_s(q_div_s(q_mul_s(TAU, freq), sat_s((sample_rate as int) * (SCALE as int))), 0, Q_ONE)
}

/// One smoothing step: move from `z` toward `target` by the fraction `coef`
/// of the remaining distance.
pub open spec fn smooth_step_s(z: i64, target: i64, coef: i64) -> i64 {
    q_add_s(z, q_mul_s(coef, q_sub_s(target, z)))
}

/// Each smoothing step shrinks the remaining distance to the target by
/// exactly the coefficient's (truncated) fraction of it: with distance `d`
/// before the step, the distance after is `d - (coef * d) / SCALE`. Over
/// successive steps the distance therefore decays geometrically at the rate
/// `1 - coef`, up to one quantum of truncation per step — which is what
/// makes the approach time proportional to the configured time constant.
pub proof fn lemma_smooth_step_contracts(z: i64, target: i64, coef: i64)
    requires
        0 <= coef <= Q_ONE,
        -Q_ONE * 1000 <= z <= Q_ONE * 1000,
        -Q_ONE * 1000 <= target <= Q_ONE * 1000,
    ensures
        ({
            let d = if target >= z { target - z } else { z - target };
            let next = smooth_step_s(z, target, coef);
            let d2 = if target >= next { target - next } else { (next - target) as int };
            d2 == d - tdiv_s(coef * d, SCALE as int)
        }),
{
    let e = q_sub_s(target, z);
    if e >= 0 {
        lemma_q_mul_unit_bound(coef, e);
    } else {
        lemma_q_mul_unit_bound_neg(coef, e);
        assert((coef as int) * (e as int) == -((coef as int) * (-(e as int))))
            by (nonlinear_arith);
    }
}

impl ExponentialSmooth {
    pub closed spec fn wf(self) -> bool {
        &&& 0 <= self.coef <= Q_ONE
        &&& -Q_ONE * 1000 <= self.z <= Q_ONE * 1000
        &&& -Q_ONE * 1000 <= self.target <= Q_ONE * 1000
    }

    /// The smoothed value handed to the signal path.
    pub closed spec fn current(self) -> i64 {
        self.z
    }

    /// The value the smoother is ramping toward.
    pub closed spec fn target(self) -> i64 {
        self.target
    }

    pub closed spec fn coef(self) -> i64 {
        self.coef
    }

    /// A smoother at rest on zero, reacting at `freq` Hz.
    pub fn new(sample_rate: u32, freq: i64) -> (r: ExponentialSmooth)
        requires
            1 <= sample_rate,
        ensures
            r.wf(),
            r.current() == 0,
            r.target() == 0,
            r.coef() == smooth_coef_s(sample_rate, freq),
    {
        proof {
            assert((sample_rate as int) * (SCALE as int) >= SCALE as int
                && (sample_rate as int) * (SCALE as int) <= 0xffffffff * 0x40000000)
                by (nonlinear_arith)
                requires 1 <= sample_rate as int <= 0xffffffff,
            ;
        }
        let srq: i64 = (sample_rate as i64) * SCALE;
        let coef = q_clamp(q_div(q_mul(TAU, freq), srq), 0, Q_ONE);
        ExponentialSmooth { z: 0, target: 0, coef }
    }

    /// Snaps both the state and the target to `v` with no ramp; the next
    /// `next()` returns `v` unchanged.
    pub fn initialize(&mut self, v: i64)
        requires
            old(self).wf(),
            -Q_ONE * 1000 <= v <= Q_ONE * 1000,
        ensures
            final(self).wf(),
            final(self).coef() == old(self).coef(),
            final(self).current() == v,
            final(self).target() == v,
    {
        self.z = v;
        self.target = v;
    }

    /// Sets the value to ramp toward.
    pub fn set_target(&mut self, v: i64)
        requires
            old(self).wf(),
            -Q_ONE * 1000 <= v <= Q_ONE * 1000,
        ensures
            final(self).wf(),
            final(self).coef() == old(self).coef(),
            final(self).current() == old(self).current(),
            final(self).target() == v,
    {
        self.target = v;
    }

    /// Advances one sample toward the target and returns the new value.
    ///
    /// The approach is monotonic and never overshoots: the new value always
    /// lies between the old value and the target, and a smoother that has
    /// reached its target stays there.
    pub fn next(&mut self) -> (r: i64)
        requires
            old(self).wf(),
        ensures
            final(self).wf(),
            final(self).coef() == old(self).coef(),
            final(self).target() == old(self).target(),
            final(self).current() == smooth_step_s(
                old(self).current(),
                old(self).target(),
                old(self).coef(),
            ),
            r == final(self).current(),
            old(self).current() <= old(self).target() ==> old(self).current() <= r
                <= old(self).target(),
            old(self).current() >= old(self).target() ==> old(self).target() <= r
                <= old(self).current(),
            old(self).current() == old(self).target() ==> r == old(self).current(),
    {
        let d = q_sub(self.target, self.z);
        let m = q_mul(self.coef, d);
        proof {
            if d >= 0 {
                lemma_q_mul_unit_bound(self.coef, d);
            } else {
                lemma_q_mul_unit_bound_neg(self.coef, d);
            }
        }
        let z2 = q_add(self.z, m);
        self.z = z2;
        z2
    }

    /// Retargets to `v` and advances one step in a single call.
    pub fn process(&mut self, v: i64) -> (r: i64)
        requires
            old(self).wf(),
            -Q_ONE * 1000 <= v <= Q_ONE * 1000,
        ensures
            final(self).wf(),
            final(self).coef() == old(self).coef(),
            final(self).target() == v,
            final(self).current() == smooth_step_s(old(self).current(), v, old(self).coef()),
            r == final(self).current(),
            old(self).current() <= v ==> old(self).current() <= r <= v,
            old(self).current() >= v ==> v <= r <= old(self).current(),
    {
        self.set_target(v);
        self.next()
    }
}

} // verus!
