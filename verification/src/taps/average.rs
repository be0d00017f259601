//! Running estimate of the network's peak amplitude: a one-pole average over
//! a window of samples, used to duck the output gain when the network runs
//! hot.

use vstd::prelude::*;
use crate::qmath::{
    Q_ONE, q_div_s, q_clamp_s, sat_s, SCALE, q_mul, q_add, q_sub, q_div, q_clamp,
    lemma_q_mul_unit_bound, lemma_q_mul_unit_bound_neg,
};
use crate::smooth::smooth_step_s;

verus! {

pub struct Average {
    z: i64,
    coef: i64,
}

impl Average {
    pub closed spec fn wf(self) -> bool {
        &&& 0 <= self.coef <= Q_ONE
        &&& 0 <= self.z
    }

    /// The current estimate.
    pub closed spec fn current(self) -> i64 {
        self.z
    }

    pub closed spec fn coef(self) -> i64 {
        self.coef
    }

    /// An averager over roughly `window_samples` samples.
    pub fn new(window_samples: u64) -> (r: Average)
        requires
            1 <= window_samples,
        ensures
            r.wf(),
            r.current() == 0,
            r.coef() == q_clamp_s(
                q_div_s(Q_ONE, sat_s((window_samples as int) * (SCALE as int))),
                0,
                Q_ONE,
            ),
    {
        proof {
            assert((window_samples as int) * (SCALE as int) >= SCALE as int
                && (window_samples as int) * (SCALE as int)
                    <= 0xffffffffffffffff * 0x40000000)
                by (nonlinear_arith)
                requires 1 <= window_samples as int <= 0xffffffffffffffff,
            ;
        }
        let wq: i64 = if window_samples >= 8589934592 {
            proof {
                assert((window_samples as int) * (SCALE as int) >= 0x200000000 * 0x40000000)
                    by (nonlinear_arith)
                    requires window_samples as int >= 0x200000000, SCALE as int == 0x40000000,
                ;
            }
            crate::qmath::Q_LIMIT
        } else {
            (window_samples as i64) * SCALE
        };
        let coef = q_clamp(q_div(Q_ONE, wq), 0, Q_ONE);
        Average { z: 0, coef }
    }

    /// Reads the current estimate.
    pub fn get(&self) -> (r: i64)
        ensures
            r == self.current(),
    {
        self.z
    }

    /// Feeds one peak sample into the average; the estimate moves a window
    /// fraction of the way toward it, monotonically and without overshoot.
    pub fn set(&mut self, input: i64)
        requires
            old(self).wf(),
            0 <= input,
        ensures
            final(self).wf(),
            final(self).coef() == old(self).coef(),
            final(self).current() == smooth_step_s(
                old(self).current(),
                input,
                old(self).coef(),
            ),
            old(self).current() <= input ==> old(self).current() <= final(self).current()
                <= input,
            old(self).current() >= input ==> input <= final(self).current()
                <= old(self).current(),
            old(self).current() == 0 && input == 0 ==> final(self).current() == 0,
    {
        let d = q_sub(input, self.z);
        let m = q_mul(self.coef, d);
        proof {
            if d >= 0 {
                lemma_q_mul_unit_bound(self.coef, d);
            } else {
                lemma_q_mul_unit_bound_neg(self.coef, d);
            }
        }
        self.z = q_add(self.z, m);
    }
}

} // verus!
