//! Free-running ramp oscillator: a phase in `[0, 1)` of a turn that advances
//! by `frequency / sample_rate` per sample and wraps; a negative frequency
//! runs the ramp backwards.

use vstd::prelude::*;
use crate::qmath::{Q_ONE, SCALE, sat_s, q_div_s, q_add_s, q_clamp_s, q_div, q_add, q_clamp};

verus! {

pub struct Phasor {
    phase: i64,
    sample_rate_q: i64,
}

/// One phasor advance: the per-sample increment, clamped to one turn either
/// way, added to the phase, the sum wrapped back into `[0, Q_ONE)`.
pub open spec fn phasor_step_s(phase: i64, srq: i64, freq: i64) -> i64 {
    let d = q_clamp_s(q_div_s(freq, srq), (-Q_ONE) as i64, Q_ONE);
    let p = q_add_s(phase, d);
    if p >= Q_ONE {
        (p - Q_ONE) as i64
    } else if p < 0 {
        (p + Q_ONE) as i64
    } else {
        p
    }
}

impl Phasor {
    pub closed spec fn wf(self) -> bool {
        &&& 0 <= self.phase < Q_ONE
        &&& self.sample_rate_q >= SCALE
    }

    /// Current phase, as a fraction of a turn.
    pub closed spec fn phase(self) -> i64 {
        self.phase
    }

    /// The sample rate, in fixed point.
    pub closed spec fn srq(self) -> i64 {
        self.sample_rate_q
    }

    pub fn new(sample_rate: u32) -> (r: Phasor)
        requires
            1 <= sample_rate,
        ensures
            r.wf(),
            r.phase() == 0,
            r.srq() == sat_s((sample_rate as int) * (SCALE as int)),
    {
        proof {
            assert((sample_rate as int) * (SCALE as int) >= SCALE as int
                && (sample_rate as int) * (SCALE as int) <= 0xffffffff * 0x40000000)
                by (nonlinear_arith)
                requires 1 <= sample_rate as int <= 0xffffffff,
            ;
        }
        let srq: i64 = (sample_rate as i64) * SCALE;
        Phasor { phase: 0, sample_rate_q: srq }
    }

    /// Advances by `freq / sample_rate` of a turn and returns the new phase.
    pub fn process(&mut self, freq: i64) -> (r: i64)
        requires
            old(self).wf(),
        ensures
            final(self).wf(),
            final(self).srq() == old(self).srq(),
            final(self).phase() == phasor_step_s(old(self).phase(), old(self).srq(), freq),
            r == final(self).phase(),
            0 <= r < Q_ONE,
    {
        let d = q_clamp(q_div(freq, self.sample_rate_q), -Q_ONE, Q_ONE);
        let p = q_add(self.phase, d);
        self.phase = if p >= Q_ONE {
            p - Q_ONE
        } else if p < 0 {
            p + Q_ONE
        } else {
            p
        };
        self.phase
    }
}

} // verus!
