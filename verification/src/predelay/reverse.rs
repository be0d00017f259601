//! Time-reversed pre-delay reader: two phasors a half cycle apart scan the
//! delay line backwards at `1000 / time` Hz, and their reads are
//! triangularly crossfaded so the jump at each wrap point is masked.

use vstd::prelude::*;
use crate::qmath::{
    Q_ONE, Q_TWO, Q_THOUSAND, SCALE, q_mul_s, q_add_s, q_sub_s, q_div_s, q_clamp_s, q_mul,
    q_add, q_sub, q_div, q_clamp,
};
use crate::constants::{MIN_PREDELAY, MAX_PREDELAY};
use crate::delay_line::{read_s, all_zero, lemma_read_zero};
use crate::stereo_delay_line::StereoDelayLine;
use crate::phasor::{Phasor, phasor_step_s};

verus! {

pub struct Reverse {
    phasor: Phasor,
}

/// A double-length phase wrapped back into `[0, 2)`.
pub open spec fn wrap2_s(x: i64) -> i64 {
    if x >= Q_TWO {
        (x - Q_TWO) as i64
    } else {
        x
    }
}

/// The crossfade gain of the first reverse voice: a ramp-up times ramp-down
/// window over its scan, shaped by how long the scan is relative to the
/// shortest pre-delay.
#[verifier::opaque]
pub open spec fn reverse_gain_a_s(phasor_a: i64, time: i64) -> i64 {
    let xf = q_div_s(time, MIN_PREDELAY);
    let xo = q_add_s(q_div_s(Q_ONE, xf), Q_ONE);
    let ramp_up = q_clamp_s(q_mul_s(phasor_a, xf), 0, Q_ONE);
    let ramp_down = q_clamp_s(q_mul_s(q_sub_s(xo, phasor_a), xf), 0, Q_ONE);
    q_mul_s(ramp_up, ramp_down)
}

/// One gated, gain-weighted read at `phase * time` milliseconds; nothing is
/// read when the gain is zero.
#[verifier::opaque]
pub open spec fn gated_read_s(
    vl: Seq<i64>,
    vr: Seq<i64>,
    spr: i64,
    phase: i64,
    time: i64,
    gain: i64,
) -> (i64, i64) {
    if gain == 0 {
        (0i64, 0i64)
    } else {
        let t = q_mul_s(phase, time);
        (q_mul_s(read_s(vl, spr, t), gain), q_mul_s(read_s(vr, spr, t), gain))
    }
}

/// The stereo sum of the two crossfaded reverse voices, for the post-step
/// phasor phase `ph`.
#[verifier::opaque]
pub open spec fn reverse_out_s(
    vl: Seq<i64>,
    vr: Seq<i64>,
    spr: i64,
    ph: i64,
    time: i64,
) -> (i64, i64) {
    let pa = q_mul_s(ph, Q_TWO);
    let pb = wrap2_s(q_add_s(pa, Q_ONE));
    let ga = reverse_gain_a_s(pa, time);
    let gb = q_sub_s(Q_ONE, ga);
    let ra = gated_read_s(vl, vr, spr, pa, time, ga);
    let rb = gated_read_s(vl, vr, spr, pb, time, gb);
    (q_add_s(ra.0, rb.0), q_add_s(ra.1, rb.1))
}

impl Reverse {
    pub closed spec fn wf(self) -> bool {
        self.phasor.wf()
    }

    /// The scanning phasor's phase.
    pub closed spec fn phase(self) -> i64 {
        self.phasor.phase()
    }

    pub closed spec fn srq(self) -> i64 {
        self.phasor.srq()
    }

    pub fn new(sample_rate: u32) -> (r: Reverse)
        requires
            1 <= sample_rate,
        ensures
            r.wf(),
            r.phase() == 0,
            r.srq() == crate::qmath::sat_s((sample_rate as int) * (SCALE as int)),
    {
        Reverse { phasor: Phasor::new(sample_rate) }
    }

    /// Advances the scan and returns the crossfaded backwards read of the
    /// delay line. A silent delay line reads back as silence.
    pub fn process(&mut self, delay_line: &StereoDelayLine, time: i64) -> (r: (i64, i64))
        requires
            old(self).wf(),
            delay_line.wf(),
            MIN_PREDELAY <= time <= MAX_PREDELAY,
        ensures
            final(self).wf(),
            final(self).srq() == old(self).srq(),
            final(self).phase() == phasor_step_s(
                old(self).phase(),
                old(self).srq(),
                q_div_s(Q_THOUSAND, time),
            ),
            r == reverse_out_s(
                delay_line.view_left(),
                delay_line.view_right(),
                delay_line.spr(),
                final(self).phase(),
                time,
            ),
            all_zero(delay_line.view_left()) && all_zero(delay_line.view_right()) ==> r == (
            0i64, 0i64),
    {
        proof {
            reveal(reverse_gain_a_s);
            reveal(reverse_out_s);
            reveal(gated_read_s);
        }
        let freq = q_div(Q_THOUSAND, time);
        let ph = self.phasor.process(freq);
        let pa = q_mul(ph, Q_TWO);
        let pb0 = q_add(pa, Q_ONE);
        let pb = if pb0 >= Q_TWO {
            pb0 - Q_TWO
        } else {
            pb0
        };
        let xf = q_div(time, MIN_PREDELAY);
        proof {
            vstd::arithmetic::mul::lemma_mul_inequality(
                MIN_PREDELAY as int,
                time as int,
                SCALE as int,
            );
            vstd::arithmetic::div_mod::lemma_div_is_ordered(
                (MIN_PREDELAY as int) * (SCALE as int),
                (time as int) * (SCALE as int),
                MIN_PREDELAY as int,
            );
            vstd::arithmetic::div_mod::lemma_div_multiples_vanish(
                SCALE as int,
                MIN_PREDELAY as int,
            );
            assert((MIN_PREDELAY as int) * (SCALE as int) == (MIN_PREDELAY as int) * (
            SCALE as int));
            assert(xf >= SCALE);
        }
        let xo = q_add(q_div(Q_ONE, xf), Q_ONE);
        let ramp_up = q_clamp(q_mul(pa, xf), 0, Q_ONE);
        let ramp_down = q_clamp(q_mul(q_sub(xo, pa), xf), 0, Q_ONE);
        let ga = q_mul(ramp_up, ramp_down);
        let gb = q_sub(Q_ONE, ga);
        let ra = self.read_delay_line(delay_line, pa, time, ga);
        let rb = self.read_delay_line(delay_line, pb, time, gb);
        proof {
            if all_zero(delay_line.view_left()) && all_zero(delay_line.view_right()) {
                delay_line.lemma_wf_len();
                lemma_read_zero(delay_line.view_left(), delay_line.spr(), q_mul_s(pa, time));
                lemma_read_zero(delay_line.view_right(), delay_line.spr(), q_mul_s(pa, time));
                lemma_read_zero(delay_line.view_left(), delay_line.spr(), q_mul_s(pb, time));
                lemma_read_zero(delay_line.view_right(), delay_line.spr(), q_mul_s(pb, time));
            }
        }
        (q_add(ra.0, rb.0), q_add(ra.1, rb.1))
    }

    /// One gain-weighted read; skipped entirely when the crossfade gain is
    /// zero, which also keeps the scanned region inside the buffer.
    fn read_delay_line(
        &self,
        delay_line: &StereoDelayLine,
        phase: i64,
        time: i64,
        gain: i64,
    ) -> (r: (i64, i64))
        requires
            delay_line.wf(),
        ensures
            r == gated_read_s(
                delay_line.view_left(),
                delay_line.view_right(),
                delay_line.spr(),
                phase,
                time,
                gain,
            ),
    {
        proof {
            reveal(gated_read_s);
        }
        if gain == 0 {
            (0, 0)
        } else {
            let t = q_mul(phase, time);
            let out = delay_line.read(t);
            (q_mul(out.0, gain), q_mul(out.1, gain))
        }
    }
}

} // verus!
