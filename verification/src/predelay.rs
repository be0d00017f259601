//! Pre-delay stage: a stereo delay-line tap played either forward or
//! time-reversed (granular, crossfaded), blended by a reverse amount. The
//! read happens strictly before the write so the stage never feeds a sample
//! back to itself in the same call.

pub mod reverse;

use vstd::prelude::*;
use crate::qmath::{
    Q_ONE, SCALE, sat_s, q_mul_s, q_add_s, q_sub_s, q_clamp_s, q_div_s, Q_THOUSAND, q_mul,
    q_add, q_sub, q_clamp,
};
use crate::constants::{MIN_PREDELAY, MAX_PREDELAY, MAX_SAMPLE_RATE};
use crate::delay_line::{read_s, write_s, all_zero, lemma_read_zero, lemma_write_zero};

use crate::stereo_delay_line::StereoDelayLine;
use crate::phasor::phasor_step_s;
use reverse::{Reverse, reverse_out_s};

verus! {

/// A linear blend: `a` toward `b` by `factor`.
pub open spec fn mix_lin_s(a: i64, b: i64, factor: i64) -> i64 {
    q_add_s(a, q_mul_s(q_sub_s(b, a), factor))
}

/// The pre-delay output before the incoming sample is stored: the forward
/// tap, the reversed tap, or their blend, by the clamped reverse amount.
#[verifier::opaque]
pub open spec fn predelay_out_s(
    vl: Seq<i64>,
    vr: Seq<i64>,
    spr: i64,
    ph: i64,
    time: i64,
    reverse_amount: i64,
) -> (i64, i64) {
    let ra = q_clamp_s(reverse_amount, 0, Q_ONE);
    let fwd = (read_s(vl, spr, time), read_s(vr, spr, time));
    let rev = reverse_out_s(vl, vr, spr, ph, time);
    if ra == 0 {
        fwd
    } else if ra == Q_ONE {
        rev
    } else {
        (mix_lin_s(fwd.0, rev.0, ra), mix_lin_s(fwd.1, rev.1, ra))
    }
}

pub struct PreDelay {
    delay_line: StereoDelayLine,
    reverse: Reverse,
}

impl PreDelay {
    pub closed spec fn wf(self) -> bool {
        &&& self.delay_line.wf()
        &&& self.reverse.wf()
    }

    /// Age-ordered view of the left channel buffer.
    pub closed spec fn view_left(self) -> Seq<i64> {
        self.delay_line.view_left()
    }

    pub closed spec fn view_right(self) -> Seq<i64> {
        self.delay_line.view_right()
    }

    pub closed spec fn spr(self) -> i64 {
        self.delay_line.spr()
    }

    /// The reverse scanner's phase.
    pub closed spec fn phase(self) -> i64 {
        self.reverse.phase()
    }

    pub closed spec fn srq(self) -> i64 {
        self.reverse.srq()
    }

    /// Sized for the longest pre-delay plus the crossfade excursion of the
    /// reverse reader: any read of up to 510 ms stays within the unclamped
    /// capacity, and the capacity is fixed for the object's lifetime.
    pub fn new(sample_rate: u32) -> (r: PreDelay)
        requires
            1 <= sample_rate <= MAX_SAMPLE_RATE,
        ensures
            r.wf(),
            all_zero(r.view_left()),
            all_zero(r.view_right()),
            r.phase() == 0,
            r.spr() == (sample_rate as int) * (SCALE as int) / 1000,
            r.srq() == sat_s((sample_rate as int) * (SCALE as int)),
            r.view_left().len() == (sample_rate as int) * 510 / 1000 + 4,
            r.view_right().len() == r.view_left().len(),
            forall|time: i64| 0 <= time <= 510 * (SCALE as int)
                ==> #[trigger] q_mul_s(time, r.spr()) <= (r.view_left().len() - 2) * (
            SCALE as int),
    {
        let length: usize = ((sample_rate as u64) * 510 / 1000 + 4) as usize;
        let r = PreDelay {
            delay_line: StereoDelayLine::new(length, sample_rate),
            reverse: Reverse::new(sample_rate),
        };
        proof {
            assert forall|time: i64| 0 <= time <= 510 * (SCALE as int)
                implies #[trigger] q_mul_s(time, r.spr()) <= (r.view_left().len() - 2) * (
            SCALE as int) by {
                crate::delay_line::lemma_window_within_capacity(
                    sample_rate as int,
                    r.view_left().len() as int,
                    r.spr(),
                    time,
                    510,
                );
            }
        }
        r
    }

    /// Reads the pre-delay output at `time` milliseconds (clamped to the
    /// documented range), then stores the incoming sample. Zero input into a
    /// silent buffer yields zero output and leaves the buffer silent.
    pub fn process(&mut self, input: (i64, i64), time: i64, reverse_amount: i64) -> (r: (
        i64,
        i64,
    ))
        requires
            old(self).wf(),
        ensures
            final(self).wf(),
            final(self).spr() == old(self).spr(),
            final(self).srq() == old(self).srq(),
            final(self).view_left() == write_s(old(self).view_left(), input.0),
            final(self).view_right() == write_s(old(self).view_right(), input.1),
            final(self).phase() == if q_clamp_s(reverse_amount, 0, Q_ONE) == 0 {
                old(self).phase()
            } else {
                phasor_step_s(
                    old(self).phase(),
                    old(self).srq(),
                    q_div_s(Q_THOUSAND, q_clamp_s(time, MIN_PREDELAY, MAX_PREDELAY)),
                )
            },
            r == predelay_out_s(
                old(self).view_left(),
                old(self).view_right(),
                old(self).spr(),
                final(self).phase(),
                q_clamp_s(time, MIN_PREDELAY, MAX_PREDELAY),
                reverse_amount,
            ),
            input == (0i64, 0i64) && all_zero(old(self).view_left())
                && all_zero(old(self).view_right()) ==> r == (0i64, 0i64)
                && all_zero(final(self).view_left()) && all_zero(final(self).view_right()),
    {
        proof {
            reveal(predelay_out_s);
            self.delay_line.lemma_wf_len();
        }
        let t = q_clamp(time, MIN_PREDELAY, MAX_PREDELAY);
        let ra = q_clamp(reverse_amount, 0, Q_ONE);
        let out: (i64, i64) = if ra == 0 {
            self.delay_line.read(t)
        } else if ra == Q_ONE {
            self.reverse.process(&self.delay_line, t)
        } else {
            let fwd = self.delay_line.read(t);
            let rev = self.reverse.process(&self.delay_line, t);
            (
                q_add(fwd.0, q_mul(q_sub(rev.0, fwd.0), ra)),
                q_add(fwd.1, q_mul(q_sub(rev.1, fwd.1), ra)),
            )
        };
        proof {
            if input == (0i64, 0i64) && all_zero(old(self).view_left()) && all_zero(
                old(self).view_right(),
            ) {
                lemma_read_zero(old(self).view_left(), old(self).spr(), t);
                lemma_read_zero(old(self).view_right(), old(self).spr(), t);
                lemma_write_zero(old(self).view_left(), 0i64);
                lemma_write_zero(old(self).view_right(), 0i64);
                crate::qmath::lemma_q_mul_zero(ra);
                assert(q_sub_s(0i64, 0i64) == 0i64);
                assert(q_add_s(0i64, 0i64) == 0i64);
            }
        }
        self.delay_line.write(input);
        out
    }
}

} // verus!
