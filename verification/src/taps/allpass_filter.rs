//! Diffusion stage: a Schroeder allpass built on a delay line, smearing
//! transients in time without changing the overall energy.

use vstd::prelude::*;
use crate::qmath::{SCALE, q_mul_s, q_add_s, q_neg_s, q_mul, q_add, q_neg};
use crate::constants::MAX_SAMPLE_RATE;
use crate::delay_line::{DelayLine, read_s, write_s, all_zero, lemma_read_zero,
    lemma_write_zero};

verus! {

/// The allpass output for one sample: the delayed signal plus a negated
/// feedforward of the recirculating input.
#[verifier::opaque]
pub open spec fn allpass_out_s(v: Seq<i64>, spr: i64, input: i64, time: i64, gain: i64) -> i64 {
    let read_output = read_s(v, spr, time);
    let allpass_input = q_add_s(input, q_mul_s(read_output, gain));
    q_add_s(read_output, q_mul_s(allpass_input, q_neg_s(gain)))
}

/// What the allpass stores for one sample: the input plus the delayed
/// feedback.
#[verifier::opaque]
pub open spec fn allpass_store_s(v: Seq<i64>, spr: i64, input: i64, time: i64, gain: i64) -> i64 {
    q_add_s(input, q_mul_s(read_s(v, spr, time), gain))
}

pub struct AllpassFilter {
    delay_line: DelayLine,
}

impl AllpassFilter {
    pub closed spec fn wf(self) -> bool {
        self.delay_line.wf()
    }

    pub closed spec fn view(self) -> Seq<i64> {
        self.delay_line.view()
    }

    pub closed spec fn spr(self) -> i64 {
        self.delay_line.spr()
    }

    /// Sized for 15 ms, a little beyond the longest diffuser delay: any read
    /// of up to 15 ms stays within the unclamped capacity for the whole
    /// lifetime of the filter.
    pub fn new(sample_rate: u32) -> (r: AllpassFilter)
        requires
            1 <= sample_rate <= MAX_SAMPLE_RATE,
        ensures
            r.wf(),
            all_zero(r.view()),
            r.spr() == (sample_rate as int) * (SCALE as int) / 1000,
            r.view().len() == (sample_rate as int) * 15 / 1000 + 4,
            forall|time: i64| 0 <= time <= 15 * (SCALE as int)
                ==> #[trigger] q_mul_s(time, r.spr()) <= (r.view().len() - 2) * (SCALE as int),
    {
        let length: usize = ((sample_rate as u64) * 15 / 1000 + 4) as usize;
        let r = AllpassFilter { delay_line: DelayLine::new(length, sample_rate) };
        proof {
            assert forall|time: i64| 0 <= time <= 15 * (SCALE as int)
                implies #[trigger] q_mul_s(time, r.spr()) <= (r.view().len() - 2) * (
            SCALE as int) by {
                crate::delay_line::lemma_window_within_capacity(
                    sample_rate as int,
                    r.view().len() as int,
                    r.spr(),
                    time,
                    15,
                );
            }
        }
        r
    }

    /// One allpass step at `time` milliseconds with feedback `gain`: returns
    /// the diffused sample and stores the recirculating one. Silence in,
    /// silent line: silence out, line stays silent.
    pub fn process(&mut self, input: i64, time: i64, gain: i64) -> (r: i64)
        requires
            old(self).wf(),
        ensures
            final(self).wf(),
            final(self).spr() == old(self).spr(),
            r == allpass_out_s(old(self).view(), old(self).spr(), input, time, gain),
            final(self).view() == write_s(
                old(self).view(),
                allpass_store_s(old(self).view(), old(self).spr(), input, time, gain),
            ),
            input == 0 && all_zero(old(self).view()) ==> r == 0
                && all_zero(final(self).view()),
    {
        proof {
            reveal(allpass_out_s);
            reveal(allpass_store_s);
        }
        let read_output = self.delay_line.read(time);
        let feedback = q_mul(read_output, gain);
        let allpass_input = q_add(input, feedback);
        let feedforward = q_mul(allpass_input, q_neg(gain));
        let allpass_output = q_add(read_output, feedforward);
        proof {
            if input == 0 && all_zero(old(self).view()) {
                self.delay_line.lemma_wf_len();
                lemma_read_zero(old(self).view(), old(self).spr(), time);
                crate::qmath::lemma_q_mul_zero(gain);
                crate::qmath::lemma_q_mul_zero(q_neg_s(gain));
                lemma_write_zero(old(self).view(), 0i64);
            }
        }
        self.delay_line.write(allpass_input);
        allpass_output
    }
}

} // verus!
