//! Shimmer: a two-voice granular pitch-regeneration stage. A short rotating
//! delay is scanned backwards at a fixed negative rate, each voice under a
//! raised-sine window, and the result is crossfaded into the feedback path.

use vstd::prelude::*;
use crate::qmath::{
    Q_ONE, Q_HALF, SCALE, sat_s, q_mul_s, q_add_s, q_sub_s, q_clamp_s, q_mul, q_add, q_sub,
    q_clamp,
};
use crate::constants::MAX_SAMPLE_RATE;
use crate::delay_line::{read_s, write_s, all_zero, lemma_read_zero, lemma_write_zero};
use crate::stereo_delay_line::StereoDelayLine;
use crate::phasor::{Phasor, phasor_step_s};
use crate::trig::{sin_turn_s, sin_turn};

verus! {

/// The rotation rate in Hz (negative: the window scans backwards).
pub const SHIMMER_FREQUENCY: i64 = -5368709120;

/// The rotating window length in milliseconds.
pub const SHIMMER_WINDOW: i64 = 214748364800;

/// One shimmer voice: the tap at `phase * window` milliseconds under a
/// raised-sine window.
#[verifier::opaque]
pub open spec fn shimmer_voice_s(v: Seq<i64>, spr: i64, phase: i64) -> i64 {
    let window = sin_turn_s(q_mul_s(phase, Q_HALF));
    let w2 = q_mul_s(window, window);
    q_mul_s(read_s(v, spr, q_mul_s(phase, SHIMMER_WINDOW)), w2)
}

/// The two voices a half cycle apart, summed, for the post-step phase `ph`.
#[verifier::opaque]
pub open spec fn shimmer_sum_s(vl: Seq<i64>, vr: Seq<i64>, spr: i64, ph: i64) -> (i64, i64) {
    let pb = if q_add_s(ph, Q_HALF) >= Q_ONE {
        (q_add_s(ph, Q_HALF) - Q_ONE) as i64
    } else {
        q_add_s(ph, Q_HALF)
    };
    (
        q_add_s(shimmer_voice_s(vl, spr, ph), shimmer_voice_s(vl, spr, pb)),
        q_add_s(shimmer_voice_s(vr, spr, ph), shimmer_voice_s(vr, spr, pb)),
    )
}

/// What the stage hands on: for a positive mix, `dry` moved toward the
/// two-voice regenerated sum by the clamped mix; otherwise `dry` untouched.
#[verifier::opaque]
pub open spec fn shimmer_out_s(
    vl: Seq<i64>,
    vr: Seq<i64>,
    spr: i64,
    ph_stepped: i64,
    dry: (i64, i64),
    mix: i64,
) -> (i64, i64) {
    if mix > 0 {
        let sum = shimmer_sum_s(vl, vr, spr, ph_stepped);
        (
            q_add_s(dry.0, q_mul_s(q_sub_s(sum.0, dry.0), q_clamp_s(mix, 0, Q_ONE))),
            q_add_s(dry.1, q_mul_s(q_sub_s(sum.1, dry.1), q_clamp_s(mix, 0, Q_ONE))),
        )
    } else {
        dry
    }
}

/// What the stage stores each sample: the midpoint of the dry input and the
/// network output.
pub open spec fn shimmer_store_s(dry: (i64, i64), wet: (i64, i64)) -> (i64, i64) {
    (
        q_mul_s(q_add_s(dry.0, wet.0), Q_HALF),
        q_mul_s(q_add_s(dry.1, wet.1), Q_HALF),
    )
}

pub struct Shimmer {
    delay_line: StereoDelayLine,
    phasor: Phasor,
}

impl Shimmer {
    pub closed spec fn wf(self) -> bool {
        &&& self.delay_line.wf()
        &&& self.phasor.wf()
    }

    pub closed spec fn view_left(self) -> Seq<i64> {
        self.delay_line.view_left()
    }

    pub closed spec fn view_right(self) -> Seq<i64> {
        self.delay_line.view_right()
    }

    pub closed spec fn spr(self) -> i64 {
        self.delay_line.spr()
    }

    pub closed spec fn phase(self) -> i64 {
        self.phasor.phase()
    }

    pub closed spec fn srq(self) -> i64 {
        self.phasor.srq()
    }

    /// Sized for the rotating window: any read of up to its 200 ms stays
    /// within the unclamped capacity.
    pub fn new(sample_rate: u32) -> (r: Shimmer)
        requires
            1 <= sample_rate <= MAX_SAMPLE_RATE,
        ensures
            r.wf(),
            all_zero(r.view_left()),
            all_zero(r.view_right()),
            r.phase() == 0,
            r.spr() == (sample_rate as int) * (SCALE as int) / 1000,
            r.srq() == sat_s((sample_rate as int) * (SCALE as int)),
            r.view_left().len() == (sample_rate as int) * 200 / 1000 + 4,
            r.view_right().len() == r.view_left().len(),
            forall|time: i64| 0 <= time <= 200 * (SCALE as int)
                ==> #[trigger] q_mul_s(time, r.spr()) <= (r.view_left().len() - 2) * (
            SCALE as int),
    {
        let length: usize = ((sample_rate as u64) * 200 / 1000 + 4) as usize;
        let r = Shimmer {
            delay_line: StereoDelayLine::new(length, sample_rate),
            phasor: Phasor::new(sample_rate),
        };
        proof {
            assert forall|time: i64| 0 <= time <= 200 * (SCALE as int)
                implies #[trigger] q_mul_s(time, r.spr()) <= (r.view_left().len() - 2) * (
            SCALE as int) by {
                crate::delay_line::lemma_window_within_capacity(
                    sample_rate as int,
                    r.view_left().len() as int,
                    r.spr(),
                    time,
                    200,
                );
            }
        }
        r
    }

    /// Blends the regenerated (pitch-rotated) tail into `dry` by `mix`, then
    /// stores the mid signal of `dry` and `wet` for the next grains. With
    /// `mix <= 0` the scan stands still and `dry` passes through untouched.
    /// Silence in, silent line: silence out, line stays silent.
    pub fn process(&mut self, dry: (i64, i64), wet: (i64, i64), mix: i64) -> (r: (i64, i64))
        requires
            old(self).wf(),
        ensures
            final(self).wf(),
            final(self).spr() == old(self).spr(),
            final(self).srq() == old(self).srq(),
            final(self).view_left() == write_s(
                old(self).view_left(),
                shimmer_store_s(dry, wet).0,
            ),
            final(self).view_right() == write_s(
                old(self).view_right(),
                shimmer_store_s(dry, wet).1,
            ),
            final(self).phase() == if mix > 0 {
                phasor_step_s(old(self).phase(), old(self).srq(), SHIMMER_FREQUENCY)
            } else {
                old(self).phase()
            },
            r == shimmer_out_s(
                old(self).view_left(),
                old(self).view_right(),
                old(self).spr(),
                phasor_step_s(old(self).phase(), old(self).srq(), SHIMMER_FREQUENCY),
                dry,
                mix,
            ),
            dry == (0i64, 0i64) && wet == (0i64, 0i64) && all_zero(old(self).view_left())
                && all_zero(old(self).view_right()) ==> r == (0i64, 0i64)
                && all_zero(final(self).view_left()) && all_zero(final(self).view_right()),
    {
        proof {
            reveal(shimmer_out_s);
        }
        let out: (i64, i64) = if mix > 0 {
            let sum = self.apply_shimmer();
            let m = q_clamp(mix, 0, Q_ONE);
            proof {
                if dry == (0i64, 0i64) && all_zero(old(self).view_left()) && all_zero(
                    old(self).view_right(),
                ) {
                    crate::qmath::lemma_q_mul_zero(m);
                }
            }
            (
                q_add(dry.0, q_mul(q_sub(sum.0, dry.0), m)),
                q_add(dry.1, q_mul(q_sub(sum.1, dry.1), m)),
            )
        } else {
            dry
        };
        proof {
            crate::qmath::lemma_q_mul_zero(Q_HALF);
            if dry == (0i64, 0i64) && wet == (0i64, 0i64) && all_zero(old(self).view_left())
                && all_zero(old(self).view_right()) {
                self.delay_line.lemma_wf_len();
                lemma_write_zero(old(self).view_left(), 0i64);
                lemma_write_zero(old(self).view_right(), 0i64);
            }
        }
        let store = (
            q_mul(q_add(dry.0, wet.0), Q_HALF),
            q_mul(q_add(dry.1, wet.1), Q_HALF),
        );
        self.delay_line.write(store);
        out
    }

    /// Advances the scan and returns the two-voice windowed sum; a silent
    /// line sums to silence.
    fn apply_shimmer(&mut self) -> (r: (i64, i64))
        requires
            old(self).wf(),
        ensures
            final(self).wf(),
            final(self).spr() == old(self).spr(),
            final(self).srq() == old(self).srq(),
            final(self).view_left() == old(self).view_left(),
            final(self).view_right() == old(self).view_right(),
            final(self).phase() == phasor_step_s(
                old(self).phase(),
                old(self).srq(),
                SHIMMER_FREQUENCY,
            ),
            r == shimmer_sum_s(
                old(self).view_left(),
                old(self).view_right(),
                old(self).spr(),
                final(self).phase(),
            ),
            all_zero(old(self).view_left()) && all_zero(old(self).view_right()) ==> r == (
            0i64, 0i64),
    {
        proof {
            reveal(shimmer_sum_s);
        }
        let ph = self.phasor.process(SHIMMER_FREQUENCY);
        let pb0 = q_add(ph, Q_HALF);
        let pb = if pb0 >= Q_ONE {
            pb0 - Q_ONE
        } else {
            pb0
        };
        let la = self.voice_left(ph);
        let lb = self.voice_left(pb);
        let ra = self.voice_right(ph);
        let rb = self.voice_right(pb);
        (q_add(la, lb), q_add(ra, rb))
    }

    /// One left-channel voice.
    fn voice_left(&self, phase: i64) -> (r: i64)
        requires
            self.wf(),
            0 <= phase < Q_ONE,
        ensures
            r == shimmer_voice_s(self.view_left(), self.spr(), phase),
            all_zero(self.view_left()) ==> r == 0,
    {
        proof {
            reveal(shimmer_voice_s);
            crate::qmath::lemma_q_mul_unit_bound(Q_HALF, phase);
            if all_zero(self.view_left()) {
                self.delay_line.lemma_wf_len();
                lemma_read_zero(self.view_left(), self.spr(), q_mul_s(phase, SHIMMER_WINDOW));
            }
        }
        let window = sin_turn(q_mul(phase, Q_HALF));
        let w2 = q_mul(window, window);
        proof {
            if all_zero(self.view_left()) {
                crate::qmath::lemma_q_mul_zero(w2);
            }
        }
        let out = self.delay_line.read(q_mul(phase, SHIMMER_WINDOW));
        q_mul(out.0, w2)
    }

    /// One right-channel voice.
    fn voice_right(&self, phase: i64) -> (r: i64)
        requires
            self.wf(),
            0 <= phase < Q_ONE,
        ensures
            r == shimmer_voice_s(self.view_right(), self.spr(), phase),
            all_zero(self.view_right()) ==> r == 0,
    {
        proof {
            reveal(shimmer_voice_s);
            crate::qmath::lemma_q_mul_unit_bound(Q_HALF, phase);
            if all_zero(self.view_right()) {
                self.delay_line.lemma_wf_len();
                lemma_read_zero(self.view_right(), self.spr(), q_mul_s(phase, SHIMMER_WINDOW));
            }
        }
        let window = sin_turn(q_mul(phase, Q_HALF));
        let w2 = q_mul(window, window);
        proof {
            if all_zero(self.view_right()) {
                crate::qmath::lemma_q_mul_zero(w2);
            }
        }
        let out = self.delay_line.read(q_mul(phase, SHIMMER_WINDOW));
        q_mul(out.1, w2)
    }
}

} // verus!
