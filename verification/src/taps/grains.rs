//! Granular delay reading: two overlapping grain voices per delay line, each
//! re-triggered with a fresh random sub-offset whenever its modulation phase
//! wraps, windowed by a raised-sine envelope so the splice is inaudible. For
//! small depths the granular read is faded against the plain tap.

use vstd::prelude::*;
use crate::qmath::{
    Q_ONE, Q_HALF, q_mul_s, q_add_s, q_sub_s, q_div_s, q_clamp_s, q_mul, q_add, q_sub, q_div,
    q_clamp,
};
use crate::delay_line::{DelayLine, read_s, all_zero, lemma_read_zero};
use crate::trig::{sin_turn_s, sin_turn};

verus! {

/// 0.4 in fixed point: the depth (in milliseconds) below which the granular
/// read fades against the plain tap.
pub const FADE_THRESHOLD: i64 = 429496730;

/// A phase sum folded back below one turn.
pub open spec fn wrap1_s(x: i64) -> i64 {
    if x >= Q_ONE {
        (x - Q_ONE) as i64
    } else {
        x
    }
}

/// Tracks the sample-to-sample change of a phase; a negative change means
/// the phase wrapped.
pub struct Delta {
    z: i64,
}

impl Delta {
    pub closed spec fn last(self) -> i64 {
        self.z
    }

    pub fn new() -> (r: Delta)
        ensures
            r.last() == 0,
    {
        Delta { z: 0 }
    }

    /// Returns the change since the previous call and remembers `x`.
    pub fn process(&mut self, x: i64) -> (d: i64)
        ensures
            d == q_sub_s(x, old(self).last()),
            final(self).last() == x,
    {
        let d = q_sub(x, self.z);
        self.z = x;
        d
    }
}

/// One grain voice: the tap at `size * time_fraction + start` milliseconds
/// under a raised-sine window at the voice's phase.
pub open spec fn grain_voice_s(
    v: Seq<i64>,
    spr: i64,
    size: i64,
    time_fraction: i64,
    phase: i64,
    start: i64,
) -> i64 {
    let window = sin_turn_s(q_mul_s(phase, Q_HALF));
    let time = q_add_s(q_mul_s(size, time_fraction), start);
    q_mul_s(q_mul_s(read_s(v, spr, time), window), window)
}

/// The two voices summed.
pub open spec fn grains_sum_s(
    v: Seq<i64>,
    spr: i64,
    size: i64,
    time_fraction: i64,
    phase_a: i64,
    phase_b: i64,
    start_a: i64,
    start_b: i64,
) -> i64 {
    q_add_s(
        grain_voice_s(v, spr, size, time_fraction, phase_a, start_a),
        grain_voice_s(v, spr, size, time_fraction, phase_b, start_b),
    )
}

/// The full granular read for given (post-trigger) start offsets: the
/// two-voice sum, faded against the plain tap below the fade threshold.
#[verifier::opaque]
pub open spec fn grains_out_s(
    v: Seq<i64>,
    spr: i64,
    size: i64,
    time_fraction: i64,
    lfo_phase: i64,
    lfo_depth: i64,
    start_a: i64,
    start_b: i64,
) -> i64 {
    let sum = grains_sum_s(
        v,
        spr,
        size,
        time_fraction,
        wrap1_s(lfo_phase),
        wrap1_s(q_add_s(lfo_phase, Q_HALF)),
        start_a,
        start_b,
    );
    if lfo_depth < FADE_THRESHOLD {
        let plain = read_s(v, spr, q_mul_s(size, time_fraction));
        q_add_s(
            plain,
            q_mul_s(
                q_sub_s(sum, plain),
                q_clamp_s(q_div_s(lfo_depth, FADE_THRESHOLD), 0, Q_ONE),
            ),
        )
    } else {
        sum
    }
}

/// Relies on fastrand::i64: a uniform draw from the closed range
/// `0..=bound`, which is nonempty for a nonnegative bound.
#[verifier::external_body]
fn random_offset(bound: i64) -> (r: i64)
    requires
        bound >= 0,
    ensures
        0 <= r <= bound,
{
    fastrand::i64(0..=bound)
}

pub struct Grains {
    start_position_a: i64,
    start_position_b: i64,
    delta_a: Delta,
    delta_b: Delta,
}

impl Grains {
    pub closed spec fn wf(self) -> bool {
        &&& 0 <= self.start_position_a
        &&& 0 <= self.start_position_b
    }

    pub closed spec fn start_a(self) -> i64 {
        self.start_position_a
    }

    pub closed spec fn start_b(self) -> i64 {
        self.start_position_b
    }

    pub closed spec fn last_phase_a(self) -> i64 {
        self.delta_a.last()
    }

    pub closed spec fn last_phase_b(self) -> i64 {
        self.delta_b.last()
    }

    pub fn new() -> (r: Grains)
        ensures
            r.wf(),
            r.start_a() == 0,
            r.start_b() == 0,
            r.last_phase_a() == 0,
            r.last_phase_b() == 0,
    {
        Grains {
            start_position_a: 0,
            start_position_b: 0,
            delta_a: Delta::new(),
            delta_b: Delta::new(),
        }
    }

    /// The granular read. A voice whose phase wrapped since the last call
    /// redraws its start offset uniformly within the depth; the output is
    /// the windowed two-voice sum, faded against the plain tap below the
    /// fade threshold. A silent delay line always reads back as silence.
    pub fn process(
        &mut self,
        delay_line: &DelayLine,
        size: i64,
        time_fraction: i64,
        lfo_phase: i64,
        lfo_depth: i64,
    ) -> (r: i64)
        requires
            old(self).wf(),
            delay_line.wf(),
            0 <= lfo_phase < Q_ONE,
            0 <= lfo_depth,
        ensures
            final(self).wf(),
            final(self).last_phase_a() == wrap1_s(lfo_phase),
            final(self).last_phase_b() == wrap1_s(q_add_s(lfo_phase, Q_HALF)),
            final(self).start_a() == if q_sub_s(wrap1_s(lfo_phase), old(self).last_phase_a())
                < 0 {
                final(self).start_a()
            } else {
                old(self).start_a()
            },
            q_sub_s(wrap1_s(lfo_phase), old(self).last_phase_a()) < 0
                ==> 0 <= final(self).start_a() <= lfo_depth,
            final(self).start_b() == if q_sub_s(
                wrap1_s(q_add_s(lfo_phase, Q_HALF)),
                old(self).last_phase_b(),
            ) < 0 {
                final(self).start_b()
            } else {
                old(self).start_b()
            },
            q_sub_s(wrap1_s(q_add_s(lfo_phase, Q_HALF)), old(self).last_phase_b()) < 0 ==> 0
                <= final(self).start_b() <= lfo_depth,
            r == grains_out_s(
                delay_line.view(),
                delay_line.spr(),
                size,
                time_fraction,
                lfo_phase,
                lfo_depth,
                final(self).start_a(),
                final(self).start_b(),
            ),
            all_zero(delay_line.view()) ==> r == 0,
    {
        proof {
            reveal(grains_out_s);
        }
        let phase_a = lfo_phase;
        let phase_b0 = q_add(lfo_phase, Q_HALF);
        let phase_b = if phase_b0 >= Q_ONE {
            phase_b0 - Q_ONE
        } else {
            phase_b0
        };
        let da = self.delta_a.process(phase_a);
        if da < 0 {
            self.start_position_a = random_offset(lfo_depth);
        }
        let db = self.delta_b.process(phase_b);
        if db < 0 {
            self.start_position_b = random_offset(lfo_depth);
        }
        let va = self.apply_voice(delay_line, size, time_fraction, phase_a,
            self.start_position_a);
        let vb = self.apply_voice(delay_line, size, time_fraction, phase_b,
            self.start_position_b);
        let sum = q_add(va, vb);
        proof {
            if all_zero(delay_line.view()) {
                delay_line.lemma_wf_len();
                lemma_read_zero(
                    delay_line.view(),
                    delay_line.spr(),
                    q_mul_s(size, time_fraction),
                );
                crate::qmath::lemma_q_mul_zero(
                    q_clamp_s(q_div_s(lfo_depth, FADE_THRESHOLD), 0, Q_ONE),
                );
            }
            assert(wrap1_s(lfo_phase) == phase_a);
        }
        if lfo_depth < FADE_THRESHOLD {
            let plain = delay_line.read(q_mul(size, time_fraction));
            let factor = q_clamp(q_div(lfo_depth, FADE_THRESHOLD), 0, Q_ONE);
            q_add(plain, q_mul(q_sub(sum, plain), factor))
        } else {
            sum
        }
    }

    /// One windowed voice; a silent line contributes exactly zero.
    fn apply_voice(
        &self,
        delay_line: &DelayLine,
        size: i64,
        time_fraction: i64,
        phase: i64,
        start: i64,
    ) -> (r: i64)
        requires
            delay_line.wf(),
            0 <= phase < Q_ONE,
        ensures
            r == grain_voice_s(
                delay_line.view(),
                delay_line.spr(),
                size,
                time_fraction,
                phase,
                start,
            ),
            all_zero(delay_line.view()) ==> r == 0,
    {
        proof {
            crate::qmath::lemma_q_mul_unit_bound(Q_HALF, phase);
        }
        let window = sin_turn(q_mul(phase, Q_HALF));
        let time = q_add(q_mul(size, time_fraction), start);
        let out = delay_line.read(time);
        proof {
            if all_zero(delay_line.view()) {
                delay_line.lemma_wf_len();
                lemma_read_zero(delay_line.view(), delay_line.spr(), q_add_s(q_mul_s(size,
                    time_fraction), start));
                crate::qmath::lemma_q_mul_zero(window);
            }
        }
        q_mul(q_mul(out, window), window)
    }
}

} // verus!
