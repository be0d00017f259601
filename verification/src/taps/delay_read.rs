//! The three ways a network delay line is read, selected by the sign of the
//! modulation depth: a static tap, a sinusoidal vibrato tap, or a granular
//! tap.

use vstd::prelude::*;
use crate::qmath::{
    Q_ONE, q_mul_s, q_add_s, q_abs_s, q_mul, q_add, q_abs,
};
use crate::delay_line::{DelayLine, read_s, all_zero, lemma_read_zero};
use crate::trig::{sin_turn_s, sin_turn};
use super::grains::{Grains, wrap1_s, grains_out_s};

verus! {

/// The vibrato tap: the static time offset by a sine of the per-line phase,
/// scaled by the depth magnitude.
#[verifier::opaque]
pub open spec fn vibrato_read_s(
    v: Seq<i64>,
    spr: i64,
    size: i64,
    time_fraction: i64,
    lfo_phase: i64,
    lfo_phase_offset: i64,
    lfo_depth: i64,
) -> i64 {
    let phase = wrap1_s(q_add_s(lfo_phase, lfo_phase_offset));
    let lfo = q_mul_s(sin_turn_s(phase), q_abs_s(lfo_depth));
    read_s(v, spr, q_add_s(q_mul_s(size, time_fraction), lfo))
}

/// What a network read returns, given the grain start offsets that end up in
/// force.
#[verifier::opaque]
pub open spec fn delay_network_read_s(
    v: Seq<i64>,
    spr: i64,
    size: i64,
    time_fraction: i64,
    lfo_phase: i64,
    lfo_phase_offset: i64,
    lfo_depth: i64,
    start_a: i64,
    start_b: i64,
) -> i64 {
    if lfo_depth == 0 {
        read_s(v, spr, q_mul_s(size, time_fraction))
    } else if lfo_depth < 0 {
        vibrato_read_s(v, spr, size, time_fraction, lfo_phase, lfo_phase_offset, lfo_depth)
    } else {
        grains_out_s(v, spr, size, time_fraction, lfo_phase, lfo_depth, start_a, start_b)
    }
}

impl DelayLine {
    /// The modulated network tap. With zero depth the grains are untouched;
    /// with positive depth they carry the read and may re-trigger. A silent
    /// line reads as silence in every mode.
    pub fn delay_network_read(
        &self,
        size: i64,
        time_fraction: i64,
        lfo_phase: i64,
        lfo_phase_offset: i64,
        lfo_depth: i64,
        grains: &mut Grains,
    ) -> (r: i64)
        requires
            self.wf(),
            old(grains).wf(),
            0 <= lfo_phase < Q_ONE,
            0 <= lfo_phase_offset < Q_ONE,
        ensures
            final(grains).wf(),
            r == delay_network_read_s(
                self.view(),
                self.spr(),
                size,
                time_fraction,
                lfo_phase,
                lfo_phase_offset,
                lfo_depth,
                final(grains).start_a(),
                final(grains).start_b(),
            ),
            lfo_depth <= 0 ==> *final(grains) == *old(grains),
            lfo_depth > 0 ==> {
                &&& 0 <= final(grains).start_a() <= lfo_depth || final(grains).start_a()
                    == old(grains).start_a()
                &&& 0 <= final(grains).start_b() <= lfo_depth || final(grains).start_b()
                    == old(grains).start_b()
            },
            all_zero(self.view()) ==> r == 0,
    {
        proof {
            reveal(delay_network_read_s);
        }
        if lfo_depth == 0 {
            proof {
                if all_zero(self.view()) {
                    self.lemma_wf_len();
                    lemma_read_zero(self.view(), self.spr(), q_mul_s(size, time_fraction));
                }
            }
            self.read(q_mul(size, time_fraction))
        } else if lfo_depth < 0 {
            self.vibrato_read(size, lfo_phase, lfo_phase_offset, lfo_depth, time_fraction)
        } else {
            self.grain_read(grains, size, time_fraction, lfo_phase, lfo_depth)
        }
    }

    /// The sinusoidally modulated tap.
    pub fn vibrato_read(
        &self,
        size: i64,
        lfo_phase: i64,
        lfo_phase_offset: i64,
        lfo_depth: i64,
        time_fraction: i64,
    ) -> (r: i64)
        requires
            self.wf(),
            0 <= lfo_phase < Q_ONE,
            0 <= lfo_phase_offset < Q_ONE,
        ensures
            r == vibrato_read_s(
                self.view(),
                self.spr(),
                size,
                time_fraction,
                lfo_phase,
                lfo_phase_offset,
                lfo_depth,
            ),
            all_zero(self.view()) ==> r == 0,
    {
        proof {
            reveal(vibrato_read_s);
        }
        let phase0 = q_add(lfo_phase, lfo_phase_offset);
        let phase = if phase0 >= Q_ONE {
            phase0 - Q_ONE
        } else {
            phase0
        };
        let lfo = q_mul(sin_turn(phase), q_abs(lfo_depth));
        let time = q_add(q_mul(size, time_fraction), lfo);
        proof {
            if all_zero(self.view()) {
                self.lemma_wf_len();
                lemma_read_zero(
                    self.view(),
                    self.spr(),
                    q_add_s(q_mul_s(size, time_fraction), q_mul_s(sin_turn_s(wrap1_s(
                        q_add_s(lfo_phase, lfo_phase_offset))), q_abs_s(lfo_depth))),
                );
            }
        }
        self.read(time)
    }

    /// The granular tap.
    pub fn grain_read(
        &self,
        grains: &mut Grains,
        size: i64,
        time_fraction: i64,
        lfo_phase: i64,
        lfo_depth: i64,
    ) -> (r: i64)
        requires
            self.wf(),
            old(grains).wf(),
            0 <= lfo_phase < Q_ONE,
            0 < lfo_depth,
        ensures
            final(grains).wf(),
            r == grains_out_s(
                self.view(),
                self.spr(),
                size,
                time_fraction,
                lfo_phase,
                lfo_depth,
                final(grains).start_a(),
                final(grains).start_b(),
            ),
            0 <= final(grains).start_a() <= lfo_depth || final(grains).start_a() == old(
                grains,
            ).start_a(),
            0 <= final(grains).start_b() <= lfo_depth || final(grains).start_b() == old(
                grains,
            ).start_b(),
            all_zero(self.view()) ==> r == 0,
    {
        grains.process(self, size, time_fraction, lfo_phase, lfo_depth)
    }
}

} // verus!
