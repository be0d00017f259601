//! Early reflections: six fixed-offset taps per channel into the first two
//! network delay lines, each attenuated a further dB step, the whole pattern
//! scaled down as the room grows.

use vstd::prelude::*;
use crate::qmath::{q_mul_s, q_add_s, q_sub_s, q_mul, q_add, q_sub};
use crate::constants::MIN_SIZE;
use crate::delay_line::{DelayLine, read_s, all_zero, lemma_read_zero};

verus! {

/// The six left-channel tap positions, as fractions of the room size.
pub const REFL_L0: i64 = 0;

pub const REFL_L1: i64 = 201863463;

pub const REFL_L2: i64 = 298500227;

pub const REFL_L3: i64 = 408021893;

pub const REFL_L4: i64 = 517543559;

pub const REFL_L5: i64 = 627065225;

/// The six right-channel tap positions, as fractions of the room size.
pub const REFL_R0: i64 = 19327353;

pub const REFL_R1: i64 = 92341797;

pub const REFL_R2: i64 = 311385129;

pub const REFL_R3: i64 = 420906795;

pub const REFL_R4: i64 = 530428461;

pub const REFL_R5: i64 = 641023869;

/// Per-tap attenuations: 0 dB down to -5 dB in 1 dB steps.
pub const ATT0: i64 = 1073741824;

pub const ATT1: i64 = 956973408;

pub const ATT2: i64 = 852903448;

pub const ATT3: i64 = 760150998;

pub const ATT4: i64 = 677485290;

pub const ATT5: i64 = 603809400;

/// -3 dB in fixed point, the pattern gain for the smallest room.
pub const ER_GAIN_BASE: i64 = 760151229;

/// How much the pattern gain falls per unit of room size (negative).
pub const ER_SIZE_MULTIPLIER: i64 = -1328908;

/// The reflection gain for a room of the given size: quieter as the room
/// grows.
pub open spec fn er_gain_s(size: i64) -> i64 {
    q_add_s(q_mul_s(q_sub_s(size, MIN_SIZE), ER_SIZE_MULTIPLIER), ER_GAIN_BASE)
}

/// One attenuated tap.
pub open spec fn er_tap_s(v: Seq<i64>, spr: i64, size: i64, frac: i64, att: i64) -> i64 {
    q_mul_s(read_s(v, spr, q_mul_s(size, frac)), att)
}

/// The left-channel reflection sum, scaled by the room gain.
#[verifier::opaque]
pub open spec fn er_left_s(v: Seq<i64>, spr: i64, size: i64) -> i64 {
    let sum = q_add_s(
        q_add_s(
            q_add_s(
                q_add_s(
                    q_add_s(er_tap_s(v, spr, size, REFL_L0, ATT0), er_tap_s(v, spr, size,
                        REFL_L1, ATT1)),
                    er_tap_s(v, spr, size, REFL_L2, ATT2),
                ),
                er_tap_s(v, spr, size, REFL_L3, ATT3),
            ),
            er_tap_s(v, spr, size, REFL_L4, ATT4),
        ),
        er_tap_s(v, spr, size, REFL_L5, ATT5),
    );
    q_mul_s(sum, er_gain_s(size))
}

/// The right-channel reflection sum, scaled by the room gain.
#[verifier::opaque]
pub open spec fn er_right_s(v: Seq<i64>, spr: i64, size: i64) -> i64 {
    let sum = q_add_s(
        q_add_s(
            q_add_s(
                q_add_s(
                    q_add_s(er_tap_s(v, spr, size, REFL_R0, ATT0), er_tap_s(v, spr, size,
                        REFL_R1, ATT1)),
                    er_tap_s(v, spr, size, REFL_R2, ATT2),
                ),
                er_tap_s(v, spr, size, REFL_R3, ATT3),
            ),
            er_tap_s(v, spr, size, REFL_R4, ATT4),
        ),
        er_tap_s(v, spr, size, REFL_R5, ATT5),
    );
    q_mul_s(sum, er_gain_s(size))
}

pub struct EarlyReflections;

impl EarlyReflections {
    pub fn new() -> (r: EarlyReflections) {
        EarlyReflections
    }

    /// The stereo reflection pattern read from the first two network lines.
    /// Silent lines reflect silence.
    pub fn process(&self, size: i64, line0: &DelayLine, line1: &DelayLine) -> (r: (i64, i64))
        requires
            line0.wf(),
            line1.wf(),
        ensures
            r.0 == er_left_s(line0.view(), line0.spr(), size),
            r.1 == er_right_s(line1.view(), line1.spr(), size),
            all_zero(line0.view()) && all_zero(line1.view()) ==> r == (0i64, 0i64),
    {
        proof {
            reveal(er_left_s);
            reveal(er_right_s);
        }
        let gain = q_add(q_mul(q_sub(size, MIN_SIZE), ER_SIZE_MULTIPLIER), ER_GAIN_BASE);
        let l = Self::tap(line0, size, REFL_L0, ATT0);
        let l = q_add(l, Self::tap(line0, size, REFL_L1, ATT1));
        let l = q_add(l, Self::tap(line0, size, REFL_L2, ATT2));
        let l = q_add(l, Self::tap(line0, size, REFL_L3, ATT3));
        let l = q_add(l, Self::tap(line0, size, REFL_L4, ATT4));
        let l = q_add(l, Self::tap(line0, size, REFL_L5, ATT5));
        let r = Self::tap(line1, size, REFL_R0, ATT0);
        let r = q_add(r, Self::tap(line1, size, REFL_R1, ATT1));
        let r = q_add(r, Self::tap(line1, size, REFL_R2, ATT2));
        let r = q_add(r, Self::tap(line1, size, REFL_R3, ATT3));
        let r = q_add(r, Self::tap(line1, size, REFL_R4, ATT4));
        let r = q_add(r, Self::tap(line1, size, REFL_R5, ATT5));
        proof {
            crate::qmath::lemma_q_mul_zero(er_gain_s(size));
        }
        (q_mul(l, gain), q_mul(r, gain))
    }

    /// One attenuated tap; reads silence as zero.
    fn tap(line: &DelayLine, size: i64, frac: i64, att: i64) -> (r: i64)
        requires
            line.wf(),
        ensures
            r == er_tap_s(line.view(), line.spr(), size, frac, att),
            all_zero(line.view()) ==> r == 0,
    {
        proof {
            if all_zero(line.view()) {
                line.lemma_wf_len();
                lemma_read_zero(line.view(), line.spr(), q_mul_s(size, frac));
                crate::qmath::lemma_q_mul_zero(att);
            }
        }
        q_mul(line.read(q_mul(size, frac)), att)
    }
}

} // verus!
