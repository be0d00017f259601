//! Constant-power dry/wet combiner: quarter-cosine gain curves keep the
//! perceived loudness steady across the whole blend range.

use vstd::prelude::*;
use crate::qmath::{
    Q_ONE, Q_QUARTER, q_mul_s, q_add_s, q_clamp_s, q_mul, q_add, q_clamp, lemma_q_mul_one,
};
use crate::trig::{cos_turn_s, cos_turn};

verus! {

pub struct Mix;

/// The dry gain at blend position `mix`: a quarter-cosine fade-out.
#[verifier::opaque]
pub open spec fn dry_gain_s(mix: i64) -> i64 {
    cos_turn_s(q_mul_s(q_clamp_s(mix, 0, Q_ONE), Q_QUARTER))
}

/// The wet gain at blend position `mix`: the dry curve three quarter-turns
/// later, a quarter-cosine fade-in.
#[verifier::opaque]
pub open spec fn wet_gain_s(mix: i64) -> i64 {
    let u = q_add_s(q_mul_s(q_clamp_s(mix, 0, Q_ONE), Q_QUARTER), (3 * Q_QUARTER) as i64);
    cos_turn_s(if u >= Q_ONE { (u - Q_ONE) as i64 } else { u })
}

/// The blended stereo pair.
#[verifier::opaque]
pub open spec fn mix_run_s(dry: (i64, i64), wet: (i64, i64), mix: i64) -> (i64, i64) {
    (
        q_add_s(q_mul_s(dry.0, dry_gain_s(mix)), q_mul_s(wet.0, wet_gain_s(mix))),
        q_add_s(q_mul_s(dry.1, dry_gain_s(mix)), q_mul_s(wet.1, wet_gain_s(mix))),
    )
}

impl Mix {
    /// Constant-power crossfade of `dry` and `wet` by `mix` in `[0, 1]`:
    /// `mix == 0` passes the dry signal through untouched and `mix == 1` the
    /// wet signal, exactly.
    pub fn run(dry: (i64, i64), wet: (i64, i64), mix: i64) -> (r: (i64, i64))
        requires
            -0x7fffffffffffffff <= dry.0,
            -0x7fffffffffffffff <= dry.1,
            -0x7fffffffffffffff <= wet.0,
            -0x7fffffffffffffff <= wet.1,
        ensures
            r == mix_run_s(dry, wet, mix),
            -0x7fffffffffffffff <= r.0 <= 0x7fffffffffffffff,
            -0x7fffffffffffffff <= r.1 <= 0x7fffffffffffffff,
            mix <= 0 ==> r == dry,
            mix >= Q_ONE ==> r == wet,
            dry == (0i64, 0i64) && wet == (0i64, 0i64) ==> r == (0i64, 0i64),
    {
        proof {
            reveal(dry_gain_s);
            reveal(wet_gain_s);
            reveal(mix_run_s);
        }
        let m = q_clamp(mix, 0, Q_ONE);
        let phase = q_mul(m, Q_QUARTER);
        proof {
            crate::qmath::lemma_q_mul_unit_bound(m, Q_QUARTER);
            crate::qmath::lemma_q_mul_zero(Q_QUARTER);
            if m == Q_ONE {
                lemma_q_mul_one(Q_QUARTER);
            }
        }
        let dry_gain = cos_turn(phase);
        let wet_phase0 = q_add(phase, 3 * Q_QUARTER);
        let wet_phase = if wet_phase0 >= Q_ONE {
            wet_phase0 - Q_ONE
        } else {
            wet_phase0
        };
        let wet_gain = cos_turn(wet_phase);
        proof {
            crate::qmath::lemma_q_mul_zero(dry_gain);
            crate::qmath::lemma_q_mul_zero(wet_gain);
            if mix <= 0 {
                lemma_q_mul_one(dry.0);
                lemma_q_mul_one(dry.1);
                crate::qmath::lemma_q_mul_zero(wet.0);
                crate::qmath::lemma_q_mul_zero(wet.1);
            }
            if mix >= Q_ONE {
                lemma_q_mul_one(wet.0);
                lemma_q_mul_one(wet.1);
                crate::qmath::lemma_q_mul_zero(dry.0);
                crate::qmath::lemma_q_mul_zero(dry.1);
            }
        }
        (
            q_add(q_mul(dry.0, dry_gain), q_mul(wet.0, wet_gain)),
            q_add(q_mul(dry.1, dry_gain), q_mul(wet.1, wet_gain)),
        )
    }
}

} // verus!
