//! Canonical second-order IIR section (transposed direct form), one history
//! pair per stereo channel, with tiny residues flushed each call.

use vstd::prelude::*;
use crate::qmath::{Q_ONE, q_mul_s, q_add_s, q_sub_s, q_mul, q_add, q_sub, lemma_q_mul_one,
    lemma_q_mul_zero};
use crate::taps::dc_block::{DcBlock, flush_s};

verus! {

/// A second-order rational filter: numerator `b0, b1, b2` over denominator
/// `a0, a1, a2`.
#[derive(Clone, Copy, PartialEq, Eq, Structural)]
pub struct Coefficients {
    pub b0: i64,
    pub b1: i64,
    pub b2: i64,
    pub a0: i64,
    pub a1: i64,
    pub a2: i64,
}

/// The section's output for one sample.
pub open spec fn biquad_out_s(c: Coefficients, z0: i64, x: i64) -> i64 {
    q_add_s(q_mul_s(x, c.b0), z0)
}

/// The first history cell after one sample.
pub open spec fn biquad_z0_s(c: Coefficients, z1: i64, x: i64, y: i64) -> i64 {
    flush_s(q_add_s(q_sub_s(q_mul_s(x, c.b1), q_mul_s(y, c.a1)), z1))
}

/// The second history cell after one sample.
pub open spec fn biquad_z1_s(c: Coefficients, x: i64, y: i64) -> i64 {
    flush_s(q_sub_s(q_mul_s(x, c.b2), q_mul_s(y, c.a2)))
}

pub struct BiquadFilter {
    z0_left: i64,
    z1_left: i64,
    z0_right: i64,
    z1_right: i64,
}

impl BiquadFilter {
    /// The histories: left pair, then right pair.
    pub closed spec fn state(self) -> (i64, i64, i64, i64) {
        (self.z0_left, self.z1_left, self.z0_right, self.z1_right)
    }

    pub open spec fn is_silent(self) -> bool {
        self.state() == (0i64, 0i64, 0i64, 0i64)
    }

    pub fn new() -> (r: BiquadFilter)
        ensures
            r.is_silent(),
    {
        BiquadFilter { z0_left: 0, z1_left: 0, z0_right: 0, z1_right: 0 }
    }

    /// One filtered stereo sample with normalized coefficients (`a0` is
    /// taken as one). When numerator and denominator agree (`b0` one,
    /// `b1 == a1`, `b2 == a2`) the section passes silent-state input
    /// through exactly; and zero input into silent state stays silent.
    pub fn process(&mut self, x: (i64, i64), c: Coefficients) -> (r: (i64, i64))
        requires
            -0x7fffffffffffffff <= x.0,
            -0x7fffffffffffffff <= x.1,
        ensures
            r.0 == biquad_out_s(c, old(self).state().0, x.0),
            r.1 == biquad_out_s(c, old(self).state().2, x.1),
            final(self).state().0 == biquad_z0_s(c, old(self).state().1, x.0, r.0),
            final(self).state().1 == biquad_z1_s(c, x.0, r.0),
            final(self).state().2 == biquad_z0_s(c, old(self).state().3, x.1, r.1),
            final(self).state().3 == biquad_z1_s(c, x.1, r.1),
            c.b0 == Q_ONE && c.b1 == c.a1 && c.b2 == c.a2 && old(self).is_silent() ==> r == x
                && final(self).is_silent(),
            x == (0i64, 0i64) && old(self).is_silent()
                ==> r == (0i64, 0i64) && final(self).is_silent(),
    {
        proof {
            if c.b0 == Q_ONE && old(self).is_silent() {
                lemma_q_mul_one(x.0);
                lemma_q_mul_one(x.1);
            }
            if x == (0i64, 0i64) {
                lemma_q_mul_zero(c.b0);
                lemma_q_mul_zero(c.b1);
                lemma_q_mul_zero(c.b2);
                lemma_q_mul_zero(c.a1);
                lemma_q_mul_zero(c.a2);
            }
        }
        let y0 = q_add(q_mul(x.0, c.b0), self.z0_left);
        let y1 = q_add(q_mul(x.1, c.b0), self.z0_right);
        self.z0_left = DcBlock::flush_denormal(
            q_add(q_sub(q_mul(x.0, c.b1), q_mul(y0, c.a1)), self.z1_left),
        );
        self.z1_left = DcBlock::flush_denormal(q_sub(q_mul(x.0, c.b2), q_mul(y0, c.a2)));
        self.z0_right = DcBlock::flush_denormal(
            q_add(q_sub(q_mul(x.1, c.b1), q_mul(y1, c.a1)), self.z1_right),
        );
        self.z1_right = DcBlock::flush_denormal(q_sub(q_mul(x.1, c.b2), q_mul(y1, c.a2)));
        (y0, y1)
    }
}

} // verus!
