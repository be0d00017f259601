//! The modulated feedback delay network: four delay lines coupled through an
//! orthogonal mixing matrix, with early reflections, shimmer, DC blocking,
//! absorption, saturation and diffusion in the feedback path. Each line is
//! read strictly before it is written, so the loop always has at least one
//! sample of delay.

pub mod lanes;
pub mod dc_block;
pub mod one_pole_filter;
pub mod saturation;
pub mod saturation_activator;
pub mod average;
pub mod allpass_filter;
pub mod grains;
pub mod early_reflections;
pub mod shimmer;
pub mod delay_read;

use vstd::prelude::*;
use crate::qmath::{
    Q_ONE, Q_HALF, Q_QUARTER, SCALE, sat_s, q_mul_s, q_add_s, q_sub_s, q_div_s, q_clamp_s,
    q_abs_s, q_mul, q_add, q_sub, q_div, q_abs,
};
use crate::constants::{MAX_SAMPLE_RATE, MAX_SIZE, MAX_DEPTH};
use crate::delay_line::{DelayLine, write_s, all_zero, lemma_write_zero};
use crate::phasor::{Phasor, phasor_step_s};
use crate::smooth::smooth_coef_s;
use lanes::Lanes;
use dc_block::{DcBlock, dc_step_s, flush_s, DC_CORNER};
use one_pole_filter::{OnePoleFilter, lowpass_step_s, absorb_coef_s, REFERENCE_RATE};
use saturation::{Saturation, saturate_s};
use saturation_activator::{SaturationActivator, SATURATION_THRESHOLD};
use average::Average;
use allpass_filter::{AllpassFilter, allpass_out_s, allpass_store_s};
use grains::Grains;
use early_reflections::{EarlyReflections, er_left_s, er_right_s};
use shimmer::{Shimmer, shimmer_store_s, SHIMMER_FREQUENCY};
use delay_read::delay_network_read_s;

verus! {

/// The four delay-line length ratios: mutually irrational so the lines never
/// fall into a common resonance.
pub const TIME_FRACTION_0: i64 = 368363983;

pub const TIME_FRACTION_1: i64 = 525114615;

pub const TIME_FRACTION_2: i64 = 791590688;

pub const TIME_FRACTION_3: i64 = 1073741824;

/// The four diffuser delays in milliseconds: fixed and distinct.
pub const DIFFUSER_TIME_0: i64 = 6174015488;

pub const DIFFUSER_TIME_1: i64 = 10111068843;

pub const DIFFUSER_TIME_2: i64 = 14048122197;

pub const DIFFUSER_TIME_3: i64 = 16016648875;

/// The orthogonal mixing of the four tap values: Hadamard rows scaled by a
/// half, so total energy is preserved.
pub open spec fn matrix_s(i: Lanes) -> Lanes {
    let ha = q_mul_s(i.a, Q_HALF);
    let hb = q_mul_s(i.b, Q_HALF);
    let hc = q_mul_s(i.c, Q_HALF);
    let hd = q_mul_s(i.d, Q_HALF);
    Lanes {
        a: q_add_s(q_sub_s(q_sub_s(ha, hb), hc), hd),
        b: q_sub_s(q_sub_s(q_add_s(ha, hb), hc), hd),
        c: q_sub_s(q_add_s(q_sub_s(ha, hb), hc), hd),
        d: q_add_s(q_add_s(q_add_s(ha, hb), hc), hd),
    }
}

/// The loudest of the four tap magnitudes.
pub open spec fn peak_s(l: Lanes) -> i64 {
    let pa = q_abs_s(l.a);
    let pb = q_abs_s(l.b);
    let pc = q_abs_s(l.c);
    let pd = q_abs_s(l.d);
    let m0 = if pa >= pb { pa } else { pb };
    let m1 = if m0 >= pc { m0 } else { pc };
    if m1 >= pd { m1 } else { pd }
}

/// The output gain that ducks the mix when the running peak estimate
/// exceeds the threshold.
pub open spec fn gain_compensation_s(average: i64, threshold: i64) -> i64 {
    if average > threshold && threshold > 0 {
        q_div_s(threshold, average)
    } else {
        Q_ONE
    }
}

/// The four tap values of one network step: the lanes read from `prev` at
/// the advanced oscillator phase, with the grain offsets in force in
/// `finalt`.
#[verifier::opaque]
pub open spec fn step_lanes(finalt: Taps, prev: Taps, size: i64, speed: i64, depth: i64) -> Lanes {
    finalt.read_lanes_spec(
        prev,
        size,
        phasor_step_s(prev.lfo_phase(), prev.lfo_srq(), speed),
        depth,
    )
}

/// The peak estimate after one network step.
#[verifier::opaque]
pub open spec fn step_average(finalt: Taps, prev: Taps, size: i64, speed: i64, depth: i64) -> i64 {
    crate::smooth::smooth_step_s(
        prev.average_current(),
        peak_s(step_lanes(finalt, prev, size, speed, depth)),
        prev.average_coef(),
    )
}

/// The stereo output of one network step: the lane pairs averaged, joined by
/// the early reflections, scaled by the gain compensation.
#[verifier::opaque]
pub open spec fn step_output(finalt: Taps, prev: Taps, size: i64, speed: i64, depth: i64) -> (
    i64,
    i64,
) {
    let t = step_lanes(finalt, prev, size, speed, depth);
    let er = (
        er_left_s(prev.line0_view(), prev.line_spr(), size),
        er_right_s(prev.line1_view(), prev.line_spr(), size),
    );
    let dno = (q_mul_s(q_add_s(t.a, t.c), Q_HALF), q_mul_s(q_add_s(t.b, t.d), Q_HALF));
    let gc = gain_compensation_s(step_average(finalt, prev, size, speed, depth), Q_HALF);
    (q_mul_s(q_add_s(dno.0, er.0), gc), q_mul_s(q_add_s(dno.1, er.1), gc))
}

/// What one step writes back into the four delay lines, given the tap
/// values and network output already read from `prev`: matrix mix, shimmer
/// injection, DC block, absorption, activation-gated saturation, diffusion
/// and decay.
#[verifier::opaque]
pub closed spec fn feedback_lanes(
    prev: Taps,
    input: (i64, i64),
    taps_lanes: Lanes,
    dno: (i64, i64),
    diffuse: i64,
    absorb: i64,
    decay: i64,
    shimmer: i64,
) -> Lanes {
    let mx = matrix_s(taps_lanes);
    let shim = crate::taps::shimmer::shimmer_out_s(
        prev.shimmer.view_left(),
        prev.shimmer.view_right(),
        prev.shimmer.spr(),
        phasor_step_s(prev.shimmer.phase(), prev.shimmer.srq(), SHIMMER_FREQUENCY),
        input,
        shimmer,
    );
    let dci = Lanes { a: q_add_s(mx.a, shim.0), b: q_add_s(mx.b, shim.1), c: mx.c, d: mx.d };
    let co = prev.dc_blocks.coeff();
    let dco = Lanes {
        a: dc_step_s(co, prev.dc_blocks.xm1().a, prev.dc_blocks.ym1().a, dci.a),
        b: dc_step_s(co, prev.dc_blocks.xm1().b, prev.dc_blocks.ym1().b, dci.b),
        c: dc_step_s(co, prev.dc_blocks.xm1().c, prev.dc_blocks.ym1().c, dci.c),
        d: dc_step_s(co, prev.dc_blocks.xm1().d, prev.dc_blocks.ym1().d, dci.d),
    };
    let bc = absorb_coef_s(prev.absorbance.t(), absorb);
    let ab = Lanes {
        a: lowpass_step_s(bc, prev.absorbance.z().a, dco.a),
        b: lowpass_step_s(bc, prev.absorbance.z().b, dco.b),
        c: lowpass_step_s(bc, prev.absorbance.z().c, dco.c),
        d: lowpass_step_s(bc, prev.absorbance.z().d, dco.d),
    };
    let ampl = if q_abs_s(ab.a) >= q_abs_s(ab.c) { q_abs_s(ab.a) } else { q_abs_s(ab.c) };
    let ampr = if q_abs_s(ab.b) >= q_abs_s(ab.d) { q_abs_s(ab.b) } else { q_abs_s(ab.d) };
    let amp = if ampl >= ampr { ampl } else { ampr };
    let g = crate::smooth::smooth_step_s(
        prev.saturation_activator.gain(),
        if amp > SATURATION_THRESHOLD { Q_ONE } else { 0i64 },
        prev.saturation_activator.smooth_coef(),
    );
    let msq = q_clamp_s(q_mul_s(g, g), 0, Q_ONE);
    let d0 = allpass_out_s(prev.diffuser0.view(), prev.diffuser0.spr(), ab.a, DIFFUSER_TIME_0,
        diffuse);
    let d1 = allpass_out_s(prev.diffuser1.view(), prev.diffuser1.spr(), ab.b, DIFFUSER_TIME_1,
        diffuse);
    let d2 = allpass_out_s(prev.diffuser2.view(), prev.diffuser2.spr(), ab.c, DIFFUSER_TIME_2,
        diffuse);
    let d3 = allpass_out_s(prev.diffuser3.view(), prev.diffuser3.spr(), ab.d, DIFFUSER_TIME_3,
        diffuse);
    Lanes {
        a: saturate_s(q_mul_s(d0, decay), msq),
        b: saturate_s(q_mul_s(d1, decay), msq),
        c: saturate_s(q_mul_s(d2, decay), msq),
        d: saturate_s(q_mul_s(d3, decay), msq),
    }
}

/// What the DC blocker is fed in one step: the matrix mix with the shimmer
/// pair injected into the first two lanes.
#[verifier::opaque]
pub closed spec fn feedback_dc_input(
    prev: Taps,
    input: (i64, i64),
    taps_lanes: Lanes,
    shimmer: i64,
) -> Lanes {
    let mx = matrix_s(taps_lanes);
    let shim = crate::taps::shimmer::shimmer_out_s(
        prev.shimmer.view_left(),
        prev.shimmer.view_right(),
        prev.shimmer.spr(),
        phasor_step_s(prev.shimmer.phase(), prev.shimmer.srq(), SHIMMER_FREQUENCY),
        input,
        shimmer,
    );
    Lanes { a: q_add_s(mx.a, shim.0), b: q_add_s(mx.b, shim.1), c: mx.c, d: mx.d }
}

/// The DC blocker's output lanes in one step.
#[verifier::opaque]
pub closed spec fn feedback_dc_out(
    prev: Taps,
    input: (i64, i64),
    taps_lanes: Lanes,
    shimmer: i64,
) -> Lanes {
    let dci = feedback_dc_input(prev, input, taps_lanes, shimmer);
    let co = prev.dc_blocks.coeff();
    Lanes {
        a: dc_step_s(co, prev.dc_blocks.xm1().a, prev.dc_blocks.ym1().a, dci.a),
        b: dc_step_s(co, prev.dc_blocks.xm1().b, prev.dc_blocks.ym1().b, dci.b),
        c: dc_step_s(co, prev.dc_blocks.xm1().c, prev.dc_blocks.ym1().c, dci.c),
        d: dc_step_s(co, prev.dc_blocks.xm1().d, prev.dc_blocks.ym1().d, dci.d),
    }
}

/// The absorption stage's output lanes in one step.
#[verifier::opaque]
pub closed spec fn feedback_absorb_out(
    prev: Taps,
    input: (i64, i64),
    taps_lanes: Lanes,
    absorb: i64,
    shimmer: i64,
) -> Lanes {
    let dco = feedback_dc_out(prev, input, taps_lanes, shimmer);
    let bc = absorb_coef_s(prev.absorbance.t(), absorb);
    Lanes {
        a: lowpass_step_s(bc, prev.absorbance.z().a, dco.a),
        b: lowpass_step_s(bc, prev.absorbance.z().b, dco.b),
        c: lowpass_step_s(bc, prev.absorbance.z().c, dco.c),
        d: lowpass_step_s(bc, prev.absorbance.z().d, dco.d),
    }
}

/// The smoothed saturation activation gain in one step.
#[verifier::opaque]
pub closed spec fn feedback_gain(
    prev: Taps,
    input: (i64, i64),
    taps_lanes: Lanes,
    absorb: i64,
    shimmer: i64,
) -> i64 {
    let ab = feedback_absorb_out(prev, input, taps_lanes, absorb, shimmer);
    let ampl = if q_abs_s(ab.a) >= q_abs_s(ab.c) { q_abs_s(ab.a) } else { q_abs_s(ab.c) };
    let ampr = if q_abs_s(ab.b) >= q_abs_s(ab.d) { q_abs_s(ab.b) } else { q_abs_s(ab.d) };
    let amp = if ampl >= ampr { ampl } else { ampr };
    crate::smooth::smooth_step_s(
        prev.saturation_activator.gain(),
        if amp > SATURATION_THRESHOLD { Q_ONE } else { 0i64 },
        prev.saturation_activator.smooth_coef(),
    )
}

/// A granular reader's start offsets after one step: each voice either kept
/// its offset or redrew one within the depth.
pub open spec fn grain_starts_admissible(now: (i64, i64), before: (i64, i64), depth: i64) -> bool {
    &&& (0 <= now.0 <= depth || now.0 == before.0)
    &&& (0 <= now.1 <= depth || now.1 == before.1)
}

/// The write-back of one whole network step.
#[verifier::opaque]
pub closed spec fn step_feedback(
    finalt: Taps,
    prev: Taps,
    input: (i64, i64),
    size: i64,
    speed: i64,
    depth: i64,
    diffuse: i64,
    absorb: i64,
    decay: i64,
    shimmer: i64,
) -> Lanes {
    let t = step_lanes(finalt, prev, size, speed, depth);
    let dno = (q_mul_s(q_add_s(t.a, t.c), Q_HALF), q_mul_s(q_add_s(t.b, t.d), Q_HALF));
    feedback_lanes(prev, input, t, dno, diffuse, absorb, decay, shimmer)
}

/// What one step stores in the shimmer line: the mid signal of the input
/// and the network output.
#[verifier::opaque]
pub closed spec fn step_shimmer_store(
    finalt: Taps,
    prev: Taps,
    input: (i64, i64),
    size: i64,
    speed: i64,
    depth: i64,
) -> (i64, i64) {
    let t = step_lanes(finalt, prev, size, speed, depth);
    let dno = (q_mul_s(q_add_s(t.a, t.c), Q_HALF), q_mul_s(q_add_s(t.b, t.d), Q_HALF));
    shimmer_store_s(input, dno)
}

/// The complete state transition of one network step: the oscillator
/// advance, the peak estimate, the admissible grain offsets, and every
/// buffer and filter history written along the feedback path.
#[verifier::opaque]
pub open spec fn step_relation(
    finalt: Taps,
    prev: Taps,
    input: (i64, i64),
    size: i64,
    speed: i64,
    depth: i64,
    diffuse: i64,
    absorb: i64,
    decay: i64,
    shimmer: i64,
) -> bool {
    let t = step_lanes(finalt, prev, size, speed, depth);
    let w = step_feedback(finalt, prev, input, size, speed, depth, diffuse, absorb, decay,
        shimmer);
    let store = step_shimmer_store(finalt, prev, input, size, speed, depth);
    let dco = feedback_dc_out(prev, input, t, shimmer);
    let ab = feedback_absorb_out(prev, input, t, absorb, shimmer);
    &&& finalt.lfo_phase() == phasor_step_s(prev.lfo_phase(), prev.lfo_srq(), speed)
    &&& finalt.average_current() == step_average(finalt, prev, size, speed, depth)
    &&& (depth <= 0 ==> finalt.grains0_starts() == prev.grains0_starts()
        && finalt.grains1_starts() == prev.grains1_starts() && finalt.grains2_starts()
        == prev.grains2_starts() && finalt.grains3_starts() == prev.grains3_starts())
    &&& grain_starts_admissible(finalt.grains0_starts(), prev.grains0_starts(), depth)
    &&& grain_starts_admissible(finalt.grains1_starts(), prev.grains1_starts(), depth)
    &&& grain_starts_admissible(finalt.grains2_starts(), prev.grains2_starts(), depth)
    &&& grain_starts_admissible(finalt.grains3_starts(), prev.grains3_starts(), depth)
    &&& finalt.line0_view() == write_s(prev.line0_view(), w.a)
    &&& finalt.line1_view() == write_s(prev.line1_view(), w.b)
    &&& finalt.line2_view() == write_s(prev.line2_view(), w.c)
    &&& finalt.line3_view() == write_s(prev.line3_view(), w.d)
    &&& finalt.shimmer_view_left() == write_s(prev.shimmer_view_left(), store.0)
    &&& finalt.shimmer_view_right() == write_s(prev.shimmer_view_right(), store.1)
    &&& finalt.dc_coeff() == prev.dc_coeff()
    &&& finalt.dc_xm1() == feedback_dc_input(prev, input, t, shimmer)
    &&& finalt.dc_ym1().a == flush_s(dco.a)
    &&& finalt.dc_ym1().b == flush_s(dco.b)
    &&& finalt.dc_ym1().c == flush_s(dco.c)
    &&& finalt.dc_ym1().d == flush_s(dco.d)
    &&& finalt.absorbance_t() == prev.absorbance_t()
    &&& finalt.absorbance_z() == ab
    &&& finalt.activation_gain() == feedback_gain(prev, input, t, absorb, shimmer)
    &&& finalt.diffuser0_view() == write_s(
        prev.diffuser0_view(),
        allpass_store_s(prev.diffuser0_view(), prev.diffuser0_spr(), ab.a, DIFFUSER_TIME_0,
            diffuse),
    )
    &&& finalt.diffuser1_view() == write_s(
        prev.diffuser1_view(),
        allpass_store_s(prev.diffuser1_view(), prev.diffuser1_spr(), ab.b, DIFFUSER_TIME_1,
            diffuse),
    )
    &&& finalt.diffuser2_view() == write_s(
        prev.diffuser2_view(),
        allpass_store_s(prev.diffuser2_view(), prev.diffuser2_spr(), ab.c, DIFFUSER_TIME_2,
            diffuse),
    )
    &&& finalt.diffuser3_view() == write_s(
        prev.diffuser3_view(),
        allpass_store_s(prev.diffuser3_view(), prev.diffuser3_spr(), ab.d, DIFFUSER_TIME_3,
            diffuse),
    )
}

/// Everything the constructor derives from the sample rate, fixed for the
/// object's lifetime: the four delay-line capacities (each covering the
/// largest room size's share of the window plus the full modulation depth,
/// so no documented read is ever clamped), the per-line sample-rate factor,
/// the modulation oscillator's rate, the peak averager's window, the DC
/// blocker's and absorption stage's corner factors, the activation ramp,
/// and the shimmer and diffuser delay lines.
#[verifier::opaque]
pub open spec fn configured_for(t: Taps, sample_rate: u32) -> bool {
    let sr = sample_rate as int;
    let s = SCALE as int;
    &&& t.line_spr() == sr * s / 1000
    &&& t.line0_view().len() == sr * 181 / 1000 + 4
    &&& t.line1_view().len() == sr * 254 / 1000 + 4
    &&& t.line2_view().len() == sr * 378 / 1000 + 4
    &&& t.line3_view().len() == sr * 509 / 1000 + 4
    &&& (forall|time: i64| 0 <= time <= 181 * s
        ==> #[trigger] q_mul_s(time, t.line_spr()) <= (t.line0_view().len() - 2) * s)
    &&& (forall|time: i64| 0 <= time <= 254 * s
        ==> #[trigger] q_mul_s(time, t.line_spr()) <= (t.line1_view().len() - 2) * s)
    &&& (forall|time: i64| 0 <= time <= 378 * s
        ==> #[trigger] q_mul_s(time, t.line_spr()) <= (t.line2_view().len() - 2) * s)
    &&& (forall|time: i64| 0 <= time <= 509 * s
        ==> #[trigger] q_mul_s(time, t.line_spr()) <= (t.line3_view().len() - 2) * s)
    &&& t.lfo_srq() == sat_s(sr * s)
    &&& t.average_coef() == q_clamp_s(
        q_div_s(Q_ONE, sat_s((sr * 21 / 1000 + 1) * s)),
        0,
        Q_ONE,
    )
    &&& t.dc_coeff() == q_clamp_s(q_sub_s(Q_ONE, q_div_s(DC_CORNER, sat_s(sr * s))), 0, Q_ONE)
    &&& t.absorbance_t() == q_clamp_s(
        q_div_s(REFERENCE_RATE, sat_s(sr * s)),
        0,
        (Q_ONE * 8) as i64,
    )
    &&& t.activation_coef() == smooth_coef_s(sample_rate, (3 * Q_ONE) as i64)
    &&& t.shimmer_spr() == sr * s / 1000
    &&& t.shimmer_srq() == sat_s(sr * s)
    &&& t.shimmer_view_left().len() == sr * 200 / 1000 + 4
    &&& t.shimmer_view_right().len() == t.shimmer_view_left().len()
    &&& t.diffuser0_spr() == sr * s / 1000
    &&& t.diffuser1_spr() == sr * s / 1000
    &&& t.diffuser2_spr() == sr * s / 1000
    &&& t.diffuser3_spr() == sr * s / 1000
    &&& t.diffuser0_view().len() == sr * 15 / 1000 + 4
    &&& t.diffuser1_view().len() == sr * 15 / 1000 + 4
    &&& t.diffuser2_view().len() == sr * 15 / 1000 + 4
    &&& t.diffuser3_view().len() == sr * 15 / 1000 + 4
}

pub struct Taps {
    early_reflections: EarlyReflections,
    line0: DelayLine,
    line1: DelayLine,
    line2: DelayLine,
    line3: DelayLine,
    grains0: Grains,
    grains1: Grains,
    grains2: Grains,
    grains3: Grains,
    dc_blocks: DcBlock,
    absorbance: OnePoleFilter,
    diffuser0: AllpassFilter,
    diffuser1: AllpassFilter,
    diffuser2: AllpassFilter,
    diffuser3: AllpassFilter,
    lfo_phasor: Phasor,
    average: Average,
    shimmer: Shimmer,
    saturation_activator: SaturationActivator,
}

impl Taps {
    pub closed spec fn wf(self) -> bool {
        &&& self.line0.wf()
        &&& self.line1.wf()
        &&& self.line2.wf()
        &&& self.line3.wf()
        &&& self.grains0.wf()
        &&& self.grains1.wf()
        &&& self.grains2.wf()
        &&& self.grains3.wf()
        &&& self.dc_blocks.wf()
        &&& self.absorbance.wf()
        &&& self.diffuser0.wf()
        &&& self.diffuser1.wf()
        &&& self.diffuser2.wf()
        &&& self.diffuser3.wf()
        &&& self.lfo_phasor.wf()
        &&& self.average.wf()
        &&& self.shimmer.wf()
        &&& self.saturation_activator.wf()
        &&& self.line1.spr() == self.line0.spr()
        &&& self.line2.spr() == self.line0.spr()
        &&& self.line3.spr() == self.line0.spr()
    }

    /// Every signal store in the network holds silence (modulator phases and
    /// smoothing coefficients aside).
    pub closed spec fn is_silent(self) -> bool {
        &&& all_zero(self.line0.view())
        &&& all_zero(self.line1.view())
        &&& all_zero(self.line2.view())
        &&& all_zero(self.line3.view())
        &&& self.dc_blocks.is_silent()
        &&& self.absorbance.is_silent()
        &&& all_zero(self.diffuser0.view())
        &&& all_zero(self.diffuser1.view())
        &&& all_zero(self.diffuser2.view())
        &&& all_zero(self.diffuser3.view())
        &&& all_zero(self.shimmer.view_left())
        &&& all_zero(self.shimmer.view_right())
        &&& self.average.current() == 0
    }

    pub fn new(sample_rate: u32) -> (r: Taps)
        requires
            1 <= sample_rate <= MAX_SAMPLE_RATE,
        ensures
            r.wf(),
            r.is_silent(),
            configured_for(r, sample_rate),
            r.lfo_phase() == 0,
            r.activation_gain() == 0,
            ({
                let m0 = q_add_s(q_mul_s(MAX_SIZE, TIME_FRACTION_0), MAX_DEPTH);
                let m1 = q_add_s(q_mul_s(MAX_SIZE, TIME_FRACTION_1), MAX_DEPTH);
                let m2 = q_add_s(q_mul_s(MAX_SIZE, TIME_FRACTION_2), MAX_DEPTH);
                let m3 = q_add_s(q_mul_s(MAX_SIZE, TIME_FRACTION_3), MAX_DEPTH);
                &&& q_mul_s(m0, r.line_spr()) <= (r.line0_view().len() - 2) * (SCALE as int)
                &&& q_mul_s(m1, r.line_spr()) <= (r.line1_view().len() - 2) * (SCALE as int)
                &&& q_mul_s(m2, r.line_spr()) <= (r.line2_view().len() - 2) * (SCALE as int)
                &&& q_mul_s(m3, r.line_spr()) <= (r.line3_view().len() - 2) * (SCALE as int)
            }),
    {
        let sr = sample_rate as u64;
        let r = Taps {
            early_reflections: EarlyReflections::new(),
            line0: DelayLine::new((sr * 181 / 1000 + 4) as usize, sample_rate),
            line1: DelayLine::new((sr * 254 / 1000 + 4) as usize, sample_rate),
            line2: DelayLine::new((sr * 378 / 1000 + 4) as usize, sample_rate),
            line3: DelayLine::new((sr * 509 / 1000 + 4) as usize, sample_rate),
            grains0: Grains::new(),
            grains1: Grains::new(),
            grains2: Grains::new(),
            grains3: Grains::new(),
            dc_blocks: DcBlock::new(sample_rate),
            absorbance: OnePoleFilter::new(sample_rate),
            diffuser0: AllpassFilter::new(sample_rate),
            diffuser1: AllpassFilter::new(sample_rate),
            diffuser2: AllpassFilter::new(sample_rate),
            diffuser3: AllpassFilter::new(sample_rate),
            lfo_phasor: Phasor::new(sample_rate),
            average: Average::new(sr * 21 / 1000 + 1),
            shimmer: Shimmer::new(sample_rate),
            saturation_activator: SaturationActivator::new(sample_rate),
        };
        proof {
            reveal(configured_for);
            let sri = sample_rate as int;
            let s = SCALE as int;
            assert forall|time: i64| 0 <= time <= 181 * s
                implies #[trigger] q_mul_s(time, r.line_spr()) <= (r.line0_view().len() - 2)
                * s by {
                crate::delay_line::lemma_window_within_capacity(
                    sri,
                    r.line0_view().len() as int,
                    r.line_spr(),
                    time,
                    181,
                );
            }
            assert forall|time: i64| 0 <= time <= 254 * s
                implies #[trigger] q_mul_s(time, r.line_spr()) <= (r.line1_view().len() - 2)
                * s by {
                crate::delay_line::lemma_window_within_capacity(
                    sri,
                    r.line1_view().len() as int,
                    r.line_spr(),
                    time,
                    254,
                );
            }
            assert forall|time: i64| 0 <= time <= 378 * s
                implies #[trigger] q_mul_s(time, r.line_spr()) <= (r.line2_view().len() - 2)
                * s by {
                crate::delay_line::lemma_window_within_capacity(
                    sri,
                    r.line2_view().len() as int,
                    r.line_spr(),
                    time,
                    378,
                );
            }
            assert forall|time: i64| 0 <= time <= 509 * s
                implies #[trigger] q_mul_s(time, r.line_spr()) <= (r.line3_view().len() - 2)
                * s by {
                crate::delay_line::lemma_window_within_capacity(
                    sri,
                    r.line3_view().len() as int,
                    r.line_spr(),
                    time,
                    509,
                );
            }
            let m0 = q_add_s(q_mul_s(MAX_SIZE, TIME_FRACTION_0), MAX_DEPTH);
            let m1 = q_add_s(q_mul_s(MAX_SIZE, TIME_FRACTION_1), MAX_DEPTH);
            let m2 = q_add_s(q_mul_s(MAX_SIZE, TIME_FRACTION_2), MAX_DEPTH);
            let m3 = q_add_s(q_mul_s(MAX_SIZE, TIME_FRACTION_3), MAX_DEPTH);
            assert(0 <= m0 <= 181 * s);
            assert(0 <= m1 <= 254 * s);
            assert(0 <= m2 <= 378 * s);
            assert(0 <= m3 <= 509 * s);
        }
        r
    }

    /// One network step. The early reflections and the four modulated taps
    /// are read first; the output is their gain-compensated mix. Then the
    /// tap values are matrix-mixed, joined by the shimmer regeneration,
    /// DC-blocked, absorbed, saturated, diffused, scaled by `decay` and
    /// written back — reads before writes, so the loop keeps its one-sample
    /// delay. Zero input into a silent network yields zero output and leaves
    /// the network silent.
    #[verifier::rlimit(100)]
    pub fn process(
        &mut self,
        input: (i64, i64),
        size: i64,
        speed: i64,
        depth: i64,
        diffuse: i64,
        absorb: i64,
        decay: i64,
        shimmer: i64,
    ) -> (r: (i64, i64))
        requires
            old(self).wf(),
        ensures
            final(self).wf(),
            r == step_output(*final(self), *old(self), size, speed, depth),
            -0x7fffffffffffffff <= r.0 <= 0x7fffffffffffffff,
            -0x7fffffffffffffff <= r.1 <= 0x7fffffffffffffff,
            final(self).lfo_phase() == phasor_step_s(
                old(self).lfo_phase(),
                old(self).lfo_srq(),
                speed,
            ),
            final(self).average_current() == step_average(
                *final(self),
                *old(self),
                size,
                speed,
                depth,
            ),
            ({
                let w = step_feedback(
                    *final(self),
                    *old(self),
                    input,
                    size,
                    speed,
                    depth,
                    diffuse,
                    absorb,
                    decay,
                    shimmer,
                );
                &&& final(self).line0_view() == write_s(old(self).line0_view(), w.a)
                &&& final(self).line1_view() == write_s(old(self).line1_view(), w.b)
                &&& final(self).line2_view() == write_s(old(self).line2_view(), w.c)
                &&& final(self).line3_view() == write_s(old(self).line3_view(), w.d)
            }),
            final(self).shimmer_view_left() == write_s(
                old(self).shimmer_view_left(),
                step_shimmer_store(*final(self), *old(self), input, size, speed, depth).0,
            ),
            final(self).shimmer_view_right() == write_s(
                old(self).shimmer_view_right(),
                step_shimmer_store(*final(self), *old(self), input, size, speed, depth).1,
            ),
            ({
                let t = step_lanes(*final(self), *old(self), size, speed, depth);
                let dco = feedback_dc_out(*old(self), input, t, shimmer);
                let ab = feedback_absorb_out(*old(self), input, t, absorb, shimmer);
                &&& final(self).dc_coeff() == old(self).dc_coeff()
                &&& final(self).dc_xm1() == feedback_dc_input(
                    *old(self),
                    input,
                    t,
                    shimmer,
                )
                &&& final(self).dc_ym1().a == flush_s(dco.a)
                &&& final(self).dc_ym1().b == flush_s(dco.b)
                &&& final(self).dc_ym1().c == flush_s(dco.c)
                &&& final(self).dc_ym1().d == flush_s(dco.d)
                &&& final(self).absorbance_t() == old(self).absorbance_t()
                &&& final(self).absorbance_z() == ab
                &&& final(self).activation_gain() == feedback_gain(
                    *old(self),
                    input,
                    t,
                    absorb,
                    shimmer,
                )
                &&& final(self).diffuser0_view() == write_s(
                    old(self).diffuser0_view(),
                    allpass_store_s(
                        old(self).diffuser0_view(),
                        old(self).diffuser0_spr(),
                        ab.a,
                        DIFFUSER_TIME_0,
                        diffuse,
                    ),
                )
                &&& final(self).diffuser1_view() == write_s(
                    old(self).diffuser1_view(),
                    allpass_store_s(
                        old(self).diffuser1_view(),
                        old(self).diffuser1_spr(),
                        ab.b,
                        DIFFUSER_TIME_1,
                        diffuse,
                    ),
                )
                &&& final(self).diffuser2_view() == write_s(
                    old(self).diffuser2_view(),
                    allpass_store_s(
                        old(self).diffuser2_view(),
                        old(self).diffuser2_spr(),
                        ab.c,
                        DIFFUSER_TIME_2,
                        diffuse,
                    ),
                )
                &&& final(self).diffuser3_view() == write_s(
                    old(self).diffuser3_view(),
                    allpass_store_s(
                        old(self).diffuser3_view(),
                        old(self).diffuser3_spr(),
                        ab.d,
                        DIFFUSER_TIME_3,
                        diffuse,
                    ),
                )
            }),
            step_relation(
                *final(self),
                *old(self),
                input,
                size,
                speed,
                depth,
                diffuse,
                absorb,
                decay,
                shimmer,
            ),
            input == (0i64, 0i64) && old(self).is_silent()
                ==> r == (0i64, 0i64) && final(self).is_silent(),
    {
        let er = self.early_reflections.process(size, &self.line0, &self.line1);
        let taps_lanes = self.read_from_delay_network(size, speed, depth);
        let delay_network_output = Self::retrieve_delay_network_output(taps_lanes);
        let pa = q_abs(taps_lanes.a);
        let pb = q_abs(taps_lanes.b);
        let pc = q_abs(taps_lanes.c);
        let pd = q_abs(taps_lanes.d);
        let m0 = if pa >= pb { pa } else { pb };
        let m1 = if m0 >= pc { m0 } else { pc };
        let peak = if m1 >= pd { m1 } else { pd };
        self.average.set(peak);
        let average = self.average.get();

        self.run_feedback(input, taps_lanes, delay_network_output, diffuse, absorb, decay,
            shimmer);

        let out = self.mix_delay_network_and_reflections(
            delay_network_output,
            er,
            Self::retrieve_gain_compensation(average, Q_HALF),
        );
        proof {
            reveal(step_lanes);
            reveal(step_average);
            reveal(step_output);
            reveal(step_feedback);
            reveal(step_shimmer_store);
            reveal(feedback_lanes);
            reveal(feedback_dc_input);
            reveal(feedback_dc_out);
            reveal(feedback_absorb_out);
            reveal(feedback_gain);
            reveal(step_relation);
            let ph = phasor_step_s(old(self).lfo_phase(), old(self).lfo_srq(), speed);
            let t = step_lanes(*self, *old(self), size, speed, depth);
            assert(taps_lanes == t);
            assert(peak == peak_s(t));
            let avg = step_average(*self, *old(self), size, speed, depth);
            assert(average == avg);
            let gc = gain_compensation_s(avg, Q_HALF);
            assert(out.0 == q_mul_s(q_add_s(delay_network_output.0, er.0), gc));
            assert(out.1 == q_mul_s(q_add_s(delay_network_output.1, er.1), gc));
            if input == (0i64, 0i64) && old(self).is_silent() {
                assert(t.is_zero());
                assert(peak_s(t) == 0);
                assert(avg == 0);
                assert(er == (0i64, 0i64));
                assert(delay_network_output == (0i64, 0i64));
                assert(out == (0i64, 0i64));
                assert(self.is_silent());
            }
        }
        out
    }

    /// Runs the whole feedback path of one step: matrix mix, shimmer
    /// injection, DC blocking, absorption, saturation activation, diffusion,
    /// decay and the write-back into the four delay lines.
    fn run_feedback(
        &mut self,
        input: (i64, i64),
        taps_lanes: Lanes,
        delay_network_output: (i64, i64),
        diffuse: i64,
        absorb: i64,
        decay: i64,
        shimmer: i64,
    )
        requires
            old(self).wf(),
        ensures
            final(self).wf(),
            final(self).grains0 == old(self).grains0,
            final(self).grains1 == old(self).grains1,
            final(self).grains2 == old(self).grains2,
            final(self).grains3 == old(self).grains3,
            final(self).lfo_phasor == old(self).lfo_phasor,
            final(self).average == old(self).average,
            ({
                let w = feedback_lanes(
                    *old(self),
                    input,
                    taps_lanes,
                    delay_network_output,
                    diffuse,
                    absorb,
                    decay,
                    shimmer,
                );
                &&& final(self).line0.view() == write_s(old(self).line0.view(), w.a)
                &&& final(self).line1.view() == write_s(old(self).line1.view(), w.b)
                &&& final(self).line2.view() == write_s(old(self).line2.view(), w.c)
                &&& final(self).line3.view() == write_s(old(self).line3.view(), w.d)
            }),
            final(self).shimmer.view_left() == write_s(
                old(self).shimmer.view_left(),
                shimmer_store_s(input, delay_network_output).0,
            ),
            final(self).shimmer.view_right() == write_s(
                old(self).shimmer.view_right(),
                shimmer_store_s(input, delay_network_output).1,
            ),
            final(self).dc_blocks.coeff() == old(self).dc_blocks.coeff(),
            final(self).dc_blocks.xm1() == feedback_dc_input(
                *old(self),
                input,
                taps_lanes,
                shimmer,
            ),
            ({
                let dco = feedback_dc_out(*old(self), input, taps_lanes, shimmer);
                &&& final(self).dc_blocks.ym1().a == flush_s(dco.a)
                &&& final(self).dc_blocks.ym1().b == flush_s(dco.b)
                &&& final(self).dc_blocks.ym1().c == flush_s(dco.c)
                &&& final(self).dc_blocks.ym1().d == flush_s(dco.d)
            }),
            final(self).absorbance.t() == old(self).absorbance.t(),
            final(self).absorbance.z() == feedback_absorb_out(
                *old(self),
                input,
                taps_lanes,
                absorb,
                shimmer,
            ),
            final(self).saturation_activator.gain() == feedback_gain(
                *old(self),
                input,
                taps_lanes,
                absorb,
                shimmer,
            ),
            ({
                let ab = feedback_absorb_out(*old(self), input, taps_lanes, absorb, shimmer);
                &&& final(self).diffuser0.view() == write_s(
                    old(self).diffuser0.view(),
                    allpass_store_s(
                        old(self).diffuser0.view(),
                        old(self).diffuser0.spr(),
                        ab.a,
                        DIFFUSER_TIME_0,
                        diffuse,
                    ),
                )
                &&& final(self).diffuser1.view() == write_s(
                    old(self).diffuser1.view(),
                    allpass_store_s(
                        old(self).diffuser1.view(),
                        old(self).diffuser1.spr(),
                        ab.b,
                        DIFFUSER_TIME_1,
                        diffuse,
                    ),
                )
                &&& final(self).diffuser2.view() == write_s(
                    old(self).diffuser2.view(),
                    allpass_store_s(
                        old(self).diffuser2.view(),
                        old(self).diffuser2.spr(),
                        ab.c,
                        DIFFUSER_TIME_2,
                        diffuse,
                    ),
                )
                &&& final(self).diffuser3.view() == write_s(
                    old(self).diffuser3.view(),
                    allpass_store_s(
                        old(self).diffuser3.view(),
                        old(self).diffuser3.spr(),
                        ab.d,
                        DIFFUSER_TIME_3,
                        diffuse,
                    ),
                )
            }),
            input == (0i64, 0i64) && taps_lanes.is_zero() && delay_network_output == (
            0i64, 0i64) && old(self).is_silent() ==> final(self).is_silent(),
    {
        proof {
            reveal(feedback_lanes);
            reveal(feedback_dc_input);
            reveal(feedback_dc_out);
            reveal(feedback_absorb_out);
            reveal(feedback_gain);
        }
        let matrix_output = Self::apply_matrix(taps_lanes);
        let shimmer_output = self.shimmer.process(input, delay_network_output, shimmer);
        let dc_input = Lanes {
            a: q_add(matrix_output.a, shimmer_output.0),
            b: q_add(matrix_output.b, shimmer_output.1),
            c: matrix_output.c,
            d: matrix_output.d,
        };
        let dc_output = self.dc_blocks.process(dc_input);
        let absorb_output = self.absorbance.process(dc_output, absorb);
        let la = q_abs(absorb_output.a);
        let lb = q_abs(absorb_output.b);
        let lc = q_abs(absorb_output.c);
        let ld = q_abs(absorb_output.d);
        self.saturation_activator.set_amplitude((
            if la >= lc { la } else { lc },
            if lb >= ld { lb } else { ld },
        ));
        let saturation_gain = self.saturation_activator.get_saturation_gain();
        self.diffuse_and_write(absorb_output, diffuse, decay, saturation_gain);
        proof {
            let prev = *old(self);
            let mx = matrix_s(taps_lanes);
            assert(matrix_output == mx);
            assert(shimmer_output == crate::taps::shimmer::shimmer_out_s(
                prev.shimmer.view_left(),
                prev.shimmer.view_right(),
                prev.shimmer.spr(),
                phasor_step_s(prev.shimmer.phase(), prev.shimmer.srq(), SHIMMER_FREQUENCY),
                input,
                shimmer,
            ));
            let dci = Lanes {
                a: q_add_s(mx.a, shimmer_output.0),
                b: q_add_s(mx.b, shimmer_output.1),
                c: mx.c,
                d: mx.d,
            };
            assert(dc_input == dci);
            let co = prev.dc_blocks.coeff();
            let dco = Lanes {
                a: dc_step_s(co, prev.dc_blocks.xm1().a, prev.dc_blocks.ym1().a, dci.a),
                b: dc_step_s(co, prev.dc_blocks.xm1().b, prev.dc_blocks.ym1().b, dci.b),
                c: dc_step_s(co, prev.dc_blocks.xm1().c, prev.dc_blocks.ym1().c, dci.c),
                d: dc_step_s(co, prev.dc_blocks.xm1().d, prev.dc_blocks.ym1().d, dci.d),
            };
            assert(dc_output == dco);
            let bc = absorb_coef_s(prev.absorbance.t(), absorb);
            let ab = Lanes {
                a: lowpass_step_s(bc, prev.absorbance.z().a, dco.a),
                b: lowpass_step_s(bc, prev.absorbance.z().b, dco.b),
                c: lowpass_step_s(bc, prev.absorbance.z().c, dco.c),
                d: lowpass_step_s(bc, prev.absorbance.z().d, dco.d),
            };
            assert(absorb_output == ab);
            let ampl = if q_abs_s(ab.a) >= q_abs_s(ab.c) { q_abs_s(ab.a) } else { q_abs_s(ab.c) };
            let ampr = if q_abs_s(ab.b) >= q_abs_s(ab.d) { q_abs_s(ab.b) } else { q_abs_s(ab.d) };
            let amp = if ampl >= ampr { ampl } else { ampr };
            let g = crate::smooth::smooth_step_s(
                prev.saturation_activator.gain(),
                if amp > SATURATION_THRESHOLD { Q_ONE } else { 0i64 },
                prev.saturation_activator.smooth_coef(),
            );
            assert(saturation_gain == g);
        }
    }

    /// The phase of the modulation oscillator.
    pub closed spec fn lfo_phase(self) -> i64 {
        self.lfo_phasor.phase()
    }

    pub closed spec fn lfo_srq(self) -> i64 {
        self.lfo_phasor.srq()
    }

    pub closed spec fn line0_view(self) -> Seq<i64> {
        self.line0.view()
    }

    pub closed spec fn line1_view(self) -> Seq<i64> {
        self.line1.view()
    }

    pub closed spec fn line2_view(self) -> Seq<i64> {
        self.line2.view()
    }

    pub closed spec fn line3_view(self) -> Seq<i64> {
        self.line3.view()
    }

    pub closed spec fn shimmer_view_left(self) -> Seq<i64> {
        self.shimmer.view_left()
    }

    pub closed spec fn shimmer_view_right(self) -> Seq<i64> {
        self.shimmer.view_right()
    }

    pub closed spec fn line_spr(self) -> i64 {
        self.line0.spr()
    }

    /// The grain start offsets (both voices) of each line's granular reader.
    pub closed spec fn grains0_starts(self) -> (i64, i64) {
        (self.grains0.start_a(), self.grains0.start_b())
    }

    pub closed spec fn grains1_starts(self) -> (i64, i64) {
        (self.grains1.start_a(), self.grains1.start_b())
    }

    pub closed spec fn grains2_starts(self) -> (i64, i64) {
        (self.grains2.start_a(), self.grains2.start_b())
    }

    pub closed spec fn grains3_starts(self) -> (i64, i64) {
        (self.grains3.start_a(), self.grains3.start_b())
    }

    pub closed spec fn shimmer_spr(self) -> i64 {
        self.shimmer.spr()
    }

    pub closed spec fn shimmer_srq(self) -> i64 {
        self.shimmer.srq()
    }

    pub closed spec fn activation_coef(self) -> i64 {
        self.saturation_activator.smooth_coef()
    }

    pub closed spec fn dc_coeff(self) -> i64 {
        self.dc_blocks.coeff()
    }

    pub closed spec fn dc_xm1(self) -> Lanes {
        self.dc_blocks.xm1()
    }

    pub closed spec fn dc_ym1(self) -> Lanes {
        self.dc_blocks.ym1()
    }

    pub closed spec fn absorbance_t(self) -> i64 {
        self.absorbance.t()
    }

    pub closed spec fn absorbance_z(self) -> Lanes {
        self.absorbance.z()
    }

    pub closed spec fn activation_gain(self) -> i64 {
        self.saturation_activator.gain()
    }

    pub closed spec fn diffuser0_view(self) -> Seq<i64> {
        self.diffuser0.view()
    }

    pub closed spec fn diffuser1_view(self) -> Seq<i64> {
        self.diffuser1.view()
    }

    pub closed spec fn diffuser2_view(self) -> Seq<i64> {
        self.diffuser2.view()
    }

    pub closed spec fn diffuser3_view(self) -> Seq<i64> {
        self.diffuser3.view()
    }

    pub closed spec fn diffuser0_spr(self) -> i64 {
        self.diffuser0.spr()
    }

    pub closed spec fn diffuser1_spr(self) -> i64 {
        self.diffuser1.spr()
    }

    pub closed spec fn diffuser2_spr(self) -> i64 {
        self.diffuser2.spr()
    }

    pub closed spec fn diffuser3_spr(self) -> i64 {
        self.diffuser3.spr()
    }

    pub closed spec fn average_current(self) -> i64 {
        self.average.current()
    }

    pub closed spec fn average_coef(self) -> i64 {
        self.average.coef()
    }

    /// The four modulated tap values of this step, read from `prev`'s lines
    /// at phase `ph`, with the grain offsets that ended up in force in
    /// `self`.
    pub closed spec fn read_lanes_spec(self, prev: Taps, size: i64, ph: i64, depth: i64) -> Lanes {
        Lanes {
            a: delay_network_read_s(
                prev.line0.view(),
                prev.line0.spr(),
                size,
                TIME_FRACTION_0,
                ph,
                0,
                depth,
                self.grains0.start_a(),
                self.grains0.start_b(),
            ),
            b: delay_network_read_s(
                prev.line1.view(),
                prev.line1.spr(),
                size,
                TIME_FRACTION_1,
                ph,
                Q_QUARTER,
                depth,
                self.grains1.start_a(),
                self.grains1.start_b(),
            ),
            c: delay_network_read_s(
                prev.line2.view(),
                prev.line2.spr(),
                size,
                TIME_FRACTION_2,
                ph,
                Q_HALF,
                depth,
                self.grains2.start_a(),
                self.grains2.start_b(),
            ),
            d: delay_network_read_s(
                prev.line3.view(),
                prev.line3.spr(),
                size,
                TIME_FRACTION_3,
                ph,
                (3 * Q_QUARTER) as i64,
                depth,
                self.grains3.start_a(),
                self.grains3.start_b(),
            ),
        }
    }

    /// Advances the modulation oscillator and reads all four lines.
    fn read_from_delay_network(&mut self, size: i64, speed: i64, depth: i64) -> (r: Lanes)
        requires
            old(self).wf(),
        ensures
            final(self).wf(),
            final(self).lfo_phase() == phasor_step_s(
                old(self).lfo_phase(),
                old(self).lfo_srq(),
                speed,
            ),
            r == final(self).read_lanes_spec(
                *old(self),
                size,
                final(self).lfo_phase(),
                depth,
            ),
            final(self).line0.view() == old(self).line0.view(),
            final(self).line1.view() == old(self).line1.view(),
            final(self).line2.view() == old(self).line2.view(),
            final(self).line3.view() == old(self).line3.view(),
            final(self).line0 == old(self).line0,
            final(self).line1 == old(self).line1,
            final(self).line2 == old(self).line2,
            final(self).line3 == old(self).line3,
            final(self).dc_blocks == old(self).dc_blocks,
            final(self).absorbance == old(self).absorbance,
            final(self).diffuser0 == old(self).diffuser0,
            final(self).diffuser1 == old(self).diffuser1,
            final(self).diffuser2 == old(self).diffuser2,
            final(self).diffuser3 == old(self).diffuser3,
            final(self).shimmer == old(self).shimmer,
            final(self).average == old(self).average,
            final(self).saturation_activator == old(self).saturation_activator,
            depth <= 0 ==> final(self).grains0 == old(self).grains0
                && final(self).grains1 == old(self).grains1
                && final(self).grains2 == old(self).grains2
                && final(self).grains3 == old(self).grains3,
            grain_starts_admissible(final(self).grains0_starts(), old(self).grains0_starts(),
                depth),
            grain_starts_admissible(final(self).grains1_starts(), old(self).grains1_starts(),
                depth),
            grain_starts_admissible(final(self).grains2_starts(), old(self).grains2_starts(),
                depth),
            grain_starts_admissible(final(self).grains3_starts(), old(self).grains3_starts(),
                depth),
            old(self).is_silent() ==> r.is_zero() && final(self).is_silent(),
    {
        let phase = self.lfo_phasor.process(speed);
        let a = self.line0.delay_network_read(
            size,
            TIME_FRACTION_0,
            phase,
            0,
            depth,
            &mut self.grains0,
        );
        let b = self.line1.delay_network_read(
            size,
            TIME_FRACTION_1,
            phase,
            Q_QUARTER,
            depth,
            &mut self.grains1,
        );
        let c = self.line2.delay_network_read(
            size,
            TIME_FRACTION_2,
            phase,
            Q_HALF,
            depth,
            &mut self.grains2,
        );
        let d = self.line3.delay_network_read(
            size,
            TIME_FRACTION_3,
            phase,
            3 * Q_QUARTER,
            depth,
            &mut self.grains3,
        );
        Lanes { a, b, c, d }
    }

    /// The orthogonal mix of the four tap values.
    fn apply_matrix(input: Lanes) -> (r: Lanes)
        ensures
            r == matrix_s(input),
            input.is_zero() ==> r.is_zero(),
    {
        proof {
            crate::qmath::lemma_q_mul_zero(Q_HALF);
        }
        let ha = q_mul(input.a, Q_HALF);
        let hb = q_mul(input.b, Q_HALF);
        let hc = q_mul(input.c, Q_HALF);
        let hd = q_mul(input.d, Q_HALF);
        Lanes {
            a: q_add(q_sub(q_sub(ha, hb), hc), hd),
            b: q_sub(q_sub(q_add(ha, hb), hc), hd),
            c: q_sub(q_add(q_sub(ha, hb), hc), hd),
            d: q_add(q_add(q_add(ha, hb), hc), hd),
        }
    }

    /// Diffuses each lane, applies decay and saturation, and closes the
    /// feedback loop by writing into the delay lines.
    fn diffuse_and_write(&mut self, input: Lanes, diffuse: i64, decay: i64, saturation_mix: i64)
        requires
            old(self).wf(),
        ensures
            final(self).wf(),
            ({
                let msq = q_clamp_s(q_mul_s(saturation_mix, saturation_mix), 0, Q_ONE);
                let d0 = allpass_out_s(
                    old(self).diffuser0.view(),
                    old(self).diffuser0.spr(),
                    input.a,
                    DIFFUSER_TIME_0,
                    diffuse,
                );
                let d1 = allpass_out_s(
                    old(self).diffuser1.view(),
                    old(self).diffuser1.spr(),
                    input.b,
                    DIFFUSER_TIME_1,
                    diffuse,
                );
                let d2 = allpass_out_s(
                    old(self).diffuser2.view(),
                    old(self).diffuser2.spr(),
                    input.c,
                    DIFFUSER_TIME_2,
                    diffuse,
                );
                let d3 = allpass_out_s(
                    old(self).diffuser3.view(),
                    old(self).diffuser3.spr(),
                    input.d,
                    DIFFUSER_TIME_3,
                    diffuse,
                );
                &&& final(self).line0.view() == write_s(
                    old(self).line0.view(),
                    saturate_s(q_mul_s(d0, decay), msq),
                )
                &&& final(self).line1.view() == write_s(
                    old(self).line1.view(),
                    saturate_s(q_mul_s(d1, decay), msq),
                )
                &&& final(self).line2.view() == write_s(
                    old(self).line2.view(),
                    saturate_s(q_mul_s(d2, decay), msq),
                )
                &&& final(self).line3.view() == write_s(
                    old(self).line3.view(),
                    saturate_s(q_mul_s(d3, decay), msq),
                )
            }),
            final(self).lfo_phasor == old(self).lfo_phasor,
            final(self).average == old(self).average,
            final(self).shimmer == old(self).shimmer,
            final(self).dc_blocks == old(self).dc_blocks,
            final(self).absorbance == old(self).absorbance,
            final(self).saturation_activator == old(self).saturation_activator,
            final(self).diffuser0.view() == write_s(
                old(self).diffuser0.view(),
                allpass_store_s(
                    old(self).diffuser0.view(),
                    old(self).diffuser0.spr(),
                    input.a,
                    DIFFUSER_TIME_0,
                    diffuse,
                ),
            ),
            final(self).diffuser1.view() == write_s(
                old(self).diffuser1.view(),
                allpass_store_s(
                    old(self).diffuser1.view(),
                    old(self).diffuser1.spr(),
                    input.b,
                    DIFFUSER_TIME_1,
                    diffuse,
                ),
            ),
            final(self).diffuser2.view() == write_s(
                old(self).diffuser2.view(),
                allpass_store_s(
                    old(self).diffuser2.view(),
                    old(self).diffuser2.spr(),
                    input.c,
                    DIFFUSER_TIME_2,
                    diffuse,
                ),
            ),
            final(self).diffuser3.view() == write_s(
                old(self).diffuser3.view(),
                allpass_store_s(
                    old(self).diffuser3.view(),
                    old(self).diffuser3.spr(),
                    input.d,
                    DIFFUSER_TIME_3,
                    diffuse,
                ),
            ),
            final(self).diffuser0.spr() == old(self).diffuser0.spr(),
            final(self).diffuser1.spr() == old(self).diffuser1.spr(),
            final(self).diffuser2.spr() == old(self).diffuser2.spr(),
            final(self).diffuser3.spr() == old(self).diffuser3.spr(),
            final(self).grains0 == old(self).grains0,
            final(self).grains1 == old(self).grains1,
            final(self).grains2 == old(self).grains2,
            final(self).grains3 == old(self).grains3,
            input.is_zero() && all_zero(old(self).diffuser0.view()) && all_zero(
                old(self).diffuser1.view(),
            ) && all_zero(old(self).diffuser2.view()) && all_zero(old(self).diffuser3.view())
                && all_zero(old(self).line0.view()) && all_zero(old(self).line1.view())
                && all_zero(old(self).line2.view()) && all_zero(old(self).line3.view()) ==> {
                &&& all_zero(final(self).line0.view())
                &&& all_zero(final(self).line1.view())
                &&& all_zero(final(self).line2.view())
                &&& all_zero(final(self).line3.view())
                &&& all_zero(final(self).diffuser0.view())
                &&& all_zero(final(self).diffuser1.view())
                &&& all_zero(final(self).diffuser2.view())
                &&& all_zero(final(self).diffuser3.view())
            },
    {
        let d0 = self.diffuser0.process(input.a, DIFFUSER_TIME_0, diffuse);
        let d1 = self.diffuser1.process(input.b, DIFFUSER_TIME_1, diffuse);
        let d2 = self.diffuser2.process(input.c, DIFFUSER_TIME_2, diffuse);
        let d3 = self.diffuser3.process(input.d, DIFFUSER_TIME_3, diffuse);
        let scaled = Lanes {
            a: q_mul(d0, decay),
            b: q_mul(d1, decay),
            c: q_mul(d2, decay),
            d: q_mul(d3, decay),
        };
        let stored = Saturation::process(scaled, saturation_mix);
        proof {
            if input.is_zero() && all_zero(old(self).line0.view()) && all_zero(
                old(self).line1.view(),
            ) && all_zero(old(self).line2.view()) && all_zero(old(self).line3.view())
                && all_zero(old(self).diffuser0.view()) && all_zero(old(self).diffuser1.view())
                && all_zero(old(self).diffuser2.view()) && all_zero(
                old(self).diffuser3.view(),
            ) {
                self.line0.lemma_wf_len();
                self.line1.lemma_wf_len();
                self.line2.lemma_wf_len();
                self.line3.lemma_wf_len();
                crate::qmath::lemma_q_mul_zero(decay);
                lemma_write_zero(old(self).line0.view(), 0i64);
                lemma_write_zero(old(self).line1.view(), 0i64);
                lemma_write_zero(old(self).line2.view(), 0i64);
                lemma_write_zero(old(self).line3.view(), 0i64);
            }
        }
        self.line0.write(stored.a);
        self.line1.write(stored.b);
        self.line2.write(stored.c);
        self.line3.write(stored.d);
    }

    /// Left and right network outputs: the averaged pairs of opposite lanes.
    fn retrieve_delay_network_output(inputs: Lanes) -> (r: (i64, i64))
        ensures
            r.0 == q_mul_s(q_add_s(inputs.a, inputs.c), Q_HALF),
            r.1 == q_mul_s(q_add_s(inputs.b, inputs.d), Q_HALF),
            inputs.is_zero() ==> r == (0i64, 0i64),
    {
        proof {
            crate::qmath::lemma_q_mul_zero(Q_HALF);
        }
        (
            q_mul(q_add(inputs.a, inputs.c), Q_HALF),
            q_mul(q_add(inputs.b, inputs.d), Q_HALF),
        )
    }

    /// The final stereo mix of network output and early reflections, scaled
    /// by the gain compensation.
    fn mix_delay_network_and_reflections(
        &self,
        delay_network_out: (i64, i64),
        early_reflections: (i64, i64),
        gain_compensation: i64,
    ) -> (r: (i64, i64))
        ensures
            r.0 == q_mul_s(
                q_add_s(delay_network_out.0, early_reflections.0),
                gain_compensation,
            ),
            r.1 == q_mul_s(
                q_add_s(delay_network_out.1, early_reflections.1),
                gain_compensation,
            ),
            delay_network_out == (0i64, 0i64) && early_reflections == (0i64, 0i64) ==> r == (
            0i64, 0i64),
    {
        proof {
            crate::qmath::lemma_q_mul_zero(gain_compensation);
        }
        (
            q_mul(q_add(delay_network_out.0, early_reflections.0), gain_compensation),
            q_mul(q_add(delay_network_out.1, early_reflections.1), gain_compensation),
        )
    }

    /// Ducks the output when the running peak estimate runs past the
    /// threshold.
    fn retrieve_gain_compensation(average: i64, threshold: i64) -> (r: i64)
        ensures
            r == gain_compensation_s(average, threshold),
    {
        if average > threshold && threshold > 0 {
            q_div(threshold, average)
        } else {
            Q_ONE
        }
    }
}

} // verus!
