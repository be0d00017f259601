//! Unit tests for the signal-processing primitives, driven through the
//! public fixed-point API.

use reverb::delay_line::DelayLine;
use reverb::qmath::{q_add, q_div, q_from_int, q_mul, q_neg};
use reverb::mix::Mix;
use reverb::one_pole_filter::{CoefficientMode, OnePoleFilter};
use reverb::phasor::Phasor;
use reverb::reverb_parameters::ReverbParameters;
use reverb::smooth::ExponentialSmooth;
use reverb::taps::allpass_filter::AllpassFilter;
use reverb::taps::average::Average;
use reverb::taps::dc_block::DcBlock;
use reverb::taps::early_reflections::EarlyReflections;
use reverb::taps::lanes::Lanes;
use reverb::taps::saturation::Saturation;
use reverb::tilt_filter::TiltFilter;

const SCALE: f64 = 1073741824.0;

fn q(x: f64) -> i64 {
    (x * SCALE).round() as i64
}

fn fl(x: i64) -> f64 {
    x as f64 / SCALE
}

#[test]
fn fixed_point_arithmetic_is_exact() {
    assert_eq!(q_from_int(7), q(7.));
    assert_eq!(q_mul(q(1.5), q(2.0)), q(3.0));
    assert_eq!(q_div(q(1.0), q(4.0)), q(0.25));
    assert_eq!(q_add(i64::MAX, 1), i64::MAX);
    assert_eq!(q_neg(i64::MIN), i64::MAX);
}

#[test]
fn mix() {
    let first = Mix::run((q(0.), q(0.)), (q(1.), q(1.)), q(0.));
    let second = Mix::run((q(0.), q(0.)), (q(1.), q(1.)), q(0.5));
    let third = Mix::run((q(0.), q(0.)), (q(1.), q(1.)), q(1.));
    assert_eq!((fl(first.0) * 1000.).floor() / 1000., 0.);
    assert_eq!((fl(first.1) * 1000.).floor() / 1000., 0.);
    assert_eq!((fl(second.0) * 1000.).floor() / 1000., 0.707);
    assert_eq!((fl(second.1) * 1000.).floor() / 1000., 0.707);
    assert_eq!((fl(third.0) * 1000.).floor() / 1000., 1.);
    assert_eq!((fl(third.1) * 1000.).floor() / 1000., 1.);
}

#[test]
fn mix_endpoints_are_exact() {
    let dry = (q(0.25), q(-0.5));
    let wet = (q(0.75), q(0.125));
    assert_eq!(Mix::run(dry, wet, 0), dry);
    assert_eq!(Mix::run(dry, wet, q(1.)), wet);
}

#[test]
fn delay_line_round_trip() {
    // 1000 Hz with millisecond addressing: exactly one sample per
    // millisecond, so integer times land on cells without interpolation.
    let mut line = DelayLine::new(64, 1000);
    line.write(q(1.));
    for _ in 0..10 {
        line.write(0);
    }
    assert_eq!(line.read(q(10.)), q(1.));
    assert_eq!(line.read(q(0.)), 0);
}

#[test]
fn delay_line_interpolates_between_cells() {
    let mut line = DelayLine::new(64, 1000);
    line.write(q(1.0));
    line.write(q(0.5));
    // Half a millisecond back: exactly halfway between the last two samples.
    let r = line.read(q(0.5));
    assert_eq!(r, q(0.75));
}

#[test]
fn smoother_initialize_snaps() {
    let mut s = ExponentialSmooth::new(44100, q(12.));
    s.initialize(q(0.8));
    assert_eq!(s.next(), q(0.8));
    assert_eq!(s.next(), q(0.8));
}

#[test]
fn smoother_converges_monotonically() {
    let mut s = ExponentialSmooth::new(44100, q(12.));
    s.initialize(0);
    s.set_target(q(1.));
    let mut prev = 0i64;
    let mut reached = None;
    for n in 0..8000 {
        let v = s.next();
        assert!(v >= prev, "no backward step");
        assert!(v <= q(1.), "no overshoot");
        if reached.is_none() && fl(v) >= 0.99 {
            reached = Some(n);
        }
        prev = v;
    }
    // The 12 Hz smoother's time constant is ~13 ms; within 1% takes about
    // 4.6 time constants, i.e. roughly 2700 samples at 44.1 kHz.
    let n = reached.expect("came within 1% of the target");
    assert!(n < 4000, "converged too slowly: {n}");
    assert!(n > 1000, "converged implausibly fast: {n}");
}

#[test]
fn phasor_wraps_forward_and_backward() {
    let mut p = Phasor::new(8000);
    for _ in 0..20 {
        let v = p.process(q(1000.));
        assert!(0 <= v && v < q(1.));
    }
    // 8 steps of 1/8 turn per step return to the start.
    let mut p = Phasor::new(8000);
    let mut last = 0;
    for _ in 0..8 {
        last = p.process(q(1000.));
    }
    assert_eq!(last, 0);
    let mut p = Phasor::new(8000);
    let v = p.process(q(-1000.));
    assert_eq!(v, q(7. / 8.));
}

#[test]
fn saturation_is_odd_shaped_and_bounded() {
    assert_eq!(Saturation::fast_atan2(0), 0);
    assert_eq!(Saturation::fast_atan2(q(100.)), -q(1.));
    assert_eq!(Saturation::fast_atan2(q(-100.)), q(1.));
    let near_one = Saturation::fast_atan2(q(1.));
    assert!((fl(near_one) - (0.97239411 - 0.19194795)).abs() < 1e-4);
    // A zero mix amount passes the lanes through untouched.
    let lanes = Lanes { a: q(0.9), b: q(-0.4), c: 0, d: q(2.0) };
    let out = Saturation::process(lanes, 0);
    assert_eq!(out, lanes);
}

#[test]
fn tilt_filter_flat_is_identity() {
    let mut tilt = TiltFilter::new(44100);
    let inputs = [0.9, -0.5, 0.25, 0.0, 1.0, -1.0, 0.125];
    for (i, x) in inputs.iter().enumerate() {
        let l = q(*x);
        let r = q(x * 0.5);
        let out = tilt.process((l, r), q(0.5));
        assert_eq!(out, (l, r), "flat tilt must be exact at step {i}");
    }
}

#[test]
fn tilt_filter_tilts_the_spectrum() {
    // A constant (DC) signal should come out with different gain at the two
    // shelf extremes.
    let mut low_shelf = TiltFilter::new(44100);
    let mut high_shelf = TiltFilter::new(44100);
    let mut low_out = 0i64;
    let mut high_out = 0i64;
    for _ in 0..4000 {
        low_out = low_shelf.process((q(0.25), q(0.25)), q(0.)).0;
        high_out = high_shelf.process((q(0.25), q(0.25)), q(1.)).0;
    }
    assert!(
        (fl(low_out) - fl(high_out)).abs() > 0.05,
        "shelves should differ at DC: {} vs {}",
        fl(low_out),
        fl(high_out)
    );
}

#[test]
fn dc_block_removes_offset() {
    let mut dc = DcBlock::new(44100);
    let mut out = Lanes { a: 0, b: 0, c: 0, d: 0 };
    for _ in 0..44100 {
        out = dc.process(Lanes { a: q(0.5), b: q(0.5), c: q(0.5), d: q(0.5) });
    }
    assert!(fl(out.a).abs() < 1e-2, "constant input should die out: {}", fl(out.a));
}

#[test]
fn average_follows_the_peak() {
    let mut avg = Average::new(64);
    for _ in 0..2000 {
        avg.set(q(0.8));
    }
    assert!((fl(avg.get()) - 0.8).abs() < 1e-3);
    for _ in 0..2000 {
        avg.set(0);
    }
    assert!(fl(avg.get()).abs() < 1e-3);
}

#[test]
fn allpass_passes_silence() {
    let mut ap = AllpassFilter::new(44100);
    for _ in 0..100 {
        assert_eq!(ap.process(0, q(9.4), q(0.6)), 0);
    }
}

#[test]
fn early_reflections_of_silence_are_silent() {
    let er = EarlyReflections::new();
    let line0 = DelayLine::new(4096, 44100);
    let line1 = DelayLine::new(4096, 44100);
    assert_eq!(er.process(q(40.), &line0, &line1), (0, 0));
}

#[test]
fn one_pole_filter_converges_in_both_modes() {
    let mut linear = OnePoleFilter::new(44100);
    let mut hertz = OnePoleFilter::new(44100);
    let mut lv = 0i64;
    let mut hv = 0i64;
    for _ in 0..60000 {
        lv = linear.run(q(1.), q(0.5), CoefficientMode::Linear);
        hv = hertz.run(q(1.), q(200.), CoefficientMode::Hertz);
    }
    assert!((fl(lv) - 1.0).abs() < 1e-2, "linear mode: {}", fl(lv));
    assert!((fl(hv) - 1.0).abs() < 1e-2, "hertz mode: {}", fl(hv));
}

#[test]
fn reverb_parameters_defaults() {
    let p = ReverbParameters::default();
    assert_eq!(p.predelay, q(7.));
    assert_eq!(p.size, q(40.));
    assert_eq!(p.speed, q(2.));
    assert_eq!(p.depth, q(-0.25));
    assert_eq!(p.absorb, q(0.5));
    assert_eq!(p.decay, q(0.9));
    assert_eq!(p.tilt, q(0.));
    assert_eq!(p.mix, q(0.5));
}
