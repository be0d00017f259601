//! End-to-end tests of the whole reverberation engine.

use reverb::{Params, Reverb};

const SCALE: f64 = 1073741824.0;
const SR: u32 = 44100;

fn q(x: f64) -> i64 {
    (x * SCALE).round() as i64
}

fn fl(x: i64) -> f64 {
    x as f64 / SCALE
}

fn default_params() -> Params {
    let mut params = Params::new(SR);
    params.set(
        q(0.),
        q(7.),
        q(40.),
        q(2.),
        q(-0.25),
        q(0.5),
        q(0.9),
        q(0.),
        q(0.),
        q(0.5),
    );
    params
}

#[test]
fn silence_is_preserved_exactly() {
    let mut reverb = Reverb::new(SR);
    let mut params = default_params();
    for _ in 0..2000 {
        let out = reverb.process((0, 0), &mut params);
        assert_eq!(out, (0, 0));
    }
}

#[test]
fn impulse_response_end_to_end() {
    // Wet-only first: output must stay exactly at the pre-delay's worth of
    // silence before the first reflections arrive.
    let mut reverb = Reverb::new(SR);
    let mut params = Params::new(SR);
    params.set(q(0.), q(7.), q(40.), q(2.), q(-0.25), q(0.5), q(0.9), q(0.), q(0.), q(1.));
    let predelay_samples = (SR as usize) * 7 / 1000;
    let mut first_sound = None;
    for n in 0..(SR as usize) {
        let input = if n == 0 { (q(1.), 0) } else { (0, 0) };
        let out = reverb.process(input, &mut params);
        if first_sound.is_none() && (out.0 != 0 || out.1 != 0) {
            first_sound = Some(n);
        }
    }
    let first = first_sound.expect("the tail must sound at all");
    assert!(
        first >= predelay_samples,
        "sound before the pre-delay elapsed: sample {first}"
    );
    assert!(first < 4 * predelay_samples, "tail came far too late: sample {first}");

    // Then the default parameter set: a decaying, bounded tail whose RMS
    // falls below -60 dBFS within a bounded time.
    let mut reverb = Reverb::new(SR);
    let mut params = default_params();
    let seconds = 3;
    let total = (SR as usize) * seconds;
    let window = (SR as usize) / 10;
    let mut tail_energy = 0f64;
    let mut tail_count = 0usize;
    let mut peak = 0f64;
    let mut mid_energy = 0f64;
    for n in 0..total {
        let input = if n == 0 { (q(1.), 0) } else { (0, 0) };
        let out = reverb.process(input, &mut params);
        let l = fl(out.0);
        let r = fl(out.1);
        assert!(l.is_finite() && r.is_finite());
        assert!(l.abs() < 8.0 && r.abs() < 8.0, "runaway amplitude at {n}");
        peak = peak.max(l.abs()).max(r.abs());
        if n >= (SR as usize) / 2 && n < (SR as usize) / 2 + window {
            mid_energy += l * l + r * r;
        }
        if n >= total - window {
            tail_energy += l * l + r * r;
            tail_count += 2;
        }
    }
    assert!(peak > 1e-4, "the impulse must excite the network");
    assert!(mid_energy > 0.0, "energy should still be trailing after half a second");
    let tail_rms = (tail_energy / tail_count as f64).sqrt();
    assert!(
        tail_rms < 1e-3,
        "tail RMS should settle below -60 dBFS: {tail_rms}"
    );
}

#[test]
fn feedback_stays_bounded_at_maximum_decay() {
    // Decay and absorb at their documented maxima, across size and depth
    // extremes: the output peak must stay under a fixed ceiling.
    for (size, depth) in [(1.0, 0.0), (500.0, -1.0), (250.0, 1.0)] {
        let mut reverb = Reverb::new(SR);
        let mut params = Params::new(SR);
        params.set(q(0.), q(7.), q(size), q(50.), q(depth), q(1.), q(1.2), q(0.), q(0.), q(1.));
        let mut peak = 0f64;
        for n in 0..(SR as usize) {
            let input = if n == 0 { (q(1.), q(1.)) } else { (0, 0) };
            let out = reverb.process(input, &mut params);
            peak = peak.max(fl(out.0).abs()).max(fl(out.1).abs());
        }
        assert!(
            peak < 16.0,
            "unbounded growth at size {size}, depth {depth}: peak {peak}"
        );
    }
}

#[test]
fn grain_offsets_come_from_the_random_source() {
    // Two engines differing only in the random seed must diverge once the
    // granular reads re-trigger; if the grains ignored the random draw the
    // two runs would be identical.
    let run = |seed: u64| -> Vec<i64> {
        fastrand::seed(seed);
        let mut reverb = Reverb::new(SR);
        let mut params = Params::new(SR);
        params.set(q(0.), q(7.), q(40.), q(20.), q(1.), q(0.5), q(0.9), q(0.), q(0.), q(1.));
        let mut out = Vec::new();
        for n in 0..20000 {
            let x = if n % 2 == 0 { q(0.5) } else { q(-0.5) };
            let (l, r) = reverb.process((x, x), &mut params);
            out.push(l);
            out.push(r);
        }
        out
    };
    let a = run(1);
    let b = run(2);
    assert_eq!(a.len(), b.len());
    assert!(a.iter().zip(b.iter()).any(|(x, y)| x != y), "runs must depend on the seed");
}

#[test]
fn reversed_predelay_produces_sound() {
    let mut reverb = Reverb::new(SR);
    let mut params = Params::new(SR);
    params.set(q(1.), q(50.), q(40.), q(2.), q(0.), q(0.5), q(0.9), q(0.), q(0.), q(1.));
    let mut heard = false;
    for n in 0..(SR as usize / 2) {
        let input = if n < 100 { (q(0.5), q(0.5)) } else { (0, 0) };
        let out = reverb.process(input, &mut params);
        assert!(fl(out.0).abs() < 8.0 && fl(out.1).abs() < 8.0);
        if out.0 != 0 || out.1 != 0 {
            heard = true;
        }
    }
    assert!(heard, "the reversed path must produce output");
}

#[test]
fn shimmer_path_stays_bounded() {
    let mut reverb = Reverb::new(SR);
    let mut params = Params::new(SR);
    params.set(q(0.), q(7.), q(40.), q(2.), q(0.), q(0.5), q(1.0), q(0.), q(1.), q(0.5));
    for n in 0..(SR as usize / 2) {
        let input = if n == 0 { (q(1.), q(1.)) } else { (0, 0) };
        let out = reverb.process(input, &mut params);
        assert!(fl(out.0).abs() < 16.0 && fl(out.1).abs() < 16.0);
    }
}

#[test]
fn out_of_range_parameters_are_clamped() {
    let mut params = Params::new(SR);
    // First call snaps the smoothers, so the clamped values are readable on
    // the very next step.
    params.set(q(2.), q(1000.), q(9999.), q(500.), q(3.), q(4.), q(2.0), q(5.), q(7.), q(-1.));
    assert_eq!(params.reverse.next(), q(1.));
    assert_eq!(params.predelay.next(), q(500.));
    assert_eq!(params.size.next(), q(500.));
    assert_eq!(params.decay.next(), q(1.2));
    assert_eq!(params.mix.next(), q(0.));
    assert_eq!(params.speed, q(50.));
}
