use fxr::envelope::Envelope;
use fxr::fixed::{FX_ONE, FX_ONE_U};
use fxr::noise::{BrownNoise, PinkNoise, WhiteNoise, DEFAULT_ROLLOFF, PINK_VAL_BOUND};
use fxr::passband::{cutoff_index, passband_mask, PassbandMode};
use fxr::trig::{cosine_turn, sine_turn, tangent_fx, FX_HALF, FX_QUARTER};
use fxr::waveform::{Breaker, Sawtooth, Sine, Square, Tangent, Triangle, Waveform};

fn fx_to_f64(v: i64) -> f64 {
    v as f64 / FX_ONE as f64
}

#[test]
fn sine_quarter_points_are_exact() {
    assert_eq!(sine_turn(0), 0);
    assert_eq!(sine_turn(FX_QUARTER), FX_ONE);
    assert_eq!(sine_turn(FX_HALF), 0);
    assert_eq!(sine_turn(3 * FX_QUARTER), -FX_ONE);
}

#[test]
fn sine_tracks_the_transcendental_function() {
    for k in 0..256u64 {
        let p = k * (FX_ONE_U / 256);
        let approx = fx_to_f64(sine_turn(p));
        let exact = (2.0 * std::f64::consts::PI * (k as f64) / 256.0).sin();
        assert!((approx - exact).abs() < 0.002, "k={} approx={} exact={}", k, approx, exact);
    }
}

#[test]
fn cosine_is_sine_shifted() {
    assert_eq!(cosine_turn(0), FX_ONE);
    assert_eq!(cosine_turn(FX_QUARTER), 0);
    assert_eq!(cosine_turn(FX_HALF), -FX_ONE);
}

#[test]
fn tangent_clamps_at_the_quarter_cycle() {
    let cutoff = 644245094i64;
    assert_eq!(tangent_fx(0, cutoff), 0);
    assert_eq!(tangent_fx(FX_HALF, cutoff), FX_ONE);
    // Just past the singularity the tangent is hugely negative and clamps.
    assert_eq!(tangent_fx(FX_HALF + 1000, cutoff), -FX_ONE);
}

#[test]
fn triangle_hits_its_corners() {
    let w = Waveform::Triangle(Triangle::new_simple(FX_ONE).unwrap());
    assert_eq!(w.value(0), 0);
    assert_eq!(w.value(FX_ONE_U / 8), FX_ONE / 2);
    assert_eq!(w.value(FX_ONE_U / 4), FX_ONE);
    assert_eq!(w.value(FX_ONE_U / 2), 0);
    assert_eq!(w.value(3 * (FX_ONE_U / 4)), -FX_ONE);
}

#[test]
fn sawtooth_rises_through_the_cycle() {
    let w = Waveform::Sawtooth(Sawtooth::new_simple(FX_ONE).unwrap());
    assert_eq!(w.value(0), -FX_ONE);
    assert_eq!(w.value(FX_ONE_U / 2), 0);
    assert_eq!(w.value(3 * (FX_ONE_U / 4)), FX_ONE / 2);
}

#[test]
fn square_follows_its_duty_cycle() {
    let w = Waveform::Square(Square::default_simple(FX_ONE).unwrap());
    assert_eq!(w.value(0), FX_ONE);
    assert_eq!(w.value(FX_ONE_U / 4), FX_ONE);
    assert_eq!(w.value(FX_ONE_U / 2), -FX_ONE);
    assert_eq!(w.value(3 * (FX_ONE_U / 4)), -FX_ONE);
    // A short duty spends less of the cycle high.
    let narrow = Waveform::Square(Square::new_simple(FX_ONE, FX_ONE / 4).unwrap());
    assert_eq!(narrow.value(FX_ONE_U / 8), FX_ONE);
    assert_eq!(narrow.value(FX_ONE_U / 2), -FX_ONE);
}

#[test]
fn breaker_stays_within_one_unit() {
    let w = Waveform::Breaker(Breaker::new_simple(2 * FX_ONE).unwrap());
    for k in 0..512u64 {
        let t = k * (FX_ONE_U / 512);
        let v = w.value(t);
        assert!(-FX_ONE <= v && v <= FX_ONE);
    }
}

#[test]
fn envelope_taking_constructors_carry_their_parameters() {
    let freq = Envelope::from_constant(220 * FX_ONE);
    assert!(Tangent::new(freq, 0).is_none());
    let freq2 = Envelope::from_constant(220 * FX_ONE);
    let t = Tangent::new(freq2, FX_ONE / 10).unwrap();
    assert_eq!(t.cutoff, FX_ONE / 10);
    let freq3 = Envelope::from_constant(220 * FX_ONE);
    let sq = Square::default(freq3);
    // The default duty holds an even cycle: high for the first half.
    let w = Waveform::Square(sq);
    assert_eq!(w.value(0), FX_ONE);
}

#[test]
fn tangent_waveform_stays_within_one_unit() {
    let w = Waveform::Tangent(Tangent::default_simple(440 * FX_ONE).unwrap());
    for k in 0..512u64 {
        let t = k * (FX_ONE_U / 512);
        let v = w.value(t);
        assert!(-FX_ONE <= v && v <= FX_ONE);
    }
}

#[test]
fn sine_oscillator_is_deterministic() {
    // The same sample clock always reproduces the same value, and that
    // value follows the transcendental sine of the accumulated phase.
    let w = Waveform::Sine(Sine::new_simple(200 * FX_ONE).unwrap());
    for k in [0u64, 10, 100, 1000] {
        let t = k * (FX_ONE_U / 8000);
        let first = w.value(t);
        let second = w.value(t);
        assert_eq!(first, second);
        let exact = (2.0 * std::f64::consts::PI * 200.0 * (k as f64) / 8000.0).sin();
        assert!((fx_to_f64(first) - exact).abs() < 0.002);
    }
}

#[test]
fn brown_noise_never_leaves_the_unit_range() {
    // The random walk is clamped whatever the generator draws.
    let freq = Envelope::from_constant(1000 * FX_ONE);
    let mut n = BrownNoise::new(freq, DEFAULT_ROLLOFF, 7).unwrap();
    for k in 0..20000u64 {
        let t = k * (FX_ONE_U / 8000);
        let v = n.next_value(t);
        assert!(-FX_ONE <= v && v <= FX_ONE, "sample {} out of range: {}", k, v);
    }
}

#[test]
fn brown_noise_rejects_bad_rolloff() {
    let freq = Envelope::from_constant(FX_ONE);
    assert!(BrownNoise::new(freq, 0, 0).is_none());
    let freq2 = Envelope::from_constant(FX_ONE);
    assert!(BrownNoise::new(freq2, FX_ONE, 0).is_none());
}

#[test]
fn white_noise_interpolates_between_held_draws() {
    // Between two wrap events every published sample lies between the two
    // held draws, and the source actually produces fresh nonzero draws.
    let freq = Envelope::from_constant(100 * FX_ONE);
    let mut n = WhiteNoise::new(freq, 42);
    let mut max_seen = i64::MIN;
    let mut min_seen = i64::MAX;
    for k in 0..20000u64 {
        let t = k * (FX_ONE_U / 8000);
        let v = n.next_value(t);
        let lo = n.prev_random.min(n.curr_random);
        let hi = n.prev_random.max(n.curr_random);
        assert!(lo <= v && v <= hi);
        assert!(-FX_ONE <= v && v <= FX_ONE);
        max_seen = max_seen.max(v);
        min_seen = min_seen.min(v);
    }
    // The draws really are uniform over the whole range: over hundreds of
    // wraps both halves of the range appear.
    assert!(max_seen > FX_ONE / 4);
    assert!(min_seen < -FX_ONE / 4);
}

#[test]
fn white_noise_is_deterministic_per_seed() {
    let mut a = WhiteNoise::new(Envelope::from_constant(100 * FX_ONE), 5);
    let mut b = WhiteNoise::new(Envelope::from_constant(100 * FX_ONE), 5);
    for k in 0..1000u64 {
        let t = k * (FX_ONE_U / 8000);
        assert_eq!(a.next_value(t), b.next_value(t));
    }
}

#[test]
fn pink_noise_stays_within_its_proven_bound() {
    let freq = Envelope::from_constant(1000 * FX_ONE);
    let mut n = PinkNoise::new(freq, 11);
    let mut saw_nonzero = false;
    for k in 0..20000u64 {
        let t = k * (FX_ONE_U / 8000);
        let v = n.next_value(t);
        assert!(-PINK_VAL_BOUND <= v && v <= PINK_VAL_BOUND);
        if v != 0 {
            saw_nonzero = true;
        }
    }
    assert!(saw_nonzero);
}

#[test]
fn cutoff_index_scales_and_rounds() {
    assert_eq!(cutoff_index(0, 8000, 100), 0);
    // 1000 Hz of an 8000 Hz rate over 100 bins: 12.5, rounded up to 13.
    assert_eq!(cutoff_index(1000 * FX_ONE_U, 8000, 100), 13);
    // At or above the full rate the index saturates at the end.
    assert_eq!(cutoff_index(16000 * FX_ONE_U, 8000, 100), 100);
}

#[test]
fn passband_mask_boundaries() {
    // High pass with cutoff zero keeps every bin; low pass with cutoff
    // zero keeps none.
    let keep_all = passband_mask(16, 0, PassbandMode::HighPass);
    assert!(keep_all.iter().all(|&b| b));
    let keep_none = passband_mask(16, 0, PassbandMode::LowPass);
    assert!(keep_none.iter().all(|&b| !b));
    let mid = passband_mask(8, 3, PassbandMode::LowPass);
    assert_eq!(mid, vec![true, true, true, false, false, false, false, false]);
}

#[test]
fn passband_boundary_on_a_real_spectrum() {
    // Drive a real spectral transform with the verified mask: a high pass
    // at cutoff zero reproduces the input, a low pass at cutoff zero
    // silences it.
    let n = 64usize;
    let input: Vec<f64> = (0..n)
        .map(|i| (2.0 * std::f64::consts::PI * 5.0 * i as f64 / n as f64).sin())
        .collect();

    let mut planner = realfft::RealFftPlanner::<f64>::new();
    let fft = planner.plan_fft_forward(n);
    let ifft = planner.plan_fft_inverse(n);

    for (mode, expect_silence) in [(PassbandMode::HighPass, false), (PassbandMode::LowPass, true)]
    {
        let mut time = input.clone();
        let mut spectrum = fft.make_output_vec();
        fft.process(&mut time, &mut spectrum).unwrap();
        let cutoff = cutoff_index(0, n as u32, spectrum.len());
        let mask = passband_mask(spectrum.len(), cutoff, mode);
        for (bin, keep) in spectrum.iter_mut().zip(mask.iter()) {
            if !keep {
                *bin = realfft::num_complex::Complex::new(0.0, 0.0);
            }
        }
        let mut out = vec![0.0f64; n];
        ifft.process(&mut spectrum, &mut out).unwrap();
        for (o, i) in out.iter().zip(input.iter()) {
            let v = o / n as f64;
            if expect_silence {
                assert!(v.abs() < 1e-9);
            } else {
                assert!((v - i).abs() < 1e-9);
            }
        }
    }
}
