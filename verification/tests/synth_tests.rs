use fxr::bit_crush::BitCrush;
use fxr::config::{Description, ValidationIssue, WaveformType, PCT_100};
use fxr::envelope::Envelope;
use fxr::fixed::{FX_ONE, FX_ONE_U};
use fxr::json::{parse, NumField, RateField, RawDescription, TextField};
use fxr::phase::Phase;
use fxr::synth::{sample_to_i16, Stream, Synth};
use fxr::waveform::{Sine, Waveform};

fn expect_parse_err(raw: RawDescription) -> String {
    match parse(raw, 1) {
        Err(e) => e,
        Ok(_) => panic!("expected an error"),
    }
}

fn expect_build_err(d: Description) -> Vec<ValidationIssue> {
    match d.build(1) {
        Err(e) => e,
        Ok(_) => panic!("expected an error"),
    }
}

fn sine_description() -> Description {
    Description {
        fxr_version: 1,
        fxr_name: String::from("test"),
        sample_rate: 8000,
        attack: 0,
        sustain: FX_ONE,
        decay: 0,
        sustain_punch: 0,
        amplification: PCT_100,
        frequency: 200 * FX_ONE,
        waveform: WaveformType::Sine,
    }
}

#[test]
fn end_to_end_sine_second() {
    // One second of a 200 Hz sine at 8000 Hz: exactly 8000 samples, the
    // tenth matching the transcendental sine, and nothing after the last.
    let mut stream = sine_description().build(1).unwrap();
    assert_eq!(stream.duration(), FX_ONE_U);
    let mut samples = Vec::new();
    loop {
        match stream.next() {
            Some(v) => samples.push(v),
            None => break,
        }
    }
    assert_eq!(samples.len(), 8000);
    assert!(stream.next().is_none());
    assert!(stream.next().is_none());
    let expected = (2.0 * std::f64::consts::PI * 200.0 * 10.0 / 8000.0).sin();
    let got = samples[10] as f64 / FX_ONE as f64;
    assert!((got - expected).abs() < 0.002, "got {} expected {}", got, expected);
}

#[test]
fn render_produces_the_whole_buffer() {
    let mut stream = sine_description().build(1).unwrap();
    let buf = stream.render().unwrap();
    assert_eq!(buf.sample_rate, 8000);
    assert_eq!(buf.samples.len(), 8000);
}

#[test]
fn render_collects_the_final_partial_sample() {
    // A duration of one second plus half a sample period still has an
    // active index past the whole seconds: rendering collects that last
    // pull too, and leaves the stream exhausted.
    let mut d = sine_description();
    d.sustain = FX_ONE + 268435;
    let mut pulled = d.build(1).unwrap();
    let mut count = 0u64;
    while pulled.next().is_some() {
        count += 1;
    }
    assert_eq!(count, 8001);

    let mut stream = sine_description().build(1).unwrap();
    let mut d2 = sine_description();
    d2.sustain = FX_ONE + 268435;
    let mut stream2 = d2.build(1).unwrap();
    assert_eq!(stream.render().unwrap().samples.len(), 8000);
    let buf = stream2.render().unwrap();
    assert_eq!(buf.samples.len(), 8001);
    assert!(stream2.next().is_none());
}

#[test]
fn render_16_saturates_to_the_sixteen_bit_range() {
    let mut stream = sine_description().build(1).unwrap();
    let buf = stream.render_16().unwrap();
    assert_eq!(buf.samples.len(), 8000);
    assert!(buf.samples.iter().all(|&s| (-32767..=32767).contains(&s)));
    assert_eq!(sample_to_i16(0), 0);
    assert_eq!(sample_to_i16(FX_ONE), 32767);
    assert_eq!(sample_to_i16(-FX_ONE), -32767);
    assert_eq!(sample_to_i16(10 * FX_ONE), 32767);
}

#[test]
fn synth_new_rejects_zero_rate() {
    let freq = Envelope::from_constant(FX_ONE);
    let env = Envelope::from_duration(FX_ONE, 0, FX_ONE_U, 0, 0, None).unwrap();
    assert!(Synth::new(0, Waveform::Sine(Sine::new(freq)), env).is_none());
}

#[test]
fn stream_duration_is_min_of_components() {
    // The amplitude envelope is shorter than the frequency envelope's
    // horizon, so it decides the stream's length.
    let mut stream = sine_description().build(3).unwrap();
    assert!(matches!(stream, Stream::Tone(_)));
    assert_eq!(stream.duration(), FX_ONE_U);
    let _ = stream.next();
    assert_eq!(stream.duration(), FX_ONE_U);
}

#[test]
fn brown_noise_stream_stays_in_range() {
    // An amplification of one hundred percent keeps every published brown
    // noise sample within one unit.
    let mut d = sine_description();
    d.waveform = WaveformType::BrownNoise;
    d.frequency = 1000 * FX_ONE;
    let mut stream = d.build(9).unwrap();
    let mut count = 0u64;
    loop {
        match stream.next() {
            Some(v) => {
                assert!(-FX_ONE <= v && v <= FX_ONE);
                count += 1;
            },
            None => break,
        }
    }
    assert_eq!(count, 8000);
}

#[test]
fn validation_collects_every_issue() {
    let mut d = sine_description();
    d.fxr_version = 2;
    d.attack = -1;
    d.frequency = -5;
    let issues = d.validate();
    assert!(issues.contains(&ValidationIssue::Version));
    assert!(issues.contains(&ValidationIssue::Attack));
    assert!(issues.contains(&ValidationIssue::Frequency));
    assert_eq!(issues.len(), 3);
}

#[test]
fn amplification_zero_is_collected_with_other_issues() {
    // Error collection is exhaustive: a vanishing amplification is
    // reported alongside every other applicable issue, not instead of it.
    let mut d = sine_description();
    d.fxr_version = 2;
    d.amplification = 0;
    d.decay = -1;
    let err = expect_build_err(d);
    assert!(err.contains(&ValidationIssue::Version));
    assert!(err.contains(&ValidationIssue::Decay));
    assert!(err.contains(&ValidationIssue::AmplificationZero));
}

#[test]
fn zero_duration_is_rejected_with_a_message() {
    // No stage at all: no stream, and the report mentions the duration.
    let mut d = sine_description();
    d.attack = 0;
    d.sustain = 0;
    d.decay = 0;
    let err = expect_build_err(d);
    assert!(err.contains(&ValidationIssue::Duration));
    assert!(err.iter().any(|i| i.message().contains("duration")));
}

#[test]
fn square_duty_out_of_range_is_rejected() {
    let mut d = sine_description();
    d.waveform = WaveformType::Square { square_duty: PCT_100 + 1 };
    let err = expect_build_err(d);
    assert!(err.contains(&ValidationIssue::SquareDuty));
    assert!(err.iter().any(|i| i.message().contains("square_duty")));
}

fn sine_raw() -> RawDescription {
    RawDescription {
        version: NumField::Num(1),
        sample_rate: RateField::Num(8000),
        attack: NumField::Missing,
        sustain: NumField::Num(FX_ONE),
        decay: NumField::Missing,
        amplification: NumField::Missing,
        frequency: NumField::Num(200 * FX_ONE),
        waveform: TextField::Text(String::from("sine")),
        square_duty: NumField::Missing,
    }
}

#[test]
fn parse_builds_the_described_stream() {
    let mut stream = parse(sine_raw(), 1).unwrap();
    assert_eq!(stream.duration(), FX_ONE_U);
    assert!(matches!(stream, Stream::Tone(_)));
    assert!(stream.next().is_some());
}

#[test]
fn parse_applies_defaults() {
    let mut raw = sine_raw();
    raw.sample_rate = RateField::Missing;
    let mut stream = parse(raw, 1).unwrap();
    let buf = stream.render().unwrap();
    assert_eq!(buf.sample_rate, 44100);
    assert_eq!(buf.samples.len(), 44100);
}

#[test]
fn parse_fails_fast_with_field_messages() {
    let mut raw = sine_raw();
    raw.version = NumField::Num(2);
    assert_eq!(expect_parse_err(raw), "JFXR version mismatch");

    let mut raw = sine_raw();
    raw.attack = NumField::Bad;
    assert_eq!(expect_parse_err(raw), "'attack' is not a number");

    let mut raw = sine_raw();
    raw.sustain = NumField::Num(-4);
    assert_eq!(expect_parse_err(raw), "'sustain' must not be negative");

    let mut raw = sine_raw();
    raw.sustain = NumField::Missing;
    assert_eq!(
        expect_parse_err(raw),
        "Sound duration must be positive; assign 'attack', 'sustain' and/or 'decay' values"
    );

    let mut raw = sine_raw();
    raw.frequency = NumField::Missing;
    assert_eq!(expect_parse_err(raw), "Frequency is not set");

    let mut raw = sine_raw();
    raw.waveform = TextField::Text(String::from("organ"));
    assert_eq!(expect_parse_err(raw), "Waveform type is not defined");

    let mut raw = sine_raw();
    raw.waveform = TextField::Missing;
    assert_eq!(expect_parse_err(raw), "Waveform is not set");
}

#[test]
fn parse_square_checks_its_duty() {
    let mut raw = sine_raw();
    raw.waveform = TextField::Text(String::from("square"));
    raw.square_duty = NumField::Num(50 * FX_ONE);
    assert!(parse(raw, 1).is_ok());

    let mut raw = sine_raw();
    raw.waveform = TextField::Text(String::from("square"));
    raw.square_duty = NumField::Num(101 * FX_ONE);
    assert_eq!(
        expect_parse_err(raw),
        "'squareDuty' must be a percentage value between 0 and 100"
    );
}

#[test]
fn parse_builds_noise_streams() {
    for tag in ["whitenoise", "pinknoise", "brownnoise"] {
        let mut raw = sine_raw();
        raw.waveform = TextField::Text(String::from(tag));
        let stream = parse(raw, 123).unwrap();
        assert!(matches!(stream, Stream::Noise(_)), "{} should be a noise stream", tag);
    }
}

#[test]
fn bit_crush_new_accepts_one_to_sixteen() {
    assert!(BitCrush::new(0).is_none());
    assert!(BitCrush::new(17).is_none());
    for bits in 1..=16usize {
        assert!(BitCrush::new(bits).is_some());
    }
}

#[test]
fn bit_crush_mask_matches_the_depth() {
    assert_eq!(BitCrush::new(1).unwrap().mask(), 0b0100000000000000);
    assert_eq!(BitCrush::new(8).unwrap().mask(), 0b0111111110000000);
    assert_eq!(BitCrush::new(15).unwrap().mask(), 0b0111111111111111);
}

#[test]
fn bit_crush_is_idempotent() {
    // Crushing a crushed sample at the same depth changes nothing.
    let xs = [
        0i64,
        1,
        -1,
        FX_ONE / 3,
        -FX_ONE / 3,
        FX_ONE / 2,
        FX_ONE - 1,
        FX_ONE,
        -FX_ONE,
        123456789,
        -987654321,
        7 * FX_ONE,
    ];
    for bits in 1..=16usize {
        let b = BitCrush::new(bits).unwrap();
        for &x in xs.iter() {
            let once = b.crush(x);
            assert_eq!(b.crush(once), once, "bits={} x={}", bits, x);
        }
    }
}

#[test]
fn bit_crush_quantizes_symmetrically() {
    let b = BitCrush::new(16).unwrap();
    assert_eq!(b.crush(0), 0);
    assert_eq!(b.crush(FX_ONE / 2), FX_ONE / 2);
    assert_eq!(b.crush(-(FX_ONE / 2)), -(FX_ONE / 2));
    // One bit keeps only the top magnitude level.
    let coarse = BitCrush::new(1).unwrap();
    let v = coarse.crush(3 * (FX_ONE / 4));
    assert_eq!(-coarse.crush(-(3 * (FX_ONE / 4))), v);
    assert_eq!(v, FX_ONE / 2);
}

#[test]
fn bit_crushed_stream_crushes_every_sample() {
    let stream = sine_description().build(1).unwrap();
    let b = BitCrush::new(3).unwrap();
    let mut crushed = b.apply(stream);
    assert_eq!(crushed.duration(), FX_ONE_U);
    let mut count = 0u64;
    loop {
        match crushed.next() {
            Some(v) => {
                assert_eq!(b.crush(v), v);
                count += 1;
            },
            None => break,
        }
    }
    assert_eq!(count, 8000);
}

#[test]
fn library_name_is_stable() {
    assert_eq!(fxr::name(), "rs-fxr");
}

#[test]
fn waveform_type_builds_every_variant() {
    let kinds = [
        WaveformType::Sine,
        WaveformType::Triangle,
        WaveformType::Sawtooth,
        WaveformType::Breaker,
        WaveformType::Tangent,
        WaveformType::Square { square_duty: 50 * FX_ONE },
        WaveformType::WhiteNoise,
        WaveformType::PinkNoise,
        WaveformType::BrownNoise,
    ];
    for kind in kinds {
        let freq = Envelope::from_constant(200 * FX_ONE);
        let env = Envelope::from_duration(FX_ONE, 0, FX_ONE_U / 4, 0, 0, None).unwrap();
        let mut stream = kind.build(8000, freq, env, 21).unwrap();
        assert_eq!(stream.duration(), FX_ONE_U / 4);
        assert!(stream.next().is_some());
    }
    let freq = Envelope::from_constant(200 * FX_ONE);
    let env = Envelope::from_duration(FX_ONE, 0, FX_ONE_U, 0, 0, None).unwrap();
    assert!(WaveformType::Sine.build(0, freq, env, 21).is_none());
}

#[test]
fn synth_render_16_matches_stream_render() {
    let stream = sine_description().build(1).unwrap();
    let synth = match stream {
        Stream::Tone(s) => s,
        Stream::Noise(_) => panic!("expected a tone"),
    };
    let buf = synth.render_16().unwrap();
    assert_eq!(buf.sample_rate, 8000);
    assert_eq!(buf.samples.len(), 8000);
}

#[test]
fn phase_accumulates_and_resets() {
    let mut p = Phase::with_freq(400 * FX_ONE_U, 44100).unwrap();
    let step = (400 * FX_ONE_U) / 44100;
    assert_eq!(p.next(), Some(step));
    assert_eq!(p.next(), Some(2 * step));
    p.reset();
    assert_eq!(p.next(), Some(step));
    assert!(Phase::new(0).is_none());
}
