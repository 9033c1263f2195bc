use fxr::envelope::{Envelope, Interval};
use fxr::fixed::{AMP_LIMIT, FX_ONE, FX_ONE_U, MAX_TIME_FX, VAL_LIMIT};

#[test]
fn interval_new_rejects_bad_parameters() {
    assert!(Interval::new(0, 0, 10).is_none());
    assert!(Interval::new(MAX_TIME_FX + 1, 0, 10).is_none());
    assert!(Interval::new(100, VAL_LIMIT + 1, 0).is_none());
    assert!(Interval::new(100, 0, -VAL_LIMIT - 1).is_none());
    assert!(Interval::new(100, -VAL_LIMIT, VAL_LIMIT).is_some());
}

#[test]
fn interval_midpoint_is_exact_average() {
    // The interpolation law: at half the duration the value is exactly the
    // average of the endpoints.
    let iv = Interval::new(1000, 10, 20).unwrap();
    assert_eq!(iv.value(500), 15);
    let iv2 = Interval::new(FX_ONE_U, -100, 300).unwrap();
    assert_eq!(iv2.value(FX_ONE_U / 2), 100);
}

#[test]
fn interval_value_outside_is_zero() {
    let iv = Interval::new(1000, 10, 20).unwrap();
    assert_eq!(iv.value(1001), 0);
    assert_eq!(iv.value(u64::MAX), 0);
    assert_eq!(iv.value(0), 10);
    assert_eq!(iv.value(1000), 20);
}

#[test]
fn from_points_duration_is_sum_of_segments() {
    // Chained control points; the first starts past zero so an implicit
    // ramp from silence is prepended.
    let points = vec![
        (FX_ONE_U, 100),
        (3 * FX_ONE_U, 0),
    ];
    let env = Envelope::from_points(points, None).unwrap();
    assert_eq!(env.segments.len(), 2);
    assert_eq!(env.duration(), 3 * FX_ONE_U);
    // Value past the end is zero.
    assert_eq!(env.value(3 * FX_ONE_U), 0);
    assert_eq!(env.value(4 * FX_ONE_U), 0);
    // Inside the first ramp it interpolates from zero up.
    assert_eq!(env.value(FX_ONE_U / 2), 50);
}

#[test]
fn from_points_empty_is_empty_envelope() {
    let env = Envelope::from_points(Vec::new(), None).unwrap();
    assert_eq!(env.duration(), 0);
    assert_eq!(env.value(0), 0);
}

#[test]
fn from_points_drops_non_advancing_pairs() {
    let points = vec![
        (0u64, 0i64),
        (5, 10),
        (3, 20),
        (10, 5),
    ];
    let env = Envelope::from_points(points, None).unwrap();
    assert_eq!(env.segments.len(), 2);
    assert_eq!(env.duration(), 10);
}

#[test]
fn from_points_rejects_bad_vibrato() {
    let points = vec![(FX_ONE_U, 100)];
    assert!(Envelope::from_points(points.clone(), Some((FX_ONE_U + 1, 0))).is_none());
    assert!(Envelope::from_points(points.clone(), Some((0, VAL_LIMIT as u64 + 1))).is_none());
    assert!(Envelope::from_points(points, Some((FX_ONE_U / 2, 5 * FX_ONE_U))).is_some());
}

#[test]
fn from_duration_builds_three_stages() {
    let amp = FX_ONE;
    let env = Envelope::from_duration(amp, FX_ONE_U, 2 * FX_ONE_U, FX_ONE_U, 0, None).unwrap();
    assert_eq!(env.segments.len(), 3);
    assert_eq!(env.duration(), 4 * FX_ONE_U);
    // Attack ramps from silence to the peak.
    assert_eq!(env.value(0), 0);
    assert_eq!(env.value(FX_ONE_U / 2), amp / 2);
    // Sustain holds the peak when there is no punch.
    assert_eq!(env.value(2 * FX_ONE_U), amp);
    // Decay ends in silence.
    assert_eq!(env.value(4 * FX_ONE_U), 0);
}

#[test]
fn from_duration_omits_zero_stages() {
    let env = Envelope::from_duration(FX_ONE, 0, FX_ONE_U, 0, 0, None).unwrap();
    assert_eq!(env.segments.len(), 1);
    assert_eq!(env.duration(), FX_ONE_U);
}

#[test]
fn from_duration_applies_sustain_punch() {
    // A full punch doubles the sustain's starting value.
    let amp = FX_ONE;
    let env = Envelope::from_duration(amp, 0, FX_ONE_U, 0, FX_ONE, None).unwrap();
    assert_eq!(env.value(0), 2 * amp);
    assert_eq!(env.value(FX_ONE_U / 2), amp + amp / 2);
}

#[test]
fn from_duration_rejects_bad_parameters() {
    assert!(Envelope::from_duration(0, FX_ONE_U, 0, 0, 0, None).is_none());
    assert!(Envelope::from_duration(-5, FX_ONE_U, 0, 0, 0, None).is_none());
    assert!(Envelope::from_duration(AMP_LIMIT + 1, FX_ONE_U, 0, 0, 0, None).is_none());
    assert!(Envelope::from_duration(FX_ONE, 0, 0, 0, 0, None).is_none());
    assert!(Envelope::from_duration(FX_ONE, FX_ONE_U, 0, 0, -1, None).is_none());
    assert!(Envelope::from_duration(FX_ONE, FX_ONE_U, 0, 0, FX_ONE + 1, None).is_none());
}

#[test]
fn envelope_new_checks_segments() {
    let good = vec![
        Interval::new(100, 0, 50).unwrap(),
        Interval::new(200, 50, 0).unwrap(),
    ];
    let env = Envelope::new(good, None).unwrap();
    assert_eq!(env.duration(), 300);
    // A segment that could never be constructed is refused here too.
    let bad = vec![Interval { duration: 0, start: 0, end: 0 }];
    assert!(Envelope::new(bad, None).is_none());
}

#[test]
fn vibrato_modulates_segment_value() {
    // Depth one at a frequency whose cosine starts at its crest: the
    // modulation factor at time zero is zero, so the value vanishes there.
    let amp = FX_ONE;
    let plain = Envelope::from_duration(amp, 0, 4 * FX_ONE_U, 0, 0, None).unwrap();
    let modulated = Envelope::from_duration(
        amp,
        0,
        4 * FX_ONE_U,
        0,
        0,
        Some((FX_ONE_U, FX_ONE_U)),
    )
    .unwrap();
    assert_eq!(plain.value(0), amp);
    assert_eq!(modulated.value(0), 0);
}
