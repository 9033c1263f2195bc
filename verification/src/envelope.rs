use crate::fixed::{
    div_trunc, lemma_abs_mul_le, lemma_div_trunc_le, lemma_scale_bound, mul_i_div_u, phase_frac_fx,
    phase_frac_spec, AMP_LIMIT, FX_ONE, FX_ONE_U, MAX_TIME_FX, VAL2_LIMIT, VAL_LIMIT,
};
use crate::trig::{cosine_turn, cosine_turn_spec};
use vstd::arithmetic::div_mod::{
    lemma_div_by_multiple, lemma_div_multiples_vanish, lemma_div_of0, lemma_fundamental_div_mod,
};
use vstd::arithmetic::mul::{lemma_mul_nonnegative, lemma_mul_unary_negation};
use vstd::prelude::*;

verus! {

/// One linear ramp: over `duration` units of time the value runs from
/// `start` to `end`. Outside `[0, duration]` the ramp contributes nothing.
pub struct Interval {
    pub duration: u64,
    pub start: i64,
    pub end: i64,
}

impl Interval {
    /// Representability bounds every constructed interval obeys: a positive
    /// duration within the time horizon, endpoints within the value range.
    pub open spec fn wf(&self) -> bool {
        &&& 0 < self.duration <= MAX_TIME_FX
        &&& vstd::math::abs(self.start as int) <= VAL_LIMIT as int
        &&& vstd::math::abs(self.end as int) <= VAL_LIMIT as int
    }

    /// The ramp's value at time `t`: linear interpolation inside
    /// `[0, duration]`, zero outside.
    pub open spec fn value_spec(&self, t: int) -> int {
        if 0 <= t <= self.duration {
            self.start + div_trunc((self.end - self.start) * t, self.duration as int)
        } else {
            0
        }
    }

    /// Builds the ramp; yields nothing when the parameters fall outside the
    /// representable ranges (mirroring rejection of non-finite input).
    pub fn new(duration: u64, start: i64, end: i64) -> (r: Option<Interval>)
        ensures
            match r {
                Some(iv) => {
                    &&& iv.duration == duration
                    &&& iv.start == start
                    &&& iv.end == end
                    &&& iv.wf()
                },
                None => !(0 < duration <= MAX_TIME_FX && vstd::math::abs(start as int)
                    <= VAL_LIMIT as int && vstd::math::abs(end as int) <= VAL_LIMIT as int),
            },
    {
        if duration == 0 || duration > MAX_TIME_FX || start < -VAL_LIMIT || start > VAL_LIMIT
            || end < -VAL_LIMIT || end > VAL_LIMIT {
            None
        } else {
            Some(Interval { duration, start, end })
        }
    }

    /// Evaluates the ramp; the result never leaves the interval spanned by
    /// the endpoints.
    pub fn value(&self, t: u64) -> (r: i64)
        requires
            self.wf(),
        ensures
            r == self.value_spec(t as int),
            0 <= t <= self.duration ==> (self.start <= self.end ==> self.start <= r <= self.end)
                && (self.end <= self.start ==> self.end <= r <= self.start),
            vstd::math::abs(r as int) <= VAL_LIMIT as int,
    {
        if t <= self.duration {
            let d: i64 = self.end - self.start;
            proof {
                let dd = d as int;
                let dur = self.duration as int;
                assert(vstd::math::abs(dd) * t <= i64::MAX * dur) by (nonlinear_arith)
                    requires
                        0 <= vstd::math::abs(dd) <= i64::MAX,
                        0 <= t as int <= dur,
                ;
                lemma_scale_bound(dd, t as int, dur);
            }
            let step = mul_i_div_u(d, t, self.duration);
            self.start + step
        } else {
            0
        }
    }
}

/// The total duration of a run of segments.
pub open spec fn total_dur(s: Seq<Interval>) -> int
    decreases s.len(),
{
    if s.len() == 0 {
        0
    } else {
        s[0].duration + total_dur(s.drop_first())
    }
}

/// The value a run of segments takes at time `t`: walk the segments,
/// consuming each one's duration, until the owning segment is found;
/// past the last segment the value is zero.
pub open spec fn env_value_raw(s: Seq<Interval>, t: int) -> int
    decreases s.len(),
{
    if s.len() == 0 {
        0
    } else if t < s[0].duration {
        s[0].value_spec(t)
    } else {
        env_value_raw(s.drop_first(), t - s[0].duration)
    }
}

pub proof fn lemma_total_dur_nonneg(s: Seq<Interval>)
    ensures
        total_dur(s) >= 0,
    decreases s.len(),
{
    if s.len() > 0 {
        lemma_total_dur_nonneg(s.drop_first());
    }
}

/// Stepping one segment forward in a suffix view.
proof fn lemma_skip_step(s: Seq<Interval>, i: int)
    requires
        0 <= i < s.len(),
    ensures
        s.skip(i).len() == s.len() - i,
        s.skip(i)[0] == s[i],
        s.skip(i).drop_first() =~= s.skip(i + 1),
        total_dur(s.skip(i)) == s[i].duration + total_dur(s.skip(i + 1)),
{
    assert(s.skip(i).drop_first() =~= s.skip(i + 1));
}

/// Appending a segment adds its duration to the total.
pub proof fn lemma_total_dur_push(s: Seq<Interval>, iv: Interval)
    ensures
        total_dur(s.push(iv)) == total_dur(s) + iv.duration,
    decreases s.len(),
{
    assert(s.push(iv).len() == s.len() + 1);
    if s.len() == 0 {
        assert(s.push(iv)[0] == iv);
        assert(s.push(iv).drop_first() =~= Seq::<Interval>::empty());
        assert(total_dur(Seq::<Interval>::empty()) == 0);
        assert(total_dur(s.push(iv)) == iv.duration + total_dur(s.push(iv).drop_first()));
        assert(total_dur(s) == 0);
    } else {
        assert(s.push(iv)[0] == s[0]);
        assert(s.push(iv).drop_first() =~= s.drop_first().push(iv));
        lemma_total_dur_push(s.drop_first(), iv);
        assert(total_dur(s.push(iv)) == s[0].duration + total_dur(s.push(iv).drop_first()));
        assert(total_dur(s) == s[0].duration + total_dur(s.drop_first()));
    }
}

/// The duration of a concatenation is the sum of the parts' durations.
pub proof fn lemma_total_dur_concat(s1: Seq<Interval>, s2: Seq<Interval>)
    ensures
        total_dur(s1 + s2) == total_dur(s1) + total_dur(s2),
    decreases s1.len(),
{
    if s1.len() == 0 {
        assert(s1 + s2 =~= s2);
    } else {
        assert((s1 + s2)[0] == s1[0]);
        assert((s1 + s2).drop_first() =~= s1.drop_first() + s2);
        lemma_total_dur_concat(s1.drop_first(), s2);
    }
}

/// A single segment's run lasts exactly that segment's duration.
pub proof fn lemma_total_dur_singleton(iv: Interval)
    ensures
        total_dur(seq![iv]) == iv.duration,
{
    assert(seq![iv].drop_first() =~= Seq::<Interval>::empty());
    assert(seq![iv][0] == iv);
    assert(total_dur(Seq::<Interval>::empty()) == 0);
}

/// The three-stage envelope lasts exactly the sum of its stage widths.
pub proof fn lemma_adsr_total(amp: i64, attack: u64, sustain: u64, decay: u64, punch: i64)
    ensures
        total_dur(adsr_segments(amp, attack, sustain, decay, punch)) == attack + sustain + decay,
{
    let head: Seq<Interval> = if attack > 0 {
        seq![Interval { duration: attack, start: 0, end: amp }]
    } else {
        Seq::empty()
    };
    let mid: Seq<Interval> = if sustain > 0 {
        seq![
            Interval {
                duration: sustain,
                start: sustain_start_spec(amp, punch) as i64,
                end: amp,
            },
        ]
    } else {
        Seq::empty()
    };
    let tail: Seq<Interval> = if decay > 0 {
        seq![Interval { duration: decay, start: amp, end: 0 }]
    } else {
        Seq::empty()
    };
    lemma_total_dur_concat(head + mid, tail);
    lemma_total_dur_concat(head, mid);
    if attack > 0 {
        lemma_total_dur_singleton(head[0]);
    }
    if sustain > 0 {
        lemma_total_dur_singleton(mid[0]);
    }
    if decay > 0 {
        lemma_total_dur_singleton(tail[0]);
    }
}

/// Whether a control point extends the chain: its time must advance and
/// stay on the horizon, and both values must be representable. A pair that
/// fails this is dropped without ending the construction.
pub open spec fn point_accepted(t_prev: u64, v_prev: i64, t: u64, v: i64) -> bool {
    &&& t_prev < t <= MAX_TIME_FX
    &&& vstd::math::abs(v_prev as int) <= VAL_LIMIT as int
    &&& vstd::math::abs(v as int) <= VAL_LIMIT as int
}

/// The segments that chaining successive control points yields, starting
/// from the already-consumed point `(t_prev, v_prev)`.
pub open spec fn chain_points(points: Seq<(u64, i64)>, t_prev: u64, v_prev: i64) -> Seq<Interval>
    decreases points.len(),
{
    if points.len() == 0 {
        Seq::empty()
    } else {
        let t = points[0].0;
        let v = points[0].1;
        if point_accepted(t_prev, v_prev, t, v) {
            seq![Interval { duration: (t - t_prev) as u64, start: v_prev, end: v }] + chain_points(
                points.drop_first(),
                t,
                v,
            )
        } else {
            chain_points(points.drop_first(), t_prev, v_prev)
        }
    }
}

/// The segments an envelope built from explicit control points holds, or
/// nothing when the leading point cannot be represented.
pub open spec fn from_points_spec(points: Seq<(u64, i64)>) -> Option<Seq<Interval>> {
    if points.len() == 0 {
        Some(Seq::empty())
    } else {
        let t0 = points[0].0;
        let v0 = points[0].1;
        if t0 == 0 {
            Some(chain_points(points.drop_first(), 0, v0))
        } else if t0 <= MAX_TIME_FX && vstd::math::abs(v0 as int) <= VAL_LIMIT as int {
            Some(
                seq![Interval { duration: t0, start: 0, end: v0 }] + chain_points(
                    points.drop_first(),
                    t0,
                    v0,
                ),
            )
        } else {
            None
        }
    }
}

/// The starting value of the sustain stage: the peak boosted by the punch
/// fraction.
pub open spec fn sustain_start_spec(amp: i64, punch: i64) -> int {
    amp + div_trunc(amp * punch, FX_ONE as int)
}

/// The segments of an attack / sustain / decay envelope; a stage of zero
/// width is left out.
pub open spec fn adsr_segments(
    amp: i64,
    attack: u64,
    sustain: u64,
    decay: u64,
    punch: i64,
) -> Seq<Interval> {
    let head: Seq<Interval> = if attack > 0 {
        seq![Interval { duration: attack, start: 0, end: amp }]
    } else {
        Seq::empty()
    };
    let mid: Seq<Interval> = if sustain > 0 {
        seq![
            Interval {
                duration: sustain,
                start: sustain_start_spec(amp, punch) as i64,
                end: amp,
            },
        ]
    } else {
        Seq::empty()
    };
    let tail: Seq<Interval> = if decay > 0 {
        seq![Interval { duration: decay, start: amp, end: 0 }]
    } else {
        Seq::empty()
    };
    head + mid + tail
}

/// An amplitude envelope: an ordered run of linear ramps, with an optional
/// vibrato modulator `(depth, frequency)` applied to whatever a ramp yields.
pub struct Envelope {
    pub segments: Vec<Interval>,
    pub vibrato: Option<(u64, u64)>,
}

/// The vibrato parameters the crate can represent: a depth of at most one
/// unit and a frequency within the value range.
pub open spec fn vibrato_ok(vibrato: Option<(u64, u64)>) -> bool {
    match vibrato {
        None => true,
        Some((depth, freq)) => depth <= FX_ONE_U && freq <= VAL_LIMIT as u64,
    }
}

/// The modulation factor `1 - depth * cos(2 pi freq t)`, in fixed point.
/// It always lies in `[0, 2]` units.
pub open spec fn vib_factor_spec(depth: int, freq: int, t: int) -> int {
    FX_ONE - div_trunc(cosine_turn_spec(phase_frac_spec(freq, t)) * depth, FX_ONE as int)
}

impl Envelope {
    pub open spec fn wf(&self) -> bool {
        &&& forall|i: int| 0 <= i < self.segments@.len() ==> (#[trigger] self.segments@[i]).wf()
        &&& total_dur(self.segments@) <= MAX_TIME_FX
        &&& vibrato_ok(self.vibrato)
    }

    /// The envelope's total duration.
    pub open spec fn duration_spec(&self) -> int {
        total_dur(self.segments@)
    }

    /// The envelope's value at time `t`, vibrato included.
    pub open spec fn value_spec(&self, t: int) -> int {
        let raw = env_value_raw(self.segments@, t);
        match self.vibrato {
            None => raw,
            Some((depth, freq)) => div_trunc(
                raw * vib_factor_spec(depth as int, freq as int, t),
                FX_ONE as int,
            ),
        }
    }

    /// Wraps an explicit run of segments; yields nothing when a segment or
    /// the vibrato parameters are out of range, or the total duration
    /// overflows the time horizon.
    pub fn new(segments: Vec<Interval>, vibrato: Option<(u64, u64)>) -> (r: Option<Envelope>)
        ensures
            match r {
                Some(env) => {
                    &&& env.wf()
                    &&& env.segments@ == segments@
                    &&& env.vibrato == vibrato
                },
                None => !((forall|i: int|
                    0 <= i < segments@.len() ==> (#[trigger] segments@[i]).wf()) && total_dur(
                    segments@,
                ) <= MAX_TIME_FX && vibrato_ok(vibrato)),
            },
    {
        if let Some((depth, freq)) = vibrato {
            if depth > FX_ONE_U || freq > VAL_LIMIT as u64 {
                return None;
            }
        }
        let ghost s0 = segments@;
        let mut i: usize = 0;
        let mut sum: u64 = 0;
        proof {
            assert(s0.skip(0) =~= s0);
        }
        while i < segments.len()
            invariant
                i <= s0.len(),
                s0 == segments@,
                vibrato_ok(vibrato),
                sum + total_dur(s0.skip(i as int)) == total_dur(s0),
                sum <= MAX_TIME_FX,
                forall|j: int| 0 <= j < i ==> (#[trigger] s0[j]).wf(),
            decreases s0.len() - i,
        {
            proof {
                lemma_skip_step(s0, i as int);
                lemma_total_dur_nonneg(s0.skip(i as int + 1));
            }
            let seg = &segments[i];
            if seg.duration == 0 || seg.duration > MAX_TIME_FX || seg.start < -VAL_LIMIT
                || seg.start > VAL_LIMIT || seg.end < -VAL_LIMIT || seg.end > VAL_LIMIT {
                return None;
            }
            if sum > MAX_TIME_FX - seg.duration {
                proof {
                    lemma_total_dur_nonneg(s0.skip(i as int + 1));
                }
                return None;
            }
            sum = sum + seg.duration;
            i = i + 1;
        }
        proof {
            assert(s0.skip(s0.len() as int) =~= Seq::<Interval>::empty());
        }
        Some(Envelope { segments, vibrato })
    }

    /// The total duration: the sum of the segment durations.
    pub fn duration(&self) -> (r: u64)
        requires
            self.wf(),
        ensures
            r == self.duration_spec(),
    {
        let ghost s0 = self.segments@;
        let mut i: usize = 0;
        let mut sum: u64 = 0;
        proof {
            assert(s0.skip(0) =~= s0);
            lemma_total_dur_nonneg(s0);
        }
        while i < self.segments.len()
            invariant
                self.wf(),
                i <= s0.len(),
                s0 == self.segments@,
                sum + total_dur(s0.skip(i as int)) == total_dur(s0),
                0 <= sum <= total_dur(s0),
            decreases s0.len() - i,
        {
            proof {
                lemma_skip_step(s0, i as int);
                lemma_total_dur_nonneg(s0.skip(i as int + 1));
            }
            sum = sum + self.segments[i].duration;
            i = i + 1;
        }
        proof {
            assert(s0.skip(s0.len() as int) =~= Seq::<Interval>::empty());
        }
        sum
    }

    /// The envelope's value at time `t`.
    pub fn value(&self, t: u64) -> (r: i64)
        requires
            self.wf(),
        ensures
            r == self.value_spec(t as int),
            vstd::math::abs(r as int) <= VAL2_LIMIT as int,
    {
        let ghost s0 = self.segments@;
        let mut i: usize = 0;
        let mut rem: u64 = t;
        proof {
            assert(s0.skip(0) =~= s0);
        }
        while i < self.segments.len()
            invariant
                self.wf(),
                i <= s0.len(),
                s0 == self.segments@,
                rem <= t,
                t - rem + total_dur(s0.skip(i as int)) == total_dur(s0),
                env_value_raw(s0, t as int) == env_value_raw(s0.skip(i as int), rem as int),
            decreases s0.len() - i,
        {
            proof {
                lemma_skip_step(s0, i as int);
                lemma_total_dur_nonneg(s0.skip(i as int + 1));
            }
            let seg = &self.segments[i];
            if rem < seg.duration {
                let raw = seg.value(rem);
                proof {
                    assert(t < total_dur(s0));
                }
                return self.modulate(raw, t);
            }
            rem = rem - seg.duration;
            i = i + 1;
        }
        proof {
            assert(s0.skip(s0.len() as int) =~= Seq::<Interval>::empty());
            assert(env_value_raw(s0, t as int) == 0);
            if let Some((depth, freq)) = self.vibrato {
                vstd::arithmetic::div_mod::lemma_div_of0(FX_ONE as int);
                assert(0 * vib_factor_spec(depth as int, freq as int, t as int) == 0);
            }
        }
        0
    }

    /// Applies the vibrato factor to a raw segment value.
    fn modulate(&self, raw: i64, t: u64) -> (r: i64)
        requires
            self.wf(),
            t <= MAX_TIME_FX,
            vstd::math::abs(raw as int) <= VAL_LIMIT as int,
        ensures
            r == match self.vibrato {
                None => raw as int,
                Some((depth, freq)) => div_trunc(
                    raw * vib_factor_spec(depth as int, freq as int, t as int),
                    FX_ONE as int,
                ),
            },
            vstd::math::abs(r as int) <= VAL2_LIMIT as int,
    {
        match self.vibrato {
            None => raw,
            Some((depth, freq)) => {
                let p = phase_frac_fx(freq as i64, t);
                let c = cosine_turn(p);
                proof {
                    let cc = c as int;
                    assert(vstd::math::abs(cc) * depth <= i64::MAX * (FX_ONE as int))
                        by (nonlinear_arith)
                        requires
                            0 <= vstd::math::abs(cc) <= FX_ONE as int,
                            0 <= depth as int <= FX_ONE as int,
                    ;
                    lemma_scale_bound(cc, depth as int, FX_ONE as int);
                }
                let dc = mul_i_div_u(c, depth, FX_ONE_U);
                let factor: i64 = FX_ONE - dc;
                proof {
                    let rr = raw as int;
                    let ff = factor as int;
                    assert(vstd::math::abs(rr) * (ff as int) <= i64::MAX * (FX_ONE as int))
                        by (nonlinear_arith)
                        requires
                            0 <= vstd::math::abs(rr) <= VAL_LIMIT as int,
                            0 <= ff <= 2 * FX_ONE as int,
                    ;
                    lemma_abs_mul_le(rr, ff, 2 * FX_ONE as int);
                    lemma_div_trunc_le(rr * ff, FX_ONE as int, 2 * (vstd::math::abs(rr) as int));
                }
                mul_i_div_u(raw, factor as u64, FX_ONE_U)
            },
        }
    }

    /// Builds an envelope by chaining successive control points, prepending
    /// an implicit ramp from zero when the first point starts later than
    /// time zero. A pair of points that spans no time, or a value outside
    /// the representable range, is dropped silently; only an unusable first
    /// point or vibrato refuses construction.
    pub fn from_points(points: Vec<(u64, i64)>, vibrato: Option<(u64, u64)>) -> (r: Option<
        Envelope,
    >)
        ensures
            match r {
                Some(env) => {
                    &&& vibrato_ok(vibrato)
                    &&& from_points_spec(points@) == Some(env.segments@)
                    &&& env.vibrato == vibrato
                    &&& env.wf()
                },
                None => !vibrato_ok(vibrato) || from_points_spec(points@) is None,
            },
    {
        if let Some((depth, freq)) = vibrato {
            if depth > FX_ONE_U || freq > VAL_LIMIT as u64 {
                return None;
            }
        }
        let ghost p0 = points@;
        if points.len() == 0 {
            let segments: Vec<Interval> = Vec::new();
            proof {
                assert(total_dur(segments@) == 0);
            }
            return Some(Envelope { segments, vibrato });
        }
        let t0 = points[0].0;
        let v0 = points[0].1;
        let mut segments: Vec<Interval> = Vec::new();
        if t0 > 0 {
            if t0 > MAX_TIME_FX || v0 < -VAL_LIMIT || v0 > VAL_LIMIT {
                return None;
            }
            segments.push(Interval { duration: t0, start: 0, end: v0 });
            proof {
                lemma_total_dur_push(Seq::<Interval>::empty(), segments@[0]);
            }
        }
        let ghost expected = from_points_spec(p0)->Some_0;
        let mut t_prev: u64 = t0;
        let mut v_prev: i64 = v0;
        let mut i: usize = 1;
        proof {
            assert(p0.skip(1) =~= p0.drop_first());
        }
        while i < points.len()
            invariant
                1 <= i <= p0.len(),
                p0 == points@,
                t_prev <= MAX_TIME_FX,
                total_dur(segments@) == t_prev,
                forall|j: int| 0 <= j < segments@.len() ==> (#[trigger] segments@[j]).wf(),
                expected == segments@ + chain_points(p0.skip(i as int), t_prev, v_prev),
            decreases p0.len() - i,
        {
            let ghost rest = p0.skip(i as int);
            proof {
                assert(rest.drop_first() =~= p0.skip(i as int + 1));
            }
            let t = points[i].0;
            let v = points[i].1;
            if t > t_prev && t <= MAX_TIME_FX && v_prev >= -VAL_LIMIT && v_prev <= VAL_LIMIT && v
                >= -VAL_LIMIT && v <= VAL_LIMIT {
                let iv = Interval { duration: t - t_prev, start: v_prev, end: v };
                proof {
                    lemma_total_dur_push(segments@, iv);
                    assert((segments@ + seq![iv]) + chain_points(p0.skip(i as int + 1), t, v)
                        =~= segments@ + (seq![iv] + chain_points(p0.skip(i as int + 1), t, v)));
                    assert(segments@.push(iv) =~= segments@ + seq![iv]);
                }
                segments.push(iv);
                t_prev = t;
                v_prev = v;
            }
            i = i + 1;
        }
        proof {
            assert(p0.skip(p0.len() as int) =~= Seq::<(u64, i64)>::empty());
            assert(segments@ + Seq::<Interval>::empty() =~= segments@);
        }
        Some(Envelope { segments, vibrato })
    }

    /// Builds the three-stage attack / sustain / decay envelope: the attack
    /// ramps from silence up to the peak, the sustain ramps from the
    /// punch-boosted peak back to it, and the decay ramps down to silence.
    /// Stages of zero width are left out; parameters outside the
    /// representable ranges refuse construction.
    pub fn from_duration(
        amp: i64,
        attack: u64,
        sustain: u64,
        decay: u64,
        sustain_punch: i64,
        vibrato: Option<(u64, u64)>,
    ) -> (r: Option<Envelope>)
        ensures
            match r {
                Some(env) => {
                    &&& vibrato_ok(vibrato)
                    &&& 0 < amp <= AMP_LIMIT
                    &&& 0 <= sustain_punch <= FX_ONE
                    &&& 0 < attack + sustain + decay <= MAX_TIME_FX
                    &&& env.segments@ == adsr_segments(amp, attack, sustain, decay, sustain_punch)
                    &&& env.vibrato == vibrato
                    &&& env.wf()
                },
                None => !(vibrato_ok(vibrato) && 0 < amp <= AMP_LIMIT && 0 <= sustain_punch
                    <= FX_ONE && 0 < attack + sustain + decay <= MAX_TIME_FX),
            },
    {
        if let Some((depth, freq)) = vibrato {
            if depth > FX_ONE_U || freq > VAL_LIMIT as u64 {
                return None;
            }
        }
        if amp <= 0 || amp > AMP_LIMIT || sustain_punch < 0 || sustain_punch > FX_ONE {
            return None;
        }
        if attack == 0 && sustain == 0 && decay == 0 {
            return None;
        }
        if attack > MAX_TIME_FX || sustain > MAX_TIME_FX - attack || decay > MAX_TIME_FX - attack
            - sustain {
            return None;
        }
        let mut segments: Vec<Interval> = Vec::new();
        if attack > 0 {
            segments.push(Interval { duration: attack, start: 0, end: amp });
        }
        if sustain > 0 {
            proof {
                lemma_scale_bound(amp as int, sustain_punch as int, FX_ONE as int);
                assert(vstd::math::abs(amp as int) * (sustain_punch as u64) <= i64::MAX * (
                FX_ONE as int)) by (nonlinear_arith)
                    requires
                        0 < amp <= AMP_LIMIT,
                        0 <= sustain_punch <= FX_ONE,
                ;
            }
            let boost = mul_i_div_u(amp, sustain_punch as u64, FX_ONE_U);
            segments.push(Interval { duration: sustain, start: amp + boost, end: amp });
        }
        if decay > 0 {
            segments.push(Interval { duration: decay, start: amp, end: 0 });
        }
        proof {
            assert(segments@ =~= adsr_segments(amp, attack, sustain, decay, sustain_punch));
            let segs = segments@;
            if segs.len() > 0 {
                lemma_total_dur_push(segs.take(segs.len() - 1), segs.last());
                assert(segs.take(segs.len() - 1).push(segs.last()) =~= segs);
            }
            if segs.len() > 1 {
                lemma_total_dur_push(segs.take(segs.len() - 2), segs[segs.len() - 2]);
                assert(segs.take(segs.len() - 2).push(segs[segs.len() - 2]) =~= segs.take(
                    segs.len() - 1,
                ));
            }
            if segs.len() > 2 {
                lemma_total_dur_push(segs.take(segs.len() - 3), segs[segs.len() - 3]);
                assert(segs.take(segs.len() - 3).push(segs[segs.len() - 3]) =~= segs.take(
                    segs.len() - 2,
                ));
            }
            assert(segs.take(0) =~= Seq::<Interval>::empty());
        }
        Some(Envelope { segments, vibrato })
    }

    /// An envelope that holds one value for the whole representable time
    /// horizon: the crate's stand-in for an unbounded constant parameter.
    pub fn from_constant(value: i64) -> (r: Envelope)
        requires
            vstd::math::abs(value as int) <= VAL_LIMIT as int,
        ensures
            r.wf(),
            r.vibrato is None,
            r.segments@ == seq![Interval { duration: MAX_TIME_FX, start: value, end: value }],
            r.duration_spec() == MAX_TIME_FX,
    {
        let mut segments: Vec<Interval> = Vec::new();
        segments.push(Interval { duration: MAX_TIME_FX, start: value, end: value });
        proof {
            lemma_total_dur_push(Seq::<Interval>::empty(), segments@[0]);
        }
        Envelope { segments, vibrato: None }
    }
}

/// A constant envelope yields its value everywhere on the horizon and zero
/// beyond it.
pub proof fn lemma_const_value(env: Envelope, value: i64, t: int)
    requires
        env.wf(),
        env.vibrato is None,
        env.segments@ == seq![Interval { duration: MAX_TIME_FX, start: value, end: value }],
    ensures
        env.value_spec(t) == if 0 <= t < MAX_TIME_FX {
            value as int
        } else {
            0
        },
{
    let s = env.segments@;
    assert(s.len() == 1);
    assert(s[0] == Interval { duration: MAX_TIME_FX, start: value, end: value });
    assert(env.value_spec(t) == env_value_raw(s, t));
    if 0 <= t < MAX_TIME_FX {
        assert(env_value_raw(s, t) == s[0].value_spec(t));
        assert((value as int - value as int) * t == 0);
        lemma_div_of0(MAX_TIME_FX as int);
        assert(s[0].value_spec(t) == value + div_trunc(0, MAX_TIME_FX as int));
    } else if t >= MAX_TIME_FX {
        assert(s.drop_first() =~= Seq::<Interval>::empty());
        assert(total_dur(Seq::<Interval>::empty()) == 0);
        assert(env_value_raw(s, t) == env_value_raw(s.drop_first(), t - MAX_TIME_FX));
        assert(env_value_raw(Seq::<Interval>::empty(), t - MAX_TIME_FX) == 0);
    } else {
        assert(t < 0);
        assert(env_value_raw(s, t) == s[0].value_spec(t));
        assert(s[0].value_spec(t) == 0);
    }
}

/// An envelope contributes nothing before time zero nor past its total
/// duration.
pub proof fn lemma_value_outside_support(env: Envelope, t: int)
    requires
        env.wf(),
        t < 0 || t > env.duration_spec(),
    ensures
        env.value_spec(t) == 0,
{
    lemma_raw_outside(env.segments@, t);
    if let Some((depth, freq)) = env.vibrato {
        lemma_div_of0(FX_ONE as int);
        assert(0 * vib_factor_spec(depth as int, freq as int, t) == 0);
    }
}

proof fn lemma_raw_outside(s: Seq<Interval>, t: int)
    requires
        forall|i: int| 0 <= i < s.len() ==> (#[trigger] s[i]).wf(),
        t < 0 || t > total_dur(s),
    ensures
        env_value_raw(s, t) == 0,
    decreases s.len(),
{
    if s.len() > 0 {
        lemma_total_dur_nonneg(s.drop_first());
        assert(forall|i: int| 0 <= i < s.drop_first().len() ==> (#[trigger] s.drop_first()[i]).wf())
            by {
            assert(forall|i: int|
                0 <= i < s.drop_first().len() ==> s.drop_first()[i] == s[i + 1]);
        }
        if t < 0 {
            assert(t < s[0].duration);
        } else {
            lemma_raw_outside(s.drop_first(), t - s[0].duration);
        }
    }
}

/// The exact interpolation law at the midpoint: an interval of even
/// duration whose endpoints differ by an even amount evaluates at half its
/// duration to exactly the average of its endpoints.
pub proof fn lemma_interval_midpoint(iv: Interval)
    requires
        iv.wf(),
        iv.duration % 2 == 0,
        (iv.end - iv.start) % 2 == 0,
    ensures
        iv.value_spec(iv.duration as int / 2) == (iv.start + iv.end) / 2,
{
    let d = iv.duration as int;
    let s = iv.start as int;
    let e = iv.end as int;
    let m = d / 2;
    let w = (e - s) / 2;
    lemma_fundamental_div_mod(d, 2);
    lemma_fundamental_div_mod(e - s, 2);
    assert(d == 2 * m);
    assert(e - s == 2 * w);
    assert(0 <= m <= d);
    assert((e - s) * m == w * d) by (nonlinear_arith)
        requires
            d == 2 * m,
            e - s == 2 * w,
    ;
    if w >= 0 {
        lemma_div_by_multiple(w, d);
        assert(div_trunc(w * d, d) == w);
    } else {
        lemma_mul_unary_negation(w, d);
        lemma_div_by_multiple(-w, d);
        assert(div_trunc(w * d, d) == w);
    }
    assert(s + e == 2 * (s + w));
    lemma_div_multiples_vanish(s + w, 2);
}

} // verus!
