use crate::envelope::Envelope;
use crate::fixed::{
    div_trunc, lemma_div_trunc_le, mul_div_u, mul_ii_div_u, FX_ONE, FX_ONE_U, MAX_TIME_FX,
    VAL2_LIMIT,
};
use crate::noise::{NoiseGen, PINK_VAL_BOUND};
use crate::waveform::Waveform;
use crate::Samples;
use vstd::arithmetic::div_mod::{
    lemma_div_by_multiple, lemma_div_is_ordered, lemma_div_pos_is_pos,
    lemma_fundamental_div_mod,
};
use vstd::arithmetic::mul::{lemma_mul_inequality, lemma_mul_nonnegative};
use vstd::prelude::*;

verus! {

/// The elapsed time of sample `k` at the given rate, in fixed point.
pub open spec fn time_of(k: int, sample_rate: int) -> int {
    k * FX_ONE / sample_rate
}

/// Whether sample `k` still falls inside a stream of the given duration:
/// exactly when `k / rate < duration` as exact rationals.
pub open spec fn active_at(k: int, sample_rate: int, duration: int) -> bool {
    k * FX_ONE < duration * sample_rate
}

/// The number of samples a stream of the given duration yields before it
/// exhausts: the least `k` that is no longer active.
pub open spec fn sample_count(sample_rate: int, duration: int) -> int {
    (duration * sample_rate + FX_ONE - 1) / (FX_ONE as int)
}

/// The truncated sample time is on the horizon and the activity test by
/// cross-multiplication agrees with comparing the truncated time against
/// the duration.
pub proof fn lemma_active_iff_time_lt(k: int, sample_rate: int, duration: int)
    requires
        0 <= k,
        0 < sample_rate,
        0 <= duration,
    ensures
        active_at(k, sample_rate, duration) <==> time_of(k, sample_rate) < duration,
{
    let h = FX_ONE as int;
    lemma_mul_nonnegative(k, h);
    lemma_fundamental_div_mod(k * h, sample_rate);
    let q = k * h / sample_rate;
    let r = (k * h) % sample_rate;
    assert(0 <= r < sample_rate);
    if q < duration {
        assert(k * h == sample_rate * q + r);
        assert(k * h < sample_rate * (q + 1)) by (nonlinear_arith)
            requires
                k * h == sample_rate * q + r,
                r < sample_rate,
        ;
        assert(sample_rate * (q + 1) <= sample_rate * duration) by (nonlinear_arith)
            requires
                q + 1 <= duration,
                0 < sample_rate,
        ;
        assert(sample_rate * duration == duration * sample_rate);
    }
    if q >= duration {
        assert(k * h >= sample_rate * q) by (nonlinear_arith)
            requires
                k * h == sample_rate * q + r,
                r >= 0,
        ;
        assert(sample_rate * q >= sample_rate * duration) by (nonlinear_arith)
            requires
                q >= duration,
                0 < sample_rate,
        ;
        assert(sample_rate * duration == duration * sample_rate);
    }
}

/// A stream is active at `k` exactly when `k` lies under the sample count.
pub proof fn lemma_sample_count(k: int, sample_rate: int, duration: int)
    requires
        0 <= k,
        0 < sample_rate,
        0 <= duration,
    ensures
        active_at(k, sample_rate, duration) <==> k < sample_count(sample_rate, duration),
{
    let h = FX_ONE as int;
    let n = sample_count(sample_rate, duration);
    lemma_fundamental_div_mod(duration * sample_rate + h - 1, h);
    let r = (duration * sample_rate + h - 1) % h;
    assert(0 <= r < h);
    assert(duration * sample_rate + h - 1 == h * n + r);
    if k < n {
        assert(k * h < duration * sample_rate) by (nonlinear_arith)
            requires
                k <= n - 1,
                duration * sample_rate + h - 1 == h * n + r,
                0 <= r < h,
                0 < h,
                0 <= k,
        ;
    } else {
        assert(k * h >= duration * sample_rate) by (nonlinear_arith)
            requires
                k >= n,
                duration * sample_rate + h - 1 == h * n + r,
                0 <= r < h,
                0 < h,
        ;
    }
}

/// A deterministic tone stream: a clock, a periodic oscillator and an
/// amplitude envelope, exhausted once the shorter of the oscillator's and
/// the envelope's durations has been consumed.
pub struct Synth {
    pub sample_rate: u32,
    pub k: u64,
    pub duration: u64,
    pub waveform: Waveform,
    pub envelope: Envelope,
}

impl Synth {
    pub open spec fn wf(&self) -> bool {
        &&& self.sample_rate > 0
        &&& self.waveform.wf()
        &&& self.envelope.wf()
        &&& self.duration == vstd::math::min(
            self.waveform.duration_spec(),
            self.envelope.duration_spec(),
        )
        &&& self.k <= sample_count(self.sample_rate as int, self.duration as int)
    }

    /// The sample the stream publishes at index `k`: the oscillator's value
    /// at the sample time, scaled by the amplitude envelope.
    pub open spec fn sample_spec(&self, k: int) -> int {
        let t = time_of(k, self.sample_rate as int);
        div_trunc(self.waveform.value_spec(t) * self.envelope.value_spec(t), FX_ONE as int)
    }

    /// Builds the stream; a zero sample rate is refused.
    pub fn new(sample_rate: u32, waveform: Waveform, envelope: Envelope) -> (r: Option<Synth>)
        requires
            waveform.wf(),
            envelope.wf(),
        ensures
            match r {
                Some(s) => {
                    &&& sample_rate > 0
                    &&& s.wf()
                    &&& s.sample_rate == sample_rate
                    &&& s.k == 0
                    &&& s.waveform == waveform
                    &&& s.envelope == envelope
                    &&& s.duration == vstd::math::min(
                        waveform.duration_spec(),
                        envelope.duration_spec(),
                    )
                },
                None => sample_rate == 0,
            },
    {
        if sample_rate == 0 {
            return None;
        }
        let wd = waveform.duration();
        let ed = envelope.duration();
        let duration: u64 = if wd <= ed {
            wd
        } else {
            ed
        };
        proof {
            crate::envelope::lemma_total_dur_nonneg(envelope.segments@);
            lemma_sample_count(0, sample_rate as int, duration as int);
            lemma_count_nonneg(sample_rate as int, duration as int);
        }
        Some(Synth { sample_rate, k: 0, duration, waveform, envelope })
    }

    /// The stream's total duration.
    pub fn duration(&self) -> (r: u64)
        ensures
            r == self.duration,
    {
        self.duration
    }

    /// Pulls one sample. While the sample clock lies inside the duration
    /// the published sample is exactly the oscillator value scaled by the
    /// envelope; at the boundary the stream exhausts terminally and every
    /// later pull yields nothing and leaves the stream unchanged.
    pub fn next(&mut self) -> (r: Option<i64>)
        requires
            old(self).wf(),
        ensures
            final(self).wf(),
            ({
                let pre = *old(self);
                let post = *final(self);
                if active_at(pre.k as int, pre.sample_rate as int, pre.duration as int) {
                    &&& r is Some && r->Some_0 == pre.sample_spec(pre.k as int)
                    &&& post.k == pre.k + 1
                    &&& post.sample_rate == pre.sample_rate
                    &&& post.duration == pre.duration
                    &&& post.waveform == pre.waveform
                    &&& post.envelope == pre.envelope
                } else {
                    &&& r is None
                    &&& post == pre
                }
            }),
    {
        proof {
            lemma_time_of_bounds(self.k as int, self.sample_rate as int, self.duration as int);
            lemma_active_iff_time_lt(
                self.k as int,
                self.sample_rate as int,
                self.duration as int,
            );
            lemma_count_cap(self.sample_rate as int, self.duration as int);
            lemma_time_cap(self.k as int, self.sample_rate as int, self.duration as int);
        }
        let t = mul_div_u(self.k, FX_ONE_U, self.sample_rate as u64);
        if t >= self.duration {
            return None;
        }
        let w = self.waveform.value(t);
        let e = self.envelope.value(t);
        proof {
            assert(vstd::math::abs(w as int) * vstd::math::abs(e as int) <= i64::MAX * (
            FX_ONE as int)) by (nonlinear_arith)
                requires
                    vstd::math::abs(w as int) <= FX_ONE as int,
                    vstd::math::abs(e as int) <= VAL2_LIMIT as int,
            ;
            lemma_sample_count(
                self.k as int,
                self.sample_rate as int,
                self.duration as int,
            );
            lemma_sample_count(
                self.k as int + 1,
                self.sample_rate as int,
                self.duration as int,
            );
        }
        let sample = mul_ii_div_u(w, e, FX_ONE_U);
        self.k = self.k + 1;
        Some(sample)
    }
}

/// A stochastic stream: a clock, a noise generator and an amplitude
/// envelope, exhausted once the shorter of the generator's and the
/// envelope's durations has been consumed.
pub struct Noise {
    pub sample_rate: u32,
    pub k: u64,
    pub duration: u64,
    pub waveform: NoiseGen,
    pub envelope: Envelope,
}

impl Noise {
    pub open spec fn wf(&self) -> bool {
        &&& self.sample_rate > 0
        &&& self.waveform.wf()
        &&& self.envelope.wf()
        &&& self.duration == vstd::math::min(
            self.waveform.duration_spec(),
            self.envelope.duration_spec(),
        )
        &&& self.k <= sample_count(self.sample_rate as int, self.duration as int)
    }

    /// Builds the stream; a zero sample rate is refused.
    pub fn new(sample_rate: u32, waveform: NoiseGen, envelope: Envelope) -> (r: Option<Noise>)
        requires
            waveform.wf(),
            envelope.wf(),
        ensures
            match r {
                Some(s) => {
                    &&& sample_rate > 0
                    &&& s.wf()
                    &&& s.sample_rate == sample_rate
                    &&& s.k == 0
                    &&& s.waveform == waveform
                    &&& s.envelope == envelope
                    &&& s.duration == vstd::math::min(
                        waveform.duration_spec(),
                        envelope.duration_spec(),
                    )
                },
                None => sample_rate == 0,
            },
    {
        if sample_rate == 0 {
            return None;
        }
        let wd = waveform.duration();
        let ed = envelope.duration();
        let duration: u64 = if wd <= ed {
            wd
        } else {
            ed
        };
        proof {
            crate::envelope::lemma_total_dur_nonneg(envelope.segments@);
            lemma_sample_count(0, sample_rate as int, duration as int);
            lemma_count_nonneg(sample_rate as int, duration as int);
        }
        Some(Noise { sample_rate, k: 0, duration, waveform, envelope })
    }

    /// The stream's total duration.
    pub fn duration(&self) -> (r: u64)
        ensures
            r == self.duration,
    {
        self.duration
    }

    /// Pulls one sample. While the clock lies inside the duration the
    /// generator steps exactly once by its advance relation and the
    /// published sample is exactly the value the step published, scaled by
    /// the envelope; at the boundary the stream exhausts terminally and
    /// the generator is not stepped again.
    pub fn next(&mut self) -> (r: Option<i64>)
        requires
            old(self).wf(),
        ensures
            final(self).wf(),
            ({
                let pre = *old(self);
                let post = *final(self);
                let t = time_of(pre.k as int, pre.sample_rate as int);
                &&& post.sample_rate == pre.sample_rate
                &&& post.duration == pre.duration
                &&& post.envelope == pre.envelope
                &&& post.waveform.freq_env() == pre.waveform.freq_env()
                &&& post.waveform.val_bound() == pre.waveform.val_bound()
                &&& if active_at(pre.k as int, pre.sample_rate as int, pre.duration as int) {
                    &&& post.k == pre.k + 1
                    &&& crate::noise::advance_spec(pre.waveform, post.waveform, t)
                    &&& r is Some
                    &&& r->Some_0 == div_trunc(
                        crate::noise::published_spec(pre.waveform, post.waveform, t)
                            * pre.envelope.value_spec(t),
                        FX_ONE as int,
                    )
                } else {
                    &&& r is None
                    &&& post.k == pre.k
                    &&& post.waveform == pre.waveform
                }
            }),
    {
        proof {
            lemma_time_of_bounds(self.k as int, self.sample_rate as int, self.duration as int);
            lemma_active_iff_time_lt(
                self.k as int,
                self.sample_rate as int,
                self.duration as int,
            );
            lemma_count_cap(self.sample_rate as int, self.duration as int);
            lemma_time_cap(self.k as int, self.sample_rate as int, self.duration as int);
        }
        let t = mul_div_u(self.k, FX_ONE_U, self.sample_rate as u64);
        if t >= self.duration {
            return None;
        }
        let nv = self.waveform.next_value(t);
        let e = self.envelope.value(t);
        proof {
            assert(old(self).waveform.val_bound() == FX_ONE as int || old(
                self,
            ).waveform.val_bound() == PINK_VAL_BOUND as int);
            assert(vstd::math::abs(nv as int) * vstd::math::abs(e as int) <= i64::MAX * (
            FX_ONE as int)) by (nonlinear_arith)
                requires
                    vstd::math::abs(nv as int) <= PINK_VAL_BOUND as int,
                    vstd::math::abs(e as int) <= VAL2_LIMIT as int,
            ;
            lemma_sample_count(
                self.k as int,
                self.sample_rate as int,
                self.duration as int,
            );
            lemma_sample_count(
                self.k as int + 1,
                self.sample_rate as int,
                self.duration as int,
            );
        }
        let sample = mul_ii_div_u(nv, e, FX_ONE_U);
        self.k = self.k + 1;
        Some(sample)
    }
}

impl Synth {
    /// Renders this tone stream to sixteen-bit samples: every entry is
    /// the saturated scaling of the sample the stream publishes there.
    pub fn render_16(self) -> (r: Option<Samples<i16>>)
        requires
            self.wf(),
            self.k == 0,
        ensures
            self.duration == 0 ==> r is None,
            self.duration > 0 ==> r is Some && ({
                let buf = r->Some_0;
                &&& buf.sample_rate == self.sample_rate
                &&& buf.samples@.len() == sample_count(
                    self.sample_rate as int,
                    self.duration as int,
                )
                &&& forall|j: int|
                    0 <= j < buf.samples@.len() ==> buf.samples@[j] == sample_to_i16_spec(
                        #[trigger] self.sample_spec(j),
                    )
            }),
    {
        let mut stream = Stream::Tone(self);
        stream.render_16()
    }
}

impl Noise {
    /// Renders this noise stream to sixteen-bit samples: the buffer is the
    /// saturated scaling of a run the generator chain published.
    pub fn render_16(self) -> (r: Option<Samples<i16>>)
        requires
            self.wf(),
            self.k == 0,
        ensures
            self.duration == 0 ==> r is None,
            self.duration > 0 ==> r is Some && ({
                let buf = r->Some_0;
                &&& buf.sample_rate == self.sample_rate
                &&& buf.samples@.len() == sample_count(
                    self.sample_rate as int,
                    self.duration as int,
                )
                &&& exists|g1: NoiseGen, raw: Seq<i64>|
                    {
                        &&& #[trigger] noise_run_spec(
                            self.waveform,
                            g1,
                            self.envelope,
                            self.sample_rate as int,
                            0,
                            raw,
                        )
                        &&& raw.len() == buf.samples@.len()
                        &&& forall|j: int|
                            0 <= j < raw.len() ==> buf.samples@[j] == sample_to_i16_spec(
                                (#[trigger] raw[j]) as int,
                            )
                    }
            }),
    {
        let mut stream = Stream::Noise(self);
        stream.render_16()
    }
}

/// The sample count never exceeds the time horizon in whole samples.
pub proof fn lemma_count_cap(sample_rate: int, duration: int)
    requires
        0 < sample_rate <= u32::MAX,
        0 <= duration <= MAX_TIME_FX,
    ensures
        sample_count(sample_rate, duration) <= MAX_TIME_FX,
{
    let h = FX_ONE as int;
    lemma_mul_inequality(duration, MAX_TIME_FX as int, sample_rate);
    assert(MAX_TIME_FX as int * sample_rate <= MAX_TIME_FX as int * h) by (nonlinear_arith)
        requires
            0 < sample_rate <= u32::MAX,
            u32::MAX < h,
            0 <= MAX_TIME_FX as int,
    ;
    lemma_div_is_ordered(
        duration * sample_rate + h - 1,
        MAX_TIME_FX as int * h + h - 1,
        h,
    );
    lemma_fundamental_div_mod(MAX_TIME_FX as int * h + h - 1, h);
    assert((MAX_TIME_FX as int * h + h - 1) / h == MAX_TIME_FX as int) by {
        vstd::arithmetic::div_mod::lemma_fundamental_div_mod_converse(
            MAX_TIME_FX as int * h + h - 1,
            h,
            MAX_TIME_FX as int,
            h - 1,
        );
    }
}

/// Any index at or under the sample count maps to a truncated time within
/// one unit past the duration.
pub proof fn lemma_time_cap(k: int, sample_rate: int, duration: int)
    requires
        0 <= k <= sample_count(sample_rate, duration),
        0 < sample_rate,
        0 <= duration,
    ensures
        time_of(k, sample_rate) <= duration + FX_ONE,
{
    let h = FX_ONE as int;
    let n = sample_count(sample_rate, duration);
    lemma_mul_inequality(k, n, h);
    lemma_fundamental_div_mod(duration * sample_rate + h - 1, h);
    assert(n * h <= duration * sample_rate + h - 1) by (nonlinear_arith)
        requires
            duration * sample_rate + h - 1 == h * n + ((duration * sample_rate + h - 1) % h),
            (duration * sample_rate + h - 1) % h >= 0,
    ;
    lemma_div_is_ordered(k * h, duration * sample_rate + h - 1, sample_rate);
    assert(duration * sample_rate + h - 1 <= (duration + h) * sample_rate) by (nonlinear_arith)
        requires
            0 < sample_rate,
            0 < h,
    ;
    lemma_div_is_ordered(
        duration * sample_rate + h - 1,
        (duration + h) * sample_rate,
        sample_rate,
    );
    lemma_div_by_multiple(duration + h, sample_rate);
}

/// The sample count is never negative.
pub proof fn lemma_count_nonneg(sample_rate: int, duration: int)
    requires
        0 < sample_rate,
        0 <= duration,
    ensures
        sample_count(sample_rate, duration) >= 0,
{
    lemma_mul_nonnegative(duration, sample_rate);
    lemma_div_pos_is_pos(duration * sample_rate + FX_ONE - 1, FX_ONE as int);
}

/// The truncated sample time of an active index stays on the horizon.
pub proof fn lemma_time_of_bounds(k: int, sample_rate: int, duration: int)
    requires
        0 <= k,
        0 < sample_rate,
        0 <= duration <= MAX_TIME_FX,
    ensures
        time_of(k, sample_rate) >= 0,
        active_at(k, sample_rate, duration) ==> time_of(k, sample_rate) < duration,
        k * FX_ONE / (sample_rate as int) <= u64::MAX ==> time_of(k, sample_rate)
            == k * FX_ONE / (sample_rate as int),
{
    let h = FX_ONE as int;
    lemma_mul_nonnegative(k, h);
    lemma_div_pos_is_pos(k * h, sample_rate);
    lemma_active_iff_time_lt(k, sample_rate, duration);
}

/// The stream a configuration builds: a deterministic tone or a noise
/// process, pulled sample by sample until exhaustion.
pub enum Stream {
    Tone(Synth),
    Noise(Noise),
}

impl Stream {
    pub open spec fn wf(&self) -> bool {
        match self {
            Stream::Tone(s) => s.wf(),
            Stream::Noise(n) => n.wf(),
        }
    }

    pub open spec fn duration_spec(&self) -> int {
        match self {
            Stream::Tone(s) => s.duration as int,
            Stream::Noise(n) => n.duration as int,
        }
    }

    pub open spec fn sample_rate_spec(&self) -> int {
        match self {
            Stream::Tone(s) => s.sample_rate as int,
            Stream::Noise(n) => n.sample_rate as int,
        }
    }

    pub open spec fn clock_spec(&self) -> int {
        match self {
            Stream::Tone(s) => s.k as int,
            Stream::Noise(n) => n.k as int,
        }
    }

    /// The amplitude envelope the stream scales its generator by.
    pub open spec fn amp_env(&self) -> Envelope {
        match self {
            Stream::Tone(s) => s.envelope,
            Stream::Noise(n) => n.envelope,
        }
    }

    /// The stream's total duration.
    pub fn duration(&self) -> (r: u64)
        ensures
            r == self.duration_spec(),
    {
        match self {
            Stream::Tone(s) => s.duration(),
            Stream::Noise(n) => n.duration(),
        }
    }

    /// Pulls one sample: a value while the clock lies inside the duration,
    /// nothing once the stream has exhausted; exhaustion is terminal. A
    /// tone's sample is pinned exactly; a noise sample is the envelope
    /// scaling some value within the generator's proven bound.
    pub fn next(&mut self) -> (r: Option<i64>)
        requires
            old(self).wf(),
        ensures
            final(self).wf(),
            (*old(self)) is Tone <==> (*final(self)) is Tone,
            final(self).duration_spec() == old(self).duration_spec(),
            final(self).sample_rate_spec() == old(self).sample_rate_spec(),
            ({
                let pre = *old(self);
                let post = *final(self);
                if active_at(pre.clock_spec(), pre.sample_rate_spec(), pre.duration_spec()) {
                    &&& r is Some
                    &&& post.clock_spec() == pre.clock_spec() + 1
                } else {
                    &&& r is None
                    &&& post.clock_spec() == pre.clock_spec()
                }
            }),
            ({
                let pre = *old(self);
                pre matches Stream::Tone(sy) ==> {
                    &&& (*final(self)) matches Stream::Tone(sy2)
                    &&& (active_at(sy.k as int, sy.sample_rate as int, sy.duration as int) ==> r
                        is Some && r->Some_0 == sy.sample_spec(sy.k as int) && sy2.k == sy.k + 1
                        && sy2.sample_rate == sy.sample_rate && sy2.duration == sy.duration
                        && sy2.waveform == sy.waveform && sy2.envelope == sy.envelope)
                    &&& (!active_at(sy.k as int, sy.sample_rate as int, sy.duration as int)
                        ==> (*final(self)) == pre)
                }
            }),
            ({
                let pre = *old(self);
                pre matches Stream::Noise(nz) ==> {
                    &&& (*final(self)) matches Stream::Noise(nz2)
                    &&& (active_at(nz.k as int, nz.sample_rate as int, nz.duration as int) ==> ({
                        let t = time_of(nz.k as int, nz.sample_rate as int);
                        &&& nz2.k == nz.k + 1
                        &&& nz2.sample_rate == nz.sample_rate
                        &&& nz2.duration == nz.duration
                        &&& nz2.envelope == nz.envelope
                        &&& crate::noise::advance_spec(nz.waveform, nz2.waveform, t)
                        &&& r is Some
                        &&& r->Some_0 == div_trunc(
                            crate::noise::published_spec(nz.waveform, nz2.waveform, t)
                                * nz.envelope.value_spec(t),
                            FX_ONE as int,
                        )
                    }))
                    &&& (!active_at(nz.k as int, nz.sample_rate as int, nz.duration as int)
                        ==> (*final(self)) == pre)
                }
            }),
    {
        match self {
            Stream::Tone(s) => s.next(),
            Stream::Noise(n) => n.next(),
        }
    }

    /// Renders the whole stream into a buffer: one pull per active index,
    /// so the buffer holds exactly every sample the stream yields before
    /// it exhausts, and the stream comes back exhausted. A stream of no
    /// duration yields nothing.
    pub fn render(&mut self) -> (r: Option<Samples<i64>>)
        requires
            old(self).wf(),
            old(self).clock_spec() == 0,
        ensures
            final(self).wf(),
            old(self).duration_spec() == 0 ==> r is None && *final(self) == *old(self),
            old(self).duration_spec() > 0 ==> r is Some && ({
                let buf = r->Some_0;
                let pre = *old(self);
                &&& buf.sample_rate == pre.sample_rate_spec()
                &&& buf.samples@.len() == sample_count(
                    pre.sample_rate_spec(),
                    pre.duration_spec(),
                )
                &&& (*final(self)).clock_spec() == sample_count(
                    pre.sample_rate_spec(),
                    pre.duration_spec(),
                )
                &&& (pre matches Stream::Tone(sy) ==> forall|j: int|
                    0 <= j < buf.samples@.len() ==> buf.samples@[j] == #[trigger] sy.sample_spec(
                        j,
                    ))
                &&& (pre matches Stream::Noise(nz) ==> (*final(self)) matches Stream::Noise(nz2)
                    && noise_run_spec(
                    nz.waveform,
                    nz2.waveform,
                    nz.envelope,
                    nz.sample_rate as int,
                    0,
                    buf.samples@,
                ))
            }),
    {
        let duration = self.duration();
        if duration == 0 {
            return None;
        }
        let sample_rate: u32 = match self {
            Stream::Tone(s) => s.sample_rate,
            Stream::Noise(n) => n.sample_rate,
        };
        proof {
            lemma_count_cap(sample_rate as int, duration as int);
            lemma_count_nonneg(sample_rate as int, duration as int);
        }
        let num: u128 = (duration as u128) * (sample_rate as u128) + (FX_ONE_U as u128) - 1;
        let len: u64 = (num / (FX_ONE_U as u128)) as u64;
        let ghost pre = *self;
        let mut samples: Vec<i64> = Vec::new();
        let mut i: u64 = 0;
        while i < len
            invariant
                self.wf(),
                i <= len,
                samples@.len() == i,
                len == sample_count(pre.sample_rate_spec(), pre.duration_spec()),
                self.clock_spec() == i,
                self.duration_spec() == pre.duration_spec(),
                self.sample_rate_spec() == pre.sample_rate_spec(),
                pre is Tone <==> (*self) is Tone,
                pre matches Stream::Tone(sy) ==> (*self) matches Stream::Tone(sy2) && sy2.k
                    == i && sy2.sample_rate == sy.sample_rate && sy2.duration == sy.duration
                    && sy2.waveform == sy.waveform && sy2.envelope == sy.envelope,
                pre matches Stream::Tone(sy) ==> forall|j: int|
                    0 <= j < i ==> samples@[j] == #[trigger] sy.sample_spec(j),
                pre matches Stream::Noise(nz) ==> (*self) matches Stream::Noise(nzc) && nzc.k
                    == i && nzc.sample_rate == nz.sample_rate && nzc.duration == nz.duration
                    && nzc.envelope == nz.envelope && noise_run_spec(
                    nz.waveform,
                    nzc.waveform,
                    nz.envelope,
                    nz.sample_rate as int,
                    0,
                    samples@,
                ),
            decreases len - i,
        {
            proof {
                lemma_sample_count(i as int, pre.sample_rate_spec(), pre.duration_spec());
            }
            let ghost mid = *self;
            let v = match self.next() {
                Some(v) => v,
                None => 0,
            };
            let ghost cur = *self;
            proof {
                if let Stream::Noise(nz) = pre {
                    if let Stream::Noise(nzm) = mid {
                        if let Stream::Noise(nzc) = cur {
                            lemma_noise_run_push(
                                nz.waveform,
                                nzm.waveform,
                                nzc.waveform,
                                nz.envelope,
                                nz.sample_rate as int,
                                0,
                                samples@,
                                v,
                            );
                        }
                    }
                }
            }
            samples.push(v);
            i = i + 1;
        }
        Some(Samples { sample_rate, samples })
    }
}

/// A fixed-point sample scaled to the signed sixteen-bit range, saturated
/// at the extremes.
pub open spec fn sample_to_i16_spec(s: int) -> int {
    crate::fixed::clamp_spec(div_trunc(s * 32767, FX_ONE as int), -32767, 32767)
}

/// Scales one fixed-point sample to the sixteen-bit output range.
pub fn sample_to_i16(s: i64) -> (r: i16)
    ensures
        r == sample_to_i16_spec(s as int),
{
    if s == i64::MIN {
        proof {
            lemma_div_by_multiple(32768, FX_ONE as int);
            lemma_div_is_ordered(32768 * (FX_ONE as int), -(i64::MIN * 32767), FX_ONE as int);
        }
        return -32767;
    }
    proof {
        crate::fixed::lemma_abs_mul_le(s as int, 32767, FX_ONE as int);
        lemma_div_trunc_le(s * 32767, FX_ONE as int, vstd::math::abs(s as int) as int);
        assert(vstd::math::abs(s as int) * (32767 as u64) <= i64::MAX * (FX_ONE as int))
            by (nonlinear_arith)
            requires
                vstd::math::abs(s as int) <= i64::MAX,
        ;
    }
    let q = crate::fixed::mul_i_div_u(s, 32767, FX_ONE_U);
    if q < -32767 {
        -32767
    } else if q > 32767 {
        32767
    } else {
        q as i16
    }
}

impl Stream {
    /// Renders the whole stream to sixteen-bit samples, every entry the
    /// saturated scaling of the fixed-point buffer's entry.
    pub fn render_16(&mut self) -> (r: Option<Samples<i16>>)
        requires
            old(self).wf(),
            old(self).clock_spec() == 0,
        ensures
            final(self).wf(),
            old(self).duration_spec() == 0 ==> r is None,
            old(self).duration_spec() > 0 ==> r is Some && ({
                let buf = r->Some_0;
                let pre = *old(self);
                &&& buf.sample_rate == pre.sample_rate_spec()
                &&& buf.samples@.len() == sample_count(
                    pre.sample_rate_spec(),
                    pre.duration_spec(),
                )
                &&& (pre matches Stream::Tone(sy) ==> forall|j: int|
                    0 <= j < buf.samples@.len() ==> buf.samples@[j] == sample_to_i16_spec(
                        #[trigger] sy.sample_spec(j),
                    ))
                &&& (pre matches Stream::Noise(nz) ==> (*final(self)) matches Stream::Noise(nz2)
                    && exists|raw: Seq<i64>|
                    {
                        &&& #[trigger] noise_run_spec(
                            nz.waveform,
                            nz2.waveform,
                            nz.envelope,
                            nz.sample_rate as int,
                            0,
                            raw,
                        )
                        &&& raw.len() == buf.samples@.len()
                        &&& forall|j: int|
                            0 <= j < raw.len() ==> buf.samples@[j] == sample_to_i16_spec(
                                (#[trigger] raw[j]) as int,
                            )
                    })
            }),
    {
        let ghost pre = *old(self);
        let rendered = match self.render() {
            Some(buf) => buf,
            None => {
                return None;
            },
        };
        let mut out: Vec<i16> = Vec::new();
        let mut i: usize = 0;
        while i < rendered.samples.len()
            invariant
                i <= rendered.samples@.len(),
                out@.len() == i,
                forall|j: int|
                    0 <= j < i ==> out@[j] == sample_to_i16_spec((#[trigger] rendered.samples@[j]) as int),
            decreases rendered.samples@.len() - i,
        {
            let v = sample_to_i16(rendered.samples[i]);
            out.push(v);
            i = i + 1;
        }
        let ghost cur = *self;
        proof {
            if let Stream::Noise(nz) = pre {
                if let Stream::Noise(nz2) = cur {
                    assert(noise_run_spec(
                        nz.waveform,
                        nz2.waveform,
                        nz.envelope,
                        nz.sample_rate as int,
                        0,
                        rendered.samples@,
                    ));
                }
            }
        }
        Some(Samples { sample_rate: rendered.sample_rate, samples: out })
    }
}

/// Whether `samples` is a run the noise generator chain published from
/// state `g0`, sample index `k0` onward, ending in state `g1`: each entry
/// is the envelope scaling of the value one advance step of the generator
/// published, and the steps chain in order.
pub open spec fn noise_run_spec(
    g0: NoiseGen,
    g1: NoiseGen,
    env: Envelope,
    sample_rate: int,
    k0: int,
    samples: Seq<i64>,
) -> bool
    decreases samples.len(),
{
    if samples.len() == 0 {
        g1 == g0
    } else {
        exists|gm: NoiseGen|
            {
                &&& #[trigger] crate::noise::advance_spec(g0, gm, time_of(k0, sample_rate))
                &&& samples[0] == div_trunc(
                    crate::noise::published_spec(g0, gm, time_of(k0, sample_rate))
                        * env.value_spec(time_of(k0, sample_rate)),
                    FX_ONE as int,
                )
                &&& noise_run_spec(gm, g1, env, sample_rate, k0 + 1, samples.drop_first())
            }
    }
}

/// Extending a published run by one more step keeps it a run.
proof fn lemma_noise_run_push(
    g0: NoiseGen,
    g1: NoiseGen,
    g2: NoiseGen,
    env: Envelope,
    sample_rate: int,
    k0: int,
    samples: Seq<i64>,
    v: i64,
)
    requires
        noise_run_spec(g0, g1, env, sample_rate, k0, samples),
        crate::noise::advance_spec(g1, g2, time_of(k0 + samples.len(), sample_rate)),
        v == div_trunc(
            crate::noise::published_spec(g1, g2, time_of(k0 + samples.len(), sample_rate))
                * env.value_spec(time_of(k0 + samples.len(), sample_rate)),
            FX_ONE as int,
        ),
    ensures
        noise_run_spec(g0, g2, env, sample_rate, k0, samples.push(v)),
    decreases samples.len(),
{
    assert(samples.push(v).len() == samples.len() + 1);
    if samples.len() == 0 {
        assert(samples.push(v)[0] == v);
        assert(samples.push(v).drop_first() =~= Seq::<i64>::empty());
        assert(noise_run_spec(g2, g2, env, sample_rate, k0 + 1, samples.push(v).drop_first()));
        assert(crate::noise::advance_spec(g0, g2, time_of(k0, sample_rate)));
    } else {
        let gm = choose|gm: NoiseGen|
            {
                &&& #[trigger] crate::noise::advance_spec(g0, gm, time_of(k0, sample_rate))
                &&& samples[0] == div_trunc(
                    crate::noise::published_spec(g0, gm, time_of(k0, sample_rate))
                        * env.value_spec(time_of(k0, sample_rate)),
                    FX_ONE as int,
                )
                &&& noise_run_spec(gm, g1, env, sample_rate, k0 + 1, samples.drop_first())
            };
        assert(samples.drop_first().len() == samples.len() - 1);
        lemma_noise_run_push(
            gm,
            g1,
            g2,
            env,
            sample_rate,
            k0 + 1,
            samples.drop_first(),
            v,
        );
        assert(samples.push(v)[0] == samples[0]);
        assert(samples.push(v).drop_first() =~= samples.drop_first().push(v));
    }
}

/// The waveform part of a tone's sample is a pure function of the sample
/// index, the rate and the constant frequency: at every active index the
/// stream's sample is exactly the library sine of the accumulated phase
/// `f * t`, scaled by the envelope.
pub proof fn lemma_sine_determinism(s: Synth, f: i64, k: int)
    requires
        s.wf(),
        s.waveform matches Waveform::Sine(w) && crate::waveform::constant_env(w.freq, f),
        vstd::math::abs(f as int) <= crate::fixed::VAL_LIMIT as int,
        0 <= k,
        active_at(k, s.sample_rate as int, s.duration as int),
    ensures
        ({
            let t = time_of(k, s.sample_rate as int);
            s.sample_spec(k) == div_trunc(
                crate::trig::sine_turn_spec(crate::fixed::phase_frac_spec(f as int, t))
                    * s.envelope.value_spec(t),
                FX_ONE as int,
            )
        }),
{
    let t = time_of(k, s.sample_rate as int);
    lemma_time_of_bounds(k, s.sample_rate as int, s.duration as int);
    lemma_active_iff_time_lt(k, s.sample_rate as int, s.duration as int);
    if let Waveform::Sine(w) = s.waveform {
        crate::envelope::lemma_const_value(w.freq, f, t);
        assert(s.duration as int <= w.freq.duration_spec());
        assert(w.freq.duration_spec() == MAX_TIME_FX) by {
            assert(w.freq.segments@.len() == 1);
            assert(w.freq.segments@[0] == (crate::envelope::Interval {
                duration: MAX_TIME_FX,
                start: f,
                end: f,
            }));
            assert(w.freq.segments@.drop_first() =~= Seq::<crate::envelope::Interval>::empty());
            assert(crate::envelope::total_dur(Seq::<crate::envelope::Interval>::empty()) == 0);
        }
        assert(0 <= t < MAX_TIME_FX);
        assert(w.freq.value_spec(t) == f as int);
    }
}

} // verus!
