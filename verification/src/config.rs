use crate::envelope::{adsr_segments, Envelope};
use crate::fixed::VAL_LIMIT;
use crate::noise::{BrownNoise, NoiseGen, PinkNoise, WhiteNoise, DEFAULT_ROLLOFF};
use crate::synth::{Noise, Stream, Synth};
use crate::waveform::{
    constant_env, Breaker, Sawtooth, Sine, Square, Tangent, Triangle, Waveform, TANGENT_CUTOFF,
};
use vstd::prelude::*;

verus! {

/// The cap on one envelope stage, a quarter of the time horizon, so that
/// three stages always fit it together.
pub const MAX_STAGE_FX: u64 = 1125899906842624;

/// One hundred percent, in fixed point.
pub const PCT_100: i64 = 429496729600;

/// The largest representable amplification percentage.
pub const PCT_LIMIT: i64 = 3602879701896396800;

/// The waveform a configuration selects; a square wave carries its duty
/// cycle percentage.
#[derive(Clone, Copy, PartialEq, Eq, Structural, Debug)]
pub enum WaveformType {
    Sine,
    Triangle,
    Sawtooth,
    Breaker,
    Tangent,
    Square { square_duty: i64 },
    WhiteNoise,
    PinkNoise,
    BrownNoise,
}

/// Whether `stream` is exactly the stream the tag selects around the
/// frequency envelope `freq` and the amplitude envelope `env`: the
/// matching oscillator or generator variant, carrying those envelopes,
/// the tag's own parameters, and a fresh (quiet) generator state.
pub open spec fn selects_env_spec(
    tag: WaveformType,
    stream: Stream,
    freq: Envelope,
    env: Envelope,
) -> bool {
    match tag {
        WaveformType::Sine => {
            &&& stream matches Stream::Tone(sy)
            &&& sy.envelope == env
            &&& sy.waveform matches Waveform::Sine(w)
            &&& w.freq == freq
        },
        WaveformType::Triangle => {
            &&& stream matches Stream::Tone(sy)
            &&& sy.envelope == env
            &&& sy.waveform matches Waveform::Triangle(w)
            &&& w.freq == freq
        },
        WaveformType::Sawtooth => {
            &&& stream matches Stream::Tone(sy)
            &&& sy.envelope == env
            &&& sy.waveform matches Waveform::Sawtooth(w)
            &&& w.freq == freq
        },
        WaveformType::Breaker => {
            &&& stream matches Stream::Tone(sy)
            &&& sy.envelope == env
            &&& sy.waveform matches Waveform::Breaker(w)
            &&& w.freq == freq
        },
        WaveformType::Tangent => {
            &&& stream matches Stream::Tone(sy)
            &&& sy.envelope == env
            &&& sy.waveform matches Waveform::Tangent(w)
            &&& w.freq == freq
            &&& w.cutoff == TANGENT_CUTOFF
        },
        WaveformType::Square { square_duty } => {
            &&& stream matches Stream::Tone(sy)
            &&& sy.envelope == env
            &&& sy.waveform matches Waveform::Square(w)
            &&& w.freq == freq
            &&& constant_env(w.square_duty, (square_duty / 100) as i64)
        },
        WaveformType::WhiteNoise => {
            &&& stream matches Stream::Noise(nz)
            &&& nz.envelope == env
            &&& nz.waveform matches NoiseGen::White(n)
            &&& n.freq == freq
            &&& n.prev_phase == 0 && n.prev_random == 0 && n.curr_random == 0
        },
        WaveformType::PinkNoise => {
            &&& stream matches Stream::Noise(nz)
            &&& nz.envelope == env
            &&& nz.waveform matches NoiseGen::Pink(n)
            &&& n.freq == freq
            &&& n.prev_phase == 0 && n.prev_random == 0 && n.curr_random == 0
            &&& n.b0 == 0 && n.b1 == 0 && n.b2 == 0 && n.b3 == 0 && n.b4 == 0 && n.b5 == 0
                && n.b6 == 0
        },
        WaveformType::BrownNoise => {
            &&& stream matches Stream::Noise(nz)
            &&& nz.envelope == env
            &&& nz.waveform matches NoiseGen::Brown(n)
            &&& n.freq == freq
            &&& n.rolloff == DEFAULT_ROLLOFF
            &&& n.prev_phase == 0 && n.prev_random == 0 && n.curr_random == 0
        },
    }
}

impl WaveformType {
    /// Builds the stream this tag selects, around the given clock rate,
    /// frequency envelope and amplitude envelope; the noise variants seed
    /// their generator from `seed`. A zero sample rate is refused. The
    /// stream lasts the shorter of the two envelopes' durations.
    #[verifier::rlimit(60)]
    #[verifier::spinoff_prover]
    pub fn build(self, sample_rate: u32, freq: Envelope, envelope: Envelope, seed: u64) -> (r:
        Option<Stream>)
        requires
            freq.wf(),
            envelope.wf(),
            self matches WaveformType::Square { square_duty } ==> 0 <= square_duty <= PCT_LIMIT,
        ensures
            match r {
                Some(stream) => {
                    &&& sample_rate > 0
                    &&& stream.wf()
                    &&& stream.clock_spec() == 0
                    &&& stream.sample_rate_spec() == sample_rate
                    &&& stream.duration_spec() == vstd::math::min(
                        freq.duration_spec(),
                        envelope.duration_spec(),
                    )
                    &&& stream.amp_env() == envelope
                    &&& selects_env_spec(self, stream, freq, envelope)
                    &&& ((stream is Noise) <==> (self is WhiteNoise || self is PinkNoise
                        || self is BrownNoise))
                },
                None => sample_rate == 0,
            },
    {
        if sample_rate == 0 {
            return None;
        }
        match self {
            WaveformType::Sine => {
                let s = Synth::new(sample_rate, Waveform::Sine(Sine::new(freq)), envelope);
                Some(Stream::Tone(s.unwrap()))
            },
            WaveformType::Triangle => {
                let s = Synth::new(
                    sample_rate,
                    Waveform::Triangle(Triangle::new(freq)),
                    envelope,
                );
                Some(Stream::Tone(s.unwrap()))
            },
            WaveformType::Sawtooth => {
                let s = Synth::new(
                    sample_rate,
                    Waveform::Sawtooth(Sawtooth::new(freq)),
                    envelope,
                );
                Some(Stream::Tone(s.unwrap()))
            },
            WaveformType::Breaker => {
                let s = Synth::new(sample_rate, Waveform::Breaker(Breaker::new(freq)), envelope);
                Some(Stream::Tone(s.unwrap()))
            },
            WaveformType::Tangent => {
                let s = Synth::new(
                    sample_rate,
                    Waveform::Tangent(Tangent::default(freq)),
                    envelope,
                );
                Some(Stream::Tone(s.unwrap()))
            },
            WaveformType::Square { square_duty } => {
                let duty = Envelope::from_constant(square_duty / 100);
                let s = Synth::new(
                    sample_rate,
                    Waveform::Square(Square::new(freq, duty)),
                    envelope,
                );
                Some(Stream::Tone(s.unwrap()))
            },
            WaveformType::WhiteNoise => {
                let gen = NoiseGen::White(WhiteNoise::new(freq, seed));
                let s = Noise::new(sample_rate, gen, envelope);
                Some(Stream::Noise(s.unwrap()))
            },
            WaveformType::PinkNoise => {
                let gen = NoiseGen::Pink(PinkNoise::new(freq, seed));
                let s = Noise::new(sample_rate, gen, envelope);
                Some(Stream::Noise(s.unwrap()))
            },
            WaveformType::BrownNoise => {
                let gen = NoiseGen::Brown(BrownNoise::default(freq, seed));
                let s = Noise::new(sample_rate, gen, envelope);
                Some(Stream::Noise(s.unwrap()))
            },
        }
    }
}

/// One reason a configuration was rejected. Every applicable reason is
/// collected before any stream is built.
#[derive(Clone, Copy, PartialEq, Eq, Structural, Debug)]
pub enum ValidationIssue {
    Version,
    SampleRate,
    Attack,
    Sustain,
    Decay,
    SustainPunch,
    Amplification,
    Frequency,
    SquareDuty,
    Duration,
    AmplificationZero,
}

impl ValidationIssue {
    /// A human-readable account of the reason.
    pub fn message(&self) -> (r: String)
        ensures
            r@ == self.message_spec(),
    {
        match self {
            ValidationIssue::Version => String::from_str("JFXR version mismatch"),
            ValidationIssue::SampleRate => String::from_str("'sample_rate' must be at least 1"),
            ValidationIssue::Attack => String::from_str("'attack' must be a duration in range"),
            ValidationIssue::Sustain => String::from_str("'sustain' must be a duration in range"),
            ValidationIssue::Decay => String::from_str("'decay' must be a duration in range"),
            ValidationIssue::SustainPunch => String::from_str(
                "'sustain_punch' must be a percentage value between 0 and 100",
            ),
            ValidationIssue::Amplification => String::from_str(
                "'amplification' must be a percentage value in range",
            ),
            ValidationIssue::Frequency => String::from_str("'frequency' must be in range"),
            ValidationIssue::SquareDuty => String::from_str(
                "'square_duty' must be a percentage value between 0 and 100",
            ),
            ValidationIssue::Duration => String::from_str(
                "Sound duration must be positive; consider setting 'attack', 'sustain' and/or 'decay' values.",
            ),
            ValidationIssue::AmplificationZero => String::from_str(
                "'amplification' must be positive",
            ),
        }
    }

    pub open spec fn message_spec(&self) -> Seq<char> {
        match self {
            ValidationIssue::Version => "JFXR version mismatch"@,
            ValidationIssue::SampleRate => "'sample_rate' must be at least 1"@,
            ValidationIssue::Attack => "'attack' must be a duration in range"@,
            ValidationIssue::Sustain => "'sustain' must be a duration in range"@,
            ValidationIssue::Decay => "'decay' must be a duration in range"@,
            ValidationIssue::SustainPunch => "'sustain_punch' must be a percentage value between 0 and 100"@,
            ValidationIssue::Amplification => "'amplification' must be a percentage value in range"@,
            ValidationIssue::Frequency => "'frequency' must be in range"@,
            ValidationIssue::SquareDuty => "'square_duty' must be a percentage value between 0 and 100"@,
            ValidationIssue::Duration => "Sound duration must be positive; consider setting 'attack', 'sustain' and/or 'decay' values."@,
            ValidationIssue::AmplificationZero => "'amplification' must be positive"@,
        }
    }
}

/// A validated parametric description of one sound effect. Times are
/// fixed-point seconds; `sustain_punch` and `amplification` are
/// fixed-point percentages; `frequency` is fixed-point hertz.
pub struct Description {
    pub fxr_version: i32,
    pub fxr_name: String,
    pub sample_rate: u32,
    pub attack: i64,
    pub sustain: i64,
    pub decay: i64,
    pub sustain_punch: i64,
    pub amplification: i64,
    pub frequency: i64,
    pub waveform: WaveformType,
}

/// Whether one rejection reason applies to a description.
pub open spec fn issue_applies(d: Description, iss: ValidationIssue) -> bool {
    match iss {
        ValidationIssue::Version => d.fxr_version != 1,
        ValidationIssue::SampleRate => d.sample_rate < 1,
        ValidationIssue::Attack => !(0 <= d.attack <= MAX_STAGE_FX),
        ValidationIssue::Sustain => !(0 <= d.sustain <= MAX_STAGE_FX),
        ValidationIssue::Decay => !(0 <= d.decay <= MAX_STAGE_FX),
        ValidationIssue::SustainPunch => !(0 <= d.sustain_punch <= PCT_100),
        ValidationIssue::Amplification => !(0 <= d.amplification <= PCT_LIMIT),
        ValidationIssue::Frequency => !(0 <= d.frequency <= VAL_LIMIT),
        ValidationIssue::SquareDuty => d.waveform matches WaveformType::Square { square_duty }
            && !(0 <= square_duty <= PCT_100),
        ValidationIssue::Duration => d.attack == 0 && d.sustain == 0 && d.decay == 0,
        ValidationIssue::AmplificationZero => d.amplification >= 0 && d.amplification / 100
            == 0,
    }
}

/// Whether every field-level check passes (the reasons `validate`
/// collects; total duration and effective amplification are checked when
/// the stream is built).
pub open spec fn fields_valid(d: Description) -> bool {
    &&& !issue_applies(d, ValidationIssue::Version)
    &&& !issue_applies(d, ValidationIssue::SampleRate)
    &&& !issue_applies(d, ValidationIssue::Attack)
    &&& !issue_applies(d, ValidationIssue::Sustain)
    &&& !issue_applies(d, ValidationIssue::Decay)
    &&& !issue_applies(d, ValidationIssue::SustainPunch)
    &&& !issue_applies(d, ValidationIssue::Amplification)
    &&& !issue_applies(d, ValidationIssue::Frequency)
    &&& !issue_applies(d, ValidationIssue::SquareDuty)
}

/// Whether a stream can be built from the description.
pub open spec fn buildable(d: Description) -> bool {
    &&& fields_valid(d)
    &&& !issue_applies(d, ValidationIssue::Duration)
    &&& !issue_applies(d, ValidationIssue::AmplificationZero)
}

impl Description {
    /// Collects every field-level rejection reason, never stopping at the
    /// first.
    pub fn validate(&self) -> (r: Vec<ValidationIssue>)
        ensures
            r@.len() == 0 <==> fields_valid(*self),
            forall|j: int| 0 <= j < r@.len() ==> issue_applies(*self, #[trigger] r@[j]),
            issue_applies(*self, ValidationIssue::Version) ==> r@.contains(
                ValidationIssue::Version,
            ),
            issue_applies(*self, ValidationIssue::SampleRate) ==> r@.contains(
                ValidationIssue::SampleRate,
            ),
            issue_applies(*self, ValidationIssue::Attack) ==> r@.contains(ValidationIssue::Attack),
            issue_applies(*self, ValidationIssue::Sustain) ==> r@.contains(
                ValidationIssue::Sustain,
            ),
            issue_applies(*self, ValidationIssue::Decay) ==> r@.contains(ValidationIssue::Decay),
            issue_applies(*self, ValidationIssue::SustainPunch) ==> r@.contains(
                ValidationIssue::SustainPunch,
            ),
            issue_applies(*self, ValidationIssue::Amplification) ==> r@.contains(
                ValidationIssue::Amplification,
            ),
            issue_applies(*self, ValidationIssue::Frequency) ==> r@.contains(
                ValidationIssue::Frequency,
            ),
            issue_applies(*self, ValidationIssue::SquareDuty) ==> r@.contains(
                ValidationIssue::SquareDuty,
            ),
    {
        proof {
            broadcast use vstd::seq_lib::lemma_seq_contains_after_push;
        }
        let mut issues: Vec<ValidationIssue> = Vec::new();
        if self.fxr_version != 1 {
            issues.push(ValidationIssue::Version);
        }
        if self.sample_rate < 1 {
            issues.push(ValidationIssue::SampleRate);
        }
        if self.attack < 0 || self.attack > MAX_STAGE_FX as i64 {
            issues.push(ValidationIssue::Attack);
        }
        if self.sustain < 0 || self.sustain > MAX_STAGE_FX as i64 {
            issues.push(ValidationIssue::Sustain);
        }
        if self.decay < 0 || self.decay > MAX_STAGE_FX as i64 {
            issues.push(ValidationIssue::Decay);
        }
        if self.sustain_punch < 0 || self.sustain_punch > PCT_100 {
            issues.push(ValidationIssue::SustainPunch);
        }
        if self.amplification < 0 || self.amplification > PCT_LIMIT {
            issues.push(ValidationIssue::Amplification);
        }
        if self.frequency < 0 || self.frequency > VAL_LIMIT {
            issues.push(ValidationIssue::Frequency);
        }
        if let WaveformType::Square { square_duty } = self.waveform {
            if square_duty < 0 || square_duty > PCT_100 {
                issues.push(ValidationIssue::SquareDuty);
            }
        }
        issues
    }

    /// Builds the stream the description asks for: every rejection reason
    /// is collected first (a zero total duration and a vanishing effective
    /// amplification among them), and only a description with none yields
    /// a stream. The stream starts at its first sample, runs at the
    /// configured rate, and lasts exactly the three stage widths together;
    /// noise variants draw from a generator seeded with `seed`.
    pub fn build(self, seed: u64) -> (r: Result<Stream, Vec<ValidationIssue>>)
        ensures
            r is Ok <==> buildable(self),
            r matches Err(issues) ==> {
                &&& issues@.len() > 0
                &&& (forall|j: int|
                    0 <= j < issues@.len() ==> issue_applies(self, #[trigger] issues@[j]))
                &&& (issue_applies(self, ValidationIssue::Version) ==> issues@.contains(
                    ValidationIssue::Version,
                ))
                &&& (issue_applies(self, ValidationIssue::SampleRate) ==> issues@.contains(
                    ValidationIssue::SampleRate,
                ))
                &&& (issue_applies(self, ValidationIssue::Attack) ==> issues@.contains(
                    ValidationIssue::Attack,
                ))
                &&& (issue_applies(self, ValidationIssue::Sustain) ==> issues@.contains(
                    ValidationIssue::Sustain,
                ))
                &&& (issue_applies(self, ValidationIssue::Decay) ==> issues@.contains(
                    ValidationIssue::Decay,
                ))
                &&& (issue_applies(self, ValidationIssue::SustainPunch) ==> issues@.contains(
                    ValidationIssue::SustainPunch,
                ))
                &&& (issue_applies(self, ValidationIssue::Amplification) ==> issues@.contains(
                    ValidationIssue::Amplification,
                ))
                &&& (issue_applies(self, ValidationIssue::Frequency) ==> issues@.contains(
                    ValidationIssue::Frequency,
                ))
                &&& (issue_applies(self, ValidationIssue::SquareDuty) ==> issues@.contains(
                    ValidationIssue::SquareDuty,
                ))
                &&& (issue_applies(self, ValidationIssue::Duration) ==> issues@.contains(
                    ValidationIssue::Duration,
                ))
                &&& (issue_applies(self, ValidationIssue::AmplificationZero) ==> issues@.contains(
                    ValidationIssue::AmplificationZero,
                ))
            },
            r matches Ok(stream) ==> {
                &&& stream.wf()
                &&& stream.clock_spec() == 0
                &&& stream.sample_rate_spec() == self.sample_rate
                &&& stream.duration_spec() == self.attack + self.sustain + self.decay
                &&& stream.amp_env().vibrato is None
                &&& stream.amp_env().segments@ == adsr_segments(
                    (self.amplification / 100) as i64,
                    self.attack as u64,
                    self.sustain as u64,
                    self.decay as u64,
                    (self.sustain_punch / 100) as i64,
                )
                &&& exists|fenv: Envelope|
                    constant_env(fenv, self.frequency) && #[trigger] selects_env_spec(
                        self.waveform,
                        stream,
                        fenv,
                        stream.amp_env(),
                    )
                &&& ((stream is Noise) <==> (self.waveform is WhiteNoise || self.waveform
                    is PinkNoise || self.waveform is BrownNoise))
            },
    {
        proof {
            broadcast use vstd::seq_lib::lemma_seq_contains_after_push;
        }
        let mut issues = self.validate();
        if self.attack == 0 && self.sustain == 0 && self.decay == 0 {
            issues.push(ValidationIssue::Duration);
        }
        if self.amplification >= 0 && self.amplification / 100 == 0 {
            issues.push(ValidationIssue::AmplificationZero);
        }
        if issues.len() > 0 {
            return Err(issues);
        }
        let amp: i64 = self.amplification / 100;
        let punch: i64 = self.sustain_punch / 100;
        let envelope = match Envelope::from_duration(
            amp,
            self.attack as u64,
            self.sustain as u64,
            self.decay as u64,
            punch,
            None,
        ) {
            Some(e) => e,
            None => {
                proof {
                    assert(false);
                }
                return Err(issues);
            },
        };
        proof {
            crate::envelope::lemma_adsr_total(
                amp,
                self.attack as u64,
                self.sustain as u64,
                self.decay as u64,
                punch,
            );
        }
        let freq = Envelope::from_constant(self.frequency);
        let ghost fenv = freq;
        let stream = self.waveform.build(self.sample_rate, freq, envelope, seed).unwrap();
        proof {
            assert(stream.amp_env() == envelope);
            assert(selects_env_spec(self.waveform, stream, fenv, stream.amp_env()));
        }
        Ok(stream)
    }
}

} // verus!
