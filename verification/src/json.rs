use crate::envelope::{adsr_segments, lemma_total_dur_push, Envelope, Interval};
use crate::fixed::{FX_ONE, MAX_TIME_FX, VAL_LIMIT};
use crate::noise::{BrownNoise, NoiseGen, PinkNoise, WhiteNoise};
use crate::synth::{Noise, Stream, Synth};
use crate::waveform::{Breaker, Sawtooth, Sine, Square, Tangent, Triangle, Waveform};
use crate::config::{selects_env_spec, WaveformType, MAX_STAGE_FX, PCT_100, PCT_LIMIT};
use vstd::prelude::*;

verus! {

/// A numeric field as it came out of a parsed document: absent, a number
/// (already in fixed point), or present but not numeric.
pub enum NumField {
    Missing,
    Num(i64),
    Bad,
}

/// An unsigned numeric field of a parsed document.
pub enum RateField {
    Missing,
    Num(u64),
    Bad,
}

/// A textual field of a parsed document.
pub enum TextField {
    Missing,
    Text(String),
    Bad,
}

/// The recognized fields of a sound description document, before any
/// validation. The version is the document's own integer, not fixed point.
pub struct RawDescription {
    pub version: NumField,
    pub sample_rate: RateField,
    pub attack: NumField,
    pub sustain: NumField,
    pub decay: NumField,
    pub amplification: NumField,
    pub frequency: NumField,
    pub waveform: TextField,
    pub square_duty: NumField,
}

/// The value a numeric field takes once its default fills an absence.
pub open spec fn field_or(f: NumField, dflt: i64) -> i64 {
    match f {
        NumField::Num(v) => v,
        _ => dflt,
    }
}

/// The sample rate once its default fills an absence.
pub open spec fn rate_or_default(f: RateField) -> u64 {
    match f {
        RateField::Num(v) => v,
        _ => 44100,
    }
}

/// The first error the fail-fast reading of a raw description hits, or
/// nothing when every field reads cleanly. The checks run in the fixed
/// field order: version, sample rate, the three stages, the total
/// duration, amplification, frequency, then the waveform tag.
pub open spec fn parse_err_spec(raw: RawDescription) -> Option<Seq<char>> {
    let a = field_or(raw.attack, 0);
    let su = field_or(raw.sustain, 0);
    let de = field_or(raw.decay, 0);
    let amp = field_or(raw.amplification, PCT_100);
    let fr = field_or(raw.frequency, 0);
    let rate = rate_or_default(raw.sample_rate);
    if raw.version is Bad {
        Some("'_version' is not a number"@)
    } else if field_or(raw.version, 1) != 1 {
        Some("JFXR version mismatch"@)
    } else if raw.sample_rate is Bad {
        Some("'sample_rate' is not a number"@)
    } else if rate == 0 || rate > u32::MAX {
        Some("'sample_rate' must be positive"@)
    } else if raw.attack is Bad {
        Some("'attack' is not a number"@)
    } else if a < 0 {
        Some("'attack' must not be negative"@)
    } else if a > MAX_STAGE_FX {
        Some("'attack' is too long"@)
    } else if raw.sustain is Bad {
        Some("'sustain' is not a number"@)
    } else if su < 0 {
        Some("'sustain' must not be negative"@)
    } else if su > MAX_STAGE_FX {
        Some("'sustain' is too long"@)
    } else if raw.decay is Bad {
        Some("'decay' is not a number"@)
    } else if de < 0 {
        Some("'decay' must not be negative"@)
    } else if de > MAX_STAGE_FX {
        Some("'decay' is too long"@)
    } else if a + su + de == 0 {
        Some("Sound duration must be positive; assign 'attack', 'sustain' and/or 'decay' values"@)
    } else if raw.amplification is Bad {
        Some("'amplification' is not a number"@)
    } else if amp < 0 {
        Some("'amplification' must not be negative"@)
    } else if amp > PCT_LIMIT {
        Some("'amplification' is too large"@)
    } else if raw.frequency is Bad {
        Some("'frequency' is not a number"@)
    } else if raw.frequency is Missing {
        Some("Frequency is not set"@)
    } else if fr < 0 {
        Some("'frequency' must not be negative"@)
    } else if fr == 0 || fr > VAL_LIMIT {
        Some("'frequency' is out of range"@)
    } else if raw.waveform is Bad {
        Some("'waveform' is not a string"@)
    } else if raw.waveform is Missing {
        Some("Waveform is not set"@)
    } else {
        tag_err_spec(raw.waveform->Text_0@, raw.square_duty)
    }
}

/// The error the waveform tag and its duty field produce, if any.
pub open spec fn tag_err_spec(w: Seq<char>, duty: NumField) -> Option<Seq<char>> {
    if w == "square"@ {
        if duty is Bad {
            Some("'squareDuty' is not a number"@)
        } else {
            let sd = field_or(duty, (50 * FX_ONE) as i64);
            if sd < 0 || sd > PCT_100 || sd / 100 == 0 || sd / 100 >= FX_ONE {
                Some("'squareDuty' must be a percentage value between 0 and 100"@)
            } else {
                None
            }
        }
    } else if w == "sine"@ || w == "triangle"@ || w == "sawtooth"@ || w == "breaker"@ || w
        == "tangent"@ || w == "whitenoise"@ || w == "pinknoise"@ || w == "brownnoise"@ {
        None
    } else {
        Some("Waveform type is not defined"@)
    }
}

/// Whether the recognized waveform tag names one of the noise processes.
pub open spec fn is_noise_tag(w: Seq<char>) -> bool {
    w == "whitenoise"@ || w == "pinknoise"@ || w == "brownnoise"@
}

/// Whether `stream` is the stream the textual tag selects: for each
/// recognized tag, some constant frequency envelope holding the parsed
/// frequency drives the matching variant, carrying the stream's own
/// amplitude envelope; a square's duty comes from the duty field with its
/// even default.
pub open spec fn tag_selects_spec(
    w: Seq<char>,
    duty: NumField,
    freq_value: i64,
    stream: Stream,
) -> bool {
    &&& (w == "sine"@ ==> exists|fenv: Envelope|
        crate::waveform::constant_env(fenv, freq_value) && #[trigger] selects_env_spec(
            WaveformType::Sine,
            stream,
            fenv,
            stream.amp_env(),
        ))
    &&& (w == "triangle"@ ==> exists|fenv: Envelope|
        crate::waveform::constant_env(fenv, freq_value) && #[trigger] selects_env_spec(
            WaveformType::Triangle,
            stream,
            fenv,
            stream.amp_env(),
        ))
    &&& (w == "sawtooth"@ ==> exists|fenv: Envelope|
        crate::waveform::constant_env(fenv, freq_value) && #[trigger] selects_env_spec(
            WaveformType::Sawtooth,
            stream,
            fenv,
            stream.amp_env(),
        ))
    &&& (w == "breaker"@ ==> exists|fenv: Envelope|
        crate::waveform::constant_env(fenv, freq_value) && #[trigger] selects_env_spec(
            WaveformType::Breaker,
            stream,
            fenv,
            stream.amp_env(),
        ))
    &&& (w == "tangent"@ ==> exists|fenv: Envelope|
        crate::waveform::constant_env(fenv, freq_value) && #[trigger] selects_env_spec(
            WaveformType::Tangent,
            stream,
            fenv,
            stream.amp_env(),
        ))
    &&& (w == "square"@ ==> exists|fenv: Envelope|
        crate::waveform::constant_env(fenv, freq_value) && #[trigger] selects_env_spec(
            WaveformType::Square { square_duty: field_or(duty, (50 * FX_ONE) as i64) },
            stream,
            fenv,
            stream.amp_env(),
        ))
    &&& (w == "whitenoise"@ ==> exists|fenv: Envelope|
        crate::waveform::constant_env(fenv, freq_value) && #[trigger] selects_env_spec(
            WaveformType::WhiteNoise,
            stream,
            fenv,
            stream.amp_env(),
        ))
    &&& (w == "pinknoise"@ ==> exists|fenv: Envelope|
        crate::waveform::constant_env(fenv, freq_value) && #[trigger] selects_env_spec(
            WaveformType::PinkNoise,
            stream,
            fenv,
            stream.amp_env(),
        ))
    &&& (w == "brownnoise"@ ==> exists|fenv: Envelope|
        crate::waveform::constant_env(fenv, freq_value) && #[trigger] selects_env_spec(
            WaveformType::BrownNoise,
            stream,
            fenv,
            stream.amp_env(),
        ))
}

/// Reads a raw description fail-fast, stopping at the first unusable
/// field with that field's message, and otherwise builds the stream it
/// describes. The version must be present: a document without one is not
/// accepted here at all.
#[verifier::rlimit(100)]
#[verifier::spinoff_prover]
pub fn parse(raw: RawDescription, seed: u64) -> (r: Result<Stream, String>)
    requires
        !(raw.version is Missing),
    ensures
        r is Ok <==> parse_err_spec(raw) is None,
        r matches Err(e) ==> parse_err_spec(raw) == Some(e@),
        r matches Ok(stream) ==> {
            &&& stream.wf()
            &&& stream.clock_spec() == 0
            &&& stream.sample_rate_spec() == rate_or_default(raw.sample_rate)
            &&& stream.duration_spec() == field_or(raw.attack, 0) + field_or(raw.sustain, 0)
                + field_or(raw.decay, 0)
            &&& stream.amp_env().vibrato is None
            &&& stream.amp_env().segments@ == adsr_segments(
                (field_or(raw.amplification, PCT_100) / 100) as i64,
                field_or(raw.attack, 0) as u64,
                field_or(raw.sustain, 0) as u64,
                field_or(raw.decay, 0) as u64,
                0,
            )
            &&& tag_selects_spec(
                raw.waveform->Text_0@,
                raw.square_duty,
                field_or(raw.frequency, 0),
                stream,
            )
            &&& ((stream is Noise) <==> is_noise_tag(raw.waveform->Text_0@))
        },
{
    let version = match raw.version {
        NumField::Num(v) => v,
        _ => {
            return Err(String::from_str("'_version' is not a number"));
        },
    };
    if version != 1 {
        return Err(String::from_str("JFXR version mismatch"));
    }
    let sample_rate64: u64 = match raw.sample_rate {
        RateField::Num(v) => v,
        RateField::Missing => 44100,
        RateField::Bad => {
            return Err(String::from_str("'sample_rate' is not a number"));
        },
    };
    if sample_rate64 == 0 || sample_rate64 > u32::MAX as u64 {
        return Err(String::from_str("'sample_rate' must be positive"));
    }
    let sample_rate: u32 = sample_rate64 as u32;
    let attack: i64 = match raw.attack {
        NumField::Num(v) => v,
        NumField::Missing => 0,
        NumField::Bad => {
            return Err(String::from_str("'attack' is not a number"));
        },
    };
    if attack < 0 {
        return Err(String::from_str("'attack' must not be negative"));
    }
    if attack > MAX_STAGE_FX as i64 {
        return Err(String::from_str("'attack' is too long"));
    }
    let sustain: i64 = match raw.sustain {
        NumField::Num(v) => v,
        NumField::Missing => 0,
        NumField::Bad => {
            return Err(String::from_str("'sustain' is not a number"));
        },
    };
    if sustain < 0 {
        return Err(String::from_str("'sustain' must not be negative"));
    }
    if sustain > MAX_STAGE_FX as i64 {
        return Err(String::from_str("'sustain' is too long"));
    }
    let decay: i64 = match raw.decay {
        NumField::Num(v) => v,
        NumField::Missing => 0,
        NumField::Bad => {
            return Err(String::from_str("'decay' is not a number"));
        },
    };
    if decay < 0 {
        return Err(String::from_str("'decay' must not be negative"));
    }
    if decay > MAX_STAGE_FX as i64 {
        return Err(String::from_str("'decay' is too long"));
    }
    if attack + sustain + decay == 0 {
        return Err(
            String::from_str(
                "Sound duration must be positive; assign 'attack', 'sustain' and/or 'decay' values",
            ),
        );
    }
    let amp_pct: i64 = match raw.amplification {
        NumField::Num(v) => v,
        NumField::Missing => PCT_100,
        NumField::Bad => {
            return Err(String::from_str("'amplification' is not a number"));
        },
    };
    if amp_pct < 0 {
        return Err(String::from_str("'amplification' must not be negative"));
    }
    if amp_pct > PCT_LIMIT {
        return Err(String::from_str("'amplification' is too large"));
    }
    let amp: i64 = amp_pct / 100;
    let freq: i64 = match raw.frequency {
        NumField::Num(v) => v,
        NumField::Missing => {
            return Err(String::from_str("Frequency is not set"));
        },
        NumField::Bad => {
            return Err(String::from_str("'frequency' is not a number"));
        },
    };
    if freq < 0 {
        return Err(String::from_str("'frequency' must not be negative"));
    }
    if freq == 0 || freq > VAL_LIMIT {
        return Err(String::from_str("'frequency' is out of range"));
    }
    let mut segments: Vec<Interval> = Vec::new();
    if let Some(iv) = Interval::new(attack as u64, 0, amp) {
        proof {
            lemma_total_dur_push(segments@, iv);
        }
        segments.push(iv);
    }
    if let Some(iv) = Interval::new(sustain as u64, amp, amp) {
        proof {
            lemma_total_dur_push(segments@, iv);
        }
        segments.push(iv);
    }
    if let Some(iv) = Interval::new(decay as u64, amp, 0) {
        proof {
            lemma_total_dur_push(segments@, iv);
        }
        segments.push(iv);
    }
    proof {
        assert(crate::envelope::total_dur(segments@) == attack + sustain + decay);
        assert(amp * 0 == 0) by (nonlinear_arith);
        vstd::arithmetic::div_mod::lemma_div_of0(FX_ONE as int);
        assert(segments@ =~= adsr_segments(
            amp,
            attack as u64,
            sustain as u64,
            decay as u64,
            0,
        ));
    }
    let envelope = match Envelope::new(segments, None) {
        Some(e) => e,
        None => {
            proof {
                assert(false);
            }
            return Err(String::new());
        },
    };
    let waveform_text = match raw.waveform {
        TextField::Text(w) => w,
        TextField::Missing => {
            return Err(String::from_str("Waveform is not set"));
        },
        TextField::Bad => {
            return Err(String::from_str("'waveform' is not a string"));
        },
    };
    build_tagged(waveform_text, raw.square_duty, freq, sample_rate, envelope, seed)
}

/// The nine waveform tags are pairwise distinct words, and no periodic
/// tone's tag names a noise process.
proof fn lemma_tags_distinct()
    ensures
        !is_noise_tag("square"@),
        !is_noise_tag("sine"@),
        !is_noise_tag("triangle"@),
        !is_noise_tag("sawtooth"@),
        !is_noise_tag("breaker"@),
        !is_noise_tag("tangent"@),
        !("sine"@ == "triangle"@),
        !("sine"@ == "sawtooth"@),
        !("sine"@ == "breaker"@),
        !("sine"@ == "tangent"@),
        !("sine"@ == "square"@),
        !("sine"@ == "whitenoise"@),
        !("sine"@ == "pinknoise"@),
        !("sine"@ == "brownnoise"@),
        !("triangle"@ == "sawtooth"@),
        !("triangle"@ == "breaker"@),
        !("triangle"@ == "tangent"@),
        !("triangle"@ == "square"@),
        !("triangle"@ == "whitenoise"@),
        !("triangle"@ == "pinknoise"@),
        !("triangle"@ == "brownnoise"@),
        !("sawtooth"@ == "breaker"@),
        !("sawtooth"@ == "tangent"@),
        !("sawtooth"@ == "square"@),
        !("sawtooth"@ == "whitenoise"@),
        !("sawtooth"@ == "pinknoise"@),
        !("sawtooth"@ == "brownnoise"@),
        !("breaker"@ == "tangent"@),
        !("breaker"@ == "square"@),
        !("breaker"@ == "whitenoise"@),
        !("breaker"@ == "pinknoise"@),
        !("breaker"@ == "brownnoise"@),
        !("tangent"@ == "square"@),
        !("tangent"@ == "whitenoise"@),
        !("tangent"@ == "pinknoise"@),
        !("tangent"@ == "brownnoise"@),
        !("square"@ == "whitenoise"@),
        !("square"@ == "pinknoise"@),
        !("square"@ == "brownnoise"@),
        !("whitenoise"@ == "pinknoise"@),
        !("whitenoise"@ == "brownnoise"@),
        !("pinknoise"@ == "brownnoise"@),
{
    reveal_strlit("sine");
    reveal_strlit("triangle");
    reveal_strlit("sawtooth");
    reveal_strlit("breaker");
    reveal_strlit("tangent");
    reveal_strlit("square");
    reveal_strlit("whitenoise");
    reveal_strlit("pinknoise");
    reveal_strlit("brownnoise");
    assert(("sine"@).len() == 4);
    assert(("triangle"@).len() == 8);
    assert(("sawtooth"@).len() == 8);
    assert(("breaker"@).len() == 7);
    assert(("tangent"@).len() == 7);
    assert(("square"@).len() == 6);
    assert(("whitenoise"@).len() == 10);
    assert(("pinknoise"@).len() == 9);
    assert(("brownnoise"@).len() == 10);
    assert(("triangle"@)[0] == 't');
    assert(("sawtooth"@)[0] == 's');
    assert(("breaker"@)[0] == 'b');
    assert(("tangent"@)[0] == 't');
    assert(("tangent"@)[1] == 'a');
    assert(("triangle"@)[1] == 'r');
    assert(("whitenoise"@)[0] == 'w');
    assert(("brownnoise"@)[0] == 'b');
}

/// Builds the stream a recognized waveform tag selects, or the tag's own
/// error.
fn build_tagged(
    waveform_text: String,
    square_duty: NumField,
    freq: i64,
    sample_rate: u32,
    envelope: Envelope,
    seed: u64,
) -> (r: Result<Stream, String>)
    requires
        0 < freq <= VAL_LIMIT,
        sample_rate >= 1,
        envelope.wf(),
        0 < envelope.duration_spec() < MAX_TIME_FX,
    ensures
        r is Ok <==> tag_err_spec(waveform_text@, square_duty) is None,
        r matches Err(e) ==> tag_err_spec(waveform_text@, square_duty) == Some(e@),
        r matches Ok(stream) ==> {
            &&& stream.wf()
            &&& stream.clock_spec() == 0
            &&& stream.sample_rate_spec() == sample_rate
            &&& stream.duration_spec() == envelope.duration_spec()
            &&& stream.amp_env() == envelope
            &&& tag_selects_spec(waveform_text@, square_duty, freq, stream)
            &&& ((stream is Noise) <==> is_noise_tag(waveform_text@))
        },
{
    proof {
        lemma_tags_distinct();
    }
    if waveform_text == String::from_str("square") {
        let sd: i64 = match square_duty {
            NumField::Num(v) => v,
            NumField::Missing => 50 * FX_ONE,
            NumField::Bad => {
                return Err(String::from_str("'squareDuty' is not a number"));
            },
        };
        let duty = sd / 100;
        if sd < 0 || sd > PCT_100 || duty == 0 || duty >= FX_ONE {
            return Err(
                String::from_str("'squareDuty' must be a percentage value between 0 and 100"),
            );
        }
        let w = Square::new_simple(freq, duty).unwrap();
        let ghost fenv = w.freq;
        let s = Synth::new(sample_rate, Waveform::Square(w), envelope).unwrap();
        let stream = Stream::Tone(s);
        proof {
            assert(selects_env_spec(
                WaveformType::Square { square_duty: sd },
                stream,
                fenv,
                stream.amp_env(),
            ));
        }
        Ok(stream)
    } else if waveform_text == String::from_str("sine") {
        let w = Sine::new_simple(freq).unwrap();
        let ghost fenv = w.freq;
        let s = Synth::new(sample_rate, Waveform::Sine(w), envelope).unwrap();
        let stream = Stream::Tone(s);
        proof {
            assert(selects_env_spec(WaveformType::Sine, stream, fenv, stream.amp_env()));
        }
        Ok(stream)
    } else if waveform_text == String::from_str("triangle") {
        let w = Triangle::new_simple(freq).unwrap();
        let ghost fenv = w.freq;
        let s = Synth::new(sample_rate, Waveform::Triangle(w), envelope).unwrap();
        let stream = Stream::Tone(s);
        proof {
            assert(selects_env_spec(WaveformType::Triangle, stream, fenv, stream.amp_env()));
        }
        Ok(stream)
    } else if waveform_text == String::from_str("sawtooth") {
        let w = Sawtooth::new_simple(freq).unwrap();
        let ghost fenv = w.freq;
        let s = Synth::new(sample_rate, Waveform::Sawtooth(w), envelope).unwrap();
        let stream = Stream::Tone(s);
        proof {
            assert(selects_env_spec(WaveformType::Sawtooth, stream, fenv, stream.amp_env()));
        }
        Ok(stream)
    } else if waveform_text == String::from_str("breaker") {
        let w = Breaker::new_simple(freq).unwrap();
        let ghost fenv = w.freq;
        let s = Synth::new(sample_rate, Waveform::Breaker(w), envelope).unwrap();
        let stream = Stream::Tone(s);
        proof {
            assert(selects_env_spec(WaveformType::Breaker, stream, fenv, stream.amp_env()));
        }
        Ok(stream)
    } else if waveform_text == String::from_str("tangent") {
        let w = Tangent::default_simple(freq).unwrap();
        let ghost fenv = w.freq;
        let s = Synth::new(sample_rate, Waveform::Tangent(w), envelope).unwrap();
        let stream = Stream::Tone(s);
        proof {
            assert(selects_env_spec(WaveformType::Tangent, stream, fenv, stream.amp_env()));
        }
        Ok(stream)
    } else if waveform_text == String::from_str("whitenoise") {
        let n = WhiteNoise::new_simple(freq, seed).unwrap();
        let ghost fenv = n.freq;
        let gen = NoiseGen::White(n);
        let s = Noise::new(sample_rate, gen, envelope).unwrap();
        let stream = Stream::Noise(s);
        proof {
            assert(selects_env_spec(WaveformType::WhiteNoise, stream, fenv, stream.amp_env()));
        }
        Ok(stream)
    } else if waveform_text == String::from_str("pinknoise") {
        let n = PinkNoise::new_simple(freq, seed).unwrap();
        let ghost fenv = n.freq;
        let gen = NoiseGen::Pink(n);
        let s = Noise::new(sample_rate, gen, envelope).unwrap();
        let stream = Stream::Noise(s);
        proof {
            assert(selects_env_spec(WaveformType::PinkNoise, stream, fenv, stream.amp_env()));
        }
        Ok(stream)
    } else if waveform_text == String::from_str("brownnoise") {
        let fe = Envelope::from_constant(freq);
        let ghost fenv = fe;
        let gen = NoiseGen::Brown(
            BrownNoise::new(fe, crate::noise::DEFAULT_ROLLOFF, seed).unwrap(),
        );
        let s = Noise::new(sample_rate, gen, envelope).unwrap();
        let stream = Stream::Noise(s);
        proof {
            assert(selects_env_spec(WaveformType::BrownNoise, stream, fenv, stream.amp_env()));
        }
        Ok(stream)
    } else {
        Err(String::from_str("Waveform type is not defined"))
    }
}

} // verus!
