use crate::envelope::Envelope;
use crate::fixed::{
    div_trunc, phase_frac_fx, phase_frac_spec, FX_ONE, FX_ONE_U, MAX_TIME_FX, VAL_LIMIT,
};
use crate::trig::{sine_turn, sine_turn_spec, tangent_fx, tangent_spec, FX_HALF, FX_QUARTER};
use vstd::arithmetic::div_mod::{lemma_div_is_ordered, lemma_div_multiples_vanish};
use vstd::arithmetic::mul::lemma_mul_nonnegative;
use vstd::prelude::*;

verus! {

/// The phase offset that centres the breaker waveform's kink: the fixed
/// point value of the square root of three quarters.
pub const BREAKER_OFFSET: u64 = 3719550787;

/// The default cutoff fraction of the tangent waveform.
pub const TANGENT_CUTOFF: i64 = 644245094;

/// Triangle wave over one cycle's phase fraction `v`, in `[-FX_ONE, FX_ONE]`:
/// rising fourfold to the peak, falling through zero, rising back.
pub open spec fn triangle_spec(v: int) -> int {
    if v < FX_ONE / 4 {
        4 * v
    } else if v < 3 * (FX_ONE / 4) {
        2 * FX_ONE - 4 * v
    } else {
        4 * v - 4 * FX_ONE
    }
}

/// Sawtooth wave over one cycle's phase fraction.
pub open spec fn sawtooth_spec(v: int) -> int {
    2 * v - FX_ONE
}

/// Breaker wave over one cycle's phase fraction (already offset):
/// `-1 + 2 |1 - 2 v^2|`.
pub open spec fn breaker_spec(v: int) -> int {
    let q = div_trunc(v * v, FX_ONE as int);
    -FX_ONE + 2 * vstd::math::abs(FX_ONE - 2 * q)
}

/// Square wave: high while the phase fraction lies under the duty value.
pub open spec fn square_spec(v: int, duty: int) -> int {
    if v < duty {
        FX_ONE as int
    } else {
        -(FX_ONE as int)
    }
}

/// A pure sine tone; the frequency is itself a time-varying envelope.
pub struct Sine {
    pub freq: Envelope,
}

/// A triangle tone.
pub struct Triangle {
    pub freq: Envelope,
}

/// A sawtooth tone.
pub struct Sawtooth {
    pub freq: Envelope,
}

/// A "breaker" tone: a parabolic wave with a sharp kink once per cycle.
pub struct Breaker {
    pub freq: Envelope,
}

/// A clipped tangent tone.
pub struct Tangent {
    pub freq: Envelope,
    pub cutoff: i64,
}

/// A square tone whose duty cycle is itself a time-varying envelope.
pub struct Square {
    pub freq: Envelope,
    pub square_duty: Envelope,
}

impl Sine {
    pub fn new(freq: Envelope) -> (r: Sine)
        requires
            freq.wf(),
        ensures
            r.freq == freq,
    {
        Sine { freq }
    }

    /// A sine at one fixed frequency, held for the whole time horizon.
    pub fn new_simple(freq: i64) -> (r: Option<Sine>)
        ensures
            match r {
                Some(w) => 0 < freq <= VAL_LIMIT && w.freq.wf() && constant_env(w.freq, freq)
                    && w.freq.duration_spec() == MAX_TIME_FX,
                None => !(0 < freq <= VAL_LIMIT),
            },
    {
        if freq <= 0 || freq > VAL_LIMIT {
            None
        } else {
            Some(Sine { freq: Envelope::from_constant(freq) })
        }
    }
}

impl Triangle {
    pub fn new(freq: Envelope) -> (r: Triangle)
        requires
            freq.wf(),
        ensures
            r.freq == freq,
    {
        Triangle { freq }
    }

    /// A triangle at one fixed frequency, held for the whole time horizon.
    pub fn new_simple(freq: i64) -> (r: Option<Triangle>)
        ensures
            match r {
                Some(w) => 0 < freq <= VAL_LIMIT && w.freq.wf() && constant_env(w.freq, freq)
                    && w.freq.duration_spec() == MAX_TIME_FX,
                None => !(0 < freq <= VAL_LIMIT),
            },
    {
        if freq <= 0 || freq > VAL_LIMIT {
            None
        } else {
            Some(Triangle { freq: Envelope::from_constant(freq) })
        }
    }
}

impl Sawtooth {
    pub fn new(freq: Envelope) -> (r: Sawtooth)
        requires
            freq.wf(),
        ensures
            r.freq == freq,
    {
        Sawtooth { freq }
    }

    /// A sawtooth at one fixed frequency, held for the whole time horizon.
    pub fn new_simple(freq: i64) -> (r: Option<Sawtooth>)
        ensures
            match r {
                Some(w) => 0 < freq <= VAL_LIMIT && w.freq.wf() && constant_env(w.freq, freq)
                    && w.freq.duration_spec() == MAX_TIME_FX,
                None => !(0 < freq <= VAL_LIMIT),
            },
    {
        if freq <= 0 || freq > VAL_LIMIT {
            None
        } else {
            Some(Sawtooth { freq: Envelope::from_constant(freq) })
        }
    }
}

impl Breaker {
    pub fn new(freq: Envelope) -> (r: Breaker)
        requires
            freq.wf(),
        ensures
            r.freq == freq,
    {
        Breaker { freq }
    }

    /// A breaker at one fixed frequency, held for the whole time horizon.
    pub fn new_simple(freq: i64) -> (r: Option<Breaker>)
        ensures
            match r {
                Some(w) => 0 < freq <= VAL_LIMIT && w.freq.wf() && constant_env(w.freq, freq)
                    && w.freq.duration_spec() == MAX_TIME_FX,
                None => !(0 < freq <= VAL_LIMIT),
            },
    {
        if freq <= 0 || freq > VAL_LIMIT {
            None
        } else {
            Some(Breaker { freq: Envelope::from_constant(freq) })
        }
    }
}

impl Tangent {
    /// A tangent with an explicit cutoff fraction, which must be positive.
    pub fn new(freq: Envelope, cutoff: i64) -> (r: Option<Tangent>)
        requires
            freq.wf(),
        ensures
            match r {
                Some(w) => 0 < cutoff && w.freq == freq && w.cutoff == cutoff,
                None => cutoff <= 0,
            },
    {
        if cutoff <= 0 {
            None
        } else {
            Some(Tangent { freq, cutoff })
        }
    }

    /// A tangent with the default cutoff.
    pub fn default(freq: Envelope) -> (r: Tangent)
        requires
            freq.wf(),
        ensures
            r.freq == freq,
            r.cutoff == TANGENT_CUTOFF,
    {
        Tangent { freq, cutoff: TANGENT_CUTOFF }
    }

    /// A tangent at one fixed frequency with an explicit cutoff fraction.
    pub fn new_simple(freq: i64, cutoff: i64) -> (r: Option<Tangent>)
        ensures
            match r {
                Some(w) => {
                    &&& 0 < freq <= VAL_LIMIT
                    &&& 0 < cutoff
                    &&& w.freq.wf()
                    &&& constant_env(w.freq, freq)
                    &&& w.freq.duration_spec() == MAX_TIME_FX
                    &&& w.cutoff == cutoff
                },
                None => !(0 < freq <= VAL_LIMIT && 0 < cutoff),
            },
    {
        if freq <= 0 || freq > VAL_LIMIT || cutoff <= 0 {
            None
        } else {
            Some(Tangent { freq: Envelope::from_constant(freq), cutoff })
        }
    }

    /// A tangent at one fixed frequency with the default cutoff.
    pub fn default_simple(freq: i64) -> (r: Option<Tangent>)
        ensures
            match r {
                Some(w) => {
                    &&& 0 < freq <= VAL_LIMIT
                    &&& w.freq.wf()
                    &&& constant_env(w.freq, freq)
                    &&& w.freq.duration_spec() == MAX_TIME_FX
                    &&& w.cutoff == TANGENT_CUTOFF
                },
                None => !(0 < freq <= VAL_LIMIT),
            },
    {
        Tangent::new_simple(freq, TANGENT_CUTOFF)
    }
}

impl Square {
    pub fn new(freq: Envelope, square_duty: Envelope) -> (r: Square)
        requires
            freq.wf(),
            square_duty.wf(),
        ensures
            r.freq == freq,
            r.square_duty == square_duty,
    {
        Square { freq, square_duty }
    }

    /// A square with an even duty cycle held for the whole time horizon.
    pub fn default(freq: Envelope) -> (r: Square)
        requires
            freq.wf(),
        ensures
            r.freq == freq,
            r.square_duty.wf(),
            constant_env(r.square_duty, FX_HALF as i64),
            r.square_duty.duration_spec() == MAX_TIME_FX,
    {
        Square { freq, square_duty: Envelope::from_constant(FX_HALF as i64) }
    }

    /// A square at one fixed frequency and duty fraction; the duty must lie
    /// strictly between silence and a full cycle.
    pub fn new_simple(freq: i64, square_duty: i64) -> (r: Option<Square>)
        ensures
            match r {
                Some(w) => {
                    &&& 0 < freq <= VAL_LIMIT
                    &&& 0 < square_duty < FX_ONE
                    &&& w.freq.wf()
                    &&& w.square_duty.wf()
                    &&& constant_env(w.freq, freq)
                    &&& constant_env(w.square_duty, square_duty)
                    &&& w.freq.duration_spec() == MAX_TIME_FX
                    &&& w.square_duty.duration_spec() == MAX_TIME_FX
                },
                None => !(0 < freq <= VAL_LIMIT && 0 < square_duty < FX_ONE),
            },
    {
        if freq <= 0 || freq > VAL_LIMIT || square_duty <= 0 || square_duty >= FX_ONE {
            None
        } else {
            Some(
                Square {
                    freq: Envelope::from_constant(freq),
                    square_duty: Envelope::from_constant(square_duty),
                },
            )
        }
    }

    /// A square at one fixed frequency with an even duty cycle.
    pub fn default_simple(freq: i64) -> (r: Option<Square>)
        ensures
            match r {
                Some(w) => {
                    &&& 0 < freq <= VAL_LIMIT
                    &&& w.freq.wf()
                    &&& w.square_duty.wf()
                    &&& constant_env(w.freq, freq)
                    &&& constant_env(w.square_duty, FX_HALF as i64)
                    &&& w.freq.duration_spec() == MAX_TIME_FX
                    &&& w.square_duty.duration_spec() == MAX_TIME_FX
                },
                None => !(0 < freq <= VAL_LIMIT),
            },
    {
        Square::new_simple(freq, FX_HALF as i64)
    }
}

/// Whether an envelope is the constant hold of `value` over the whole
/// representable time horizon.
pub open spec fn constant_env(env: Envelope, value: i64) -> bool {
    &&& env.vibrato is None
    &&& env.segments@ == seq![
        crate::envelope::Interval { duration: MAX_TIME_FX, start: value, end: value },
    ]
}

/// The tagged union over every periodic oscillator, dispatched by a single
/// match per operation.
pub enum Waveform {
    Sine(Sine),
    Triangle(Triangle),
    Sawtooth(Sawtooth),
    Breaker(Breaker),
    Tangent(Tangent),
    Square(Square),
}

/// The phase fraction an oscillator sees at time `t`: the frequency
/// envelope's value at `t`, integrated as `f * t`, reduced to one cycle.
pub open spec fn osc_phase(freq: Envelope, t: int) -> int {
    phase_frac_spec(freq.value_spec(t), t)
}

impl Waveform {
    pub open spec fn wf(&self) -> bool {
        match self {
            Waveform::Sine(w) => w.freq.wf(),
            Waveform::Triangle(w) => w.freq.wf(),
            Waveform::Sawtooth(w) => w.freq.wf(),
            Waveform::Breaker(w) => w.freq.wf(),
            Waveform::Tangent(w) => w.freq.wf() && 0 < w.cutoff,
            Waveform::Square(w) => w.freq.wf() && w.square_duty.wf(),
        }
    }

    /// The oscillator's sample at time `t`, always within one unit of zero.
    pub open spec fn value_spec(&self, t: int) -> int {
        match self {
            Waveform::Sine(w) => sine_turn_spec(osc_phase(w.freq, t)),
            Waveform::Triangle(w) => triangle_spec(osc_phase(w.freq, t)),
            Waveform::Sawtooth(w) => sawtooth_spec(osc_phase(w.freq, t)),
            Waveform::Breaker(w) => breaker_spec(
                (osc_phase(w.freq, t) + BREAKER_OFFSET) % (FX_ONE as int),
            ),
            Waveform::Tangent(w) => tangent_spec(osc_phase(w.freq, t), w.cutoff as int),
            Waveform::Square(w) => square_spec(osc_phase(w.freq, t), w.square_duty.value_spec(t)),
        }
    }

    /// The duration the oscillator can cover: the least duration of the
    /// envelopes it owns.
    pub open spec fn duration_spec(&self) -> int {
        match self {
            Waveform::Sine(w) => w.freq.duration_spec(),
            Waveform::Triangle(w) => w.freq.duration_spec(),
            Waveform::Sawtooth(w) => w.freq.duration_spec(),
            Waveform::Breaker(w) => w.freq.duration_spec(),
            Waveform::Tangent(w) => w.freq.duration_spec(),
            Waveform::Square(w) => vstd::math::min(
                w.freq.duration_spec(),
                w.square_duty.duration_spec(),
            ),
        }
    }

    pub fn duration(&self) -> (r: u64)
        requires
            self.wf(),
        ensures
            r == self.duration_spec(),
    {
        match self {
            Waveform::Sine(w) => w.freq.duration(),
            Waveform::Triangle(w) => w.freq.duration(),
            Waveform::Sawtooth(w) => w.freq.duration(),
            Waveform::Breaker(w) => w.freq.duration(),
            Waveform::Tangent(w) => w.freq.duration(),
            Waveform::Square(w) => {
                let a = w.freq.duration();
                let b = w.square_duty.duration();
                if a <= b {
                    a
                } else {
                    b
                }
            },
        }
    }

    /// One sample of the oscillator.
    pub fn value(&self, t: u64) -> (r: i64)
        requires
            self.wf(),
            t <= MAX_TIME_FX,
        ensures
            r == self.value_spec(t as int),
            -FX_ONE <= r <= FX_ONE,
    {
        match self {
            Waveform::Sine(w) => {
                let f = w.freq.value(t);
                let p = phase_frac_fx(f, t);
                sine_turn(p)
            },
            Waveform::Triangle(w) => {
                let f = w.freq.value(t);
                let p = phase_frac_fx(f, t);
                if p < FX_QUARTER {
                    4 * (p as i64)
                } else if p < 3 * FX_QUARTER {
                    2 * FX_ONE - 4 * (p as i64)
                } else {
                    4 * (p as i64) - 4 * FX_ONE
                }
            },
            Waveform::Sawtooth(w) => {
                let f = w.freq.value(t);
                let p = phase_frac_fx(f, t);
                2 * (p as i64) - FX_ONE
            },
            Waveform::Breaker(w) => {
                let f = w.freq.value(t);
                let p = phase_frac_fx(f, t);
                let v: u64 = if p >= FX_ONE_U - BREAKER_OFFSET {
                    p + BREAKER_OFFSET - FX_ONE_U
                } else {
                    p + BREAKER_OFFSET
                };
                proof {
                    if p >= FX_ONE_U - BREAKER_OFFSET {
                        vstd::arithmetic::div_mod::lemma_mod_sub_multiples_vanish(
                            (p + BREAKER_OFFSET) as int,
                            FX_ONE as int,
                        );
                        vstd::arithmetic::div_mod::lemma_small_mod(
                            (p + BREAKER_OFFSET - FX_ONE_U) as nat,
                            FX_ONE_U as nat,
                        );
                    } else {
                        vstd::arithmetic::div_mod::lemma_small_mod(
                            (p + BREAKER_OFFSET) as nat,
                            FX_ONE_U as nat,
                        );
                    }
                    lemma_mul_nonnegative(v as int, v as int);
                    assert(v as int * v as int <= FX_ONE as int * FX_ONE as int)
                        by (nonlinear_arith)
                        requires
                            0 <= v as int <= FX_ONE as int,
                    ;
                    lemma_div_is_ordered(
                        v as int * v as int,
                        FX_ONE as int * FX_ONE as int,
                        FX_ONE as int,
                    );
                    lemma_div_multiples_vanish(FX_ONE as int, FX_ONE as int);
                    vstd::arithmetic::div_mod::lemma_div_pos_is_pos(
                        v as int * v as int,
                        FX_ONE as int,
                    );
                }
                let sq: u64 = (((v as u128) * (v as u128)) / (FX_ONE_U as u128)) as u64;
                let inner: i64 = FX_ONE - 2 * (sq as i64);
                if inner >= 0 {
                    -FX_ONE + 2 * inner
                } else {
                    -FX_ONE + 2 * -inner
                }
            },
            Waveform::Tangent(w) => {
                let f = w.freq.value(t);
                let p = phase_frac_fx(f, t);
                tangent_fx(p, w.cutoff)
            },
            Waveform::Square(w) => {
                let f = w.freq.value(t);
                let p = phase_frac_fx(f, t);
                let duty = w.square_duty.value(t);
                if (p as i64) < duty {
                    FX_ONE
                } else {
                    -FX_ONE
                }
            },
        }
    }
}

} // verus!
