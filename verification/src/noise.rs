use crate::envelope::Envelope;
use crate::fixed::{
    clamp_spec, div_trunc, lemma_abs_mul_le, lemma_div_trunc_le, lerp_fx, lerp_fx_spec,
    mul_i_div_u, phase_frac_fx, phase_frac_spec, FX_ONE, FX_ONE_U, MAX_TIME_FX, VAL_LIMIT,
};
use vstd::prelude::*;

verus! {

/// The default rolloff fraction of the brown noise random walk.
pub const DEFAULT_ROLLOFF: i64 = 429496730;

/// Bound kept on every tap of the pink noise filter bank. The leakiest tap
/// decays by a factor just under one while absorbing at most a twentieth of
/// a unit per draw, so fifty units hold it.
pub const PINK_STATE_BOUND: i64 = 214748364800;

/// Bound on the pink noise output: the average of seven bounded taps and a
/// fraction of the draw.
pub const PINK_VAL_BOUND: i64 = 219043332096;

/// The pink filter bank coefficients, in fixed point: each tap decays by
/// `C` and absorbs `W` of the fresh draw.
pub const PINK_C0: i64 = 4290071033;

pub const PINK_W0: i64 = 238447565;

pub const PINK_C1: i64 = 4266276914;

pub const PINK_W1: i64 = 322448535;

pub const PINK_C2: i64 = 4161823310;

pub const PINK_W2: i64 = 660789308;

pub const PINK_C3: i64 = 3721589162;

pub const PINK_W3: i64 = 1333525498;

pub const PINK_C4: i64 = 2362232013;

pub const PINK_W4: i64 = 2289012269;

/// The fifth tap's decay is negative; its magnitude is stored.
pub const PINK_C5_ABS: i64 = 3271047093;

pub const PINK_W5: i64 = 72576357;

/// The fresh draw's direct contribution to the published value.
pub const PINK_W_OUT: i64 = 2302961464;

/// The fresh draw's contribution to the held seventh tap.
pub const PINK_W_NEXT: i64 = 497898379;

#[verifier::external_type_specification]
#[verifier::external_body]
pub struct ExStdRng(rand::rngs::StdRng);

/// Relies on rand's `SeedableRng::seed_from_u64` for `StdRng`: builds an
/// owned generator from a seed. Nothing is assumed of the values it will
/// produce.
#[verifier::external_body]
fn new_rng(seed: u64) -> rand::rngs::StdRng {
    rand::SeedableRng::seed_from_u64(seed)
}

/// Relies on rand's `Rng::gen_range` on `i64` with a half-open range: the
/// draw lies in `[lo, hi)`. Nothing else is assumed of it.
#[verifier::external_body]
fn gen_range_i64(rng: &mut rand::rngs::StdRng, lo: i64, hi: i64) -> (r: i64)
    requires
        lo < hi,
    ensures
        lo <= r < hi,
{
    rand::Rng::gen_range(rng, lo..hi)
}

/// The clocking phase shared by every noise variant: random draws are
/// locked to wraps of `2 * frequency * t` reduced to one cycle.
pub open spec fn noise_phase(freq: Envelope, t: int) -> int {
    phase_frac_spec(2 * freq.value_spec(t), t)
}

/// One step of the brown random walk: the held value moves by the rolloff
/// fraction of the draw and is kept inside one unit either way.
pub open spec fn brown_step_spec(curr: int, rolloff: int, w: int) -> int {
    clamp_spec(curr + div_trunc(w * rolloff, FX_ONE as int), -(FX_ONE as int), FX_ONE as int)
}

/// One update of a pink filter tap: decay the tap by `c` and absorb `wc`
/// of the fresh draw.
pub open spec fn pink_tap_spec(b: int, c: int, w: int, wc: int) -> int {
    div_trunc(b * c, FX_ONE as int) + div_trunc(w * wc, FX_ONE as int)
}

/// The published pink value: the average of the updated taps, the held
/// seventh tap, and the draw's direct share.
pub open spec fn pink_out_spec(
    b0: int,
    b1: int,
    b2: int,
    b3: int,
    b4: int,
    b5: int,
    b6: int,
    w: int,
) -> int {
    div_trunc(b0 + b1 + b2 + b3 + b4 + b5 + b6 + div_trunc(w * PINK_W_OUT, FX_ONE as int), 7)
}

/// Uniform white noise, held and interpolated between phase wraps.
pub struct WhiteNoise {
    pub freq: Envelope,
    pub rng: rand::rngs::StdRng,
    pub prev_phase: u64,
    pub prev_random: i64,
    pub curr_random: i64,
}

/// How one pull at time `t` moves a white generator: the phase is
/// re-tracked, and on a wrap the held pair shifts and a fresh uniform
/// draw comes in; otherwise the whole state, generator included, is
/// untouched.
pub open spec fn white_advance_spec(pre: WhiteNoise, post: WhiteNoise, t: int) -> bool {
    let p = noise_phase(pre.freq, t);
    &&& post.freq == pre.freq
    &&& post.prev_phase == p
    &&& (p < pre.prev_phase ==> post.prev_random == pre.curr_random && -FX_ONE
        <= post.curr_random < FX_ONE)
    &&& (p >= pre.prev_phase ==> post.prev_random == pre.prev_random && post.curr_random
        == pre.curr_random && post.rng == pre.rng)
}

impl WhiteNoise {
    pub open spec fn wf(&self) -> bool {
        &&& self.freq.wf()
        &&& self.prev_phase < FX_ONE_U
        &&& -FX_ONE <= self.prev_random <= FX_ONE
        &&& -FX_ONE <= self.curr_random <= FX_ONE
    }

    /// A white noise source clocked by the given frequency envelope,
    /// drawing from a generator seeded with `seed`.
    pub fn new(freq: Envelope, seed: u64) -> (r: WhiteNoise)
        requires
            freq.wf(),
        ensures
            r.wf(),
            r.freq == freq,
            r.prev_phase == 0,
            r.prev_random == 0,
            r.curr_random == 0,
    {
        WhiteNoise { freq, rng: new_rng(seed), prev_phase: 0, prev_random: 0, curr_random: 0 }
    }

    /// A white noise source at one fixed frequency.
    pub fn new_simple(freq: i64, seed: u64) -> (r: Option<WhiteNoise>)
        ensures
            match r {
                Some(n) => 0 < freq <= VAL_LIMIT && n.wf() && crate::waveform::constant_env(
                    n.freq,
                    freq,
                ) && n.freq.duration_spec() == MAX_TIME_FX && n.prev_phase == 0 && n.prev_random
                    == 0 && n.curr_random == 0,
                None => !(0 < freq <= VAL_LIMIT),
            },
    {
        if freq <= 0 || freq > VAL_LIMIT {
            None
        } else {
            Some(WhiteNoise::new(Envelope::from_constant(freq), seed))
        }
    }

    /// The next sample: on a phase wrap the held pair shifts and a fresh
    /// uniform draw comes in; the published sample always interpolates
    /// between the two held draws.
    pub fn next_value(&mut self, t: u64) -> (r: i64)
        requires
            old(self).wf(),
            t <= MAX_TIME_FX,
        ensures
            ({
                let pre = *old(self);
                let post = *final(self);
                let p = noise_phase(pre.freq, t as int);
                &&& post.wf()
                &&& white_advance_spec(pre, post, t as int)
                &&& r == lerp_fx_spec(post.prev_random as int, post.curr_random as int, p)
                &&& (post.prev_random <= post.curr_random ==> post.prev_random <= r
                    <= post.curr_random)
                &&& (post.curr_random <= post.prev_random ==> post.curr_random <= r
                    <= post.prev_random)
            }),
            -FX_ONE <= r <= FX_ONE,
    {
        let f = self.freq.value(t);
        let p = phase_frac_fx(2 * f, t);
        if p < self.prev_phase {
            self.prev_random = self.curr_random;
            self.curr_random = gen_range_i64(&mut self.rng, -FX_ONE, FX_ONE);
        }
        self.prev_phase = p;
        lerp_fx(self.prev_random, self.curr_random, p)
    }

    /// The duration this source can cover: its frequency envelope's.
    pub fn duration(&self) -> (r: u64)
        requires
            self.wf(),
        ensures
            r == self.freq.duration_spec(),
    {
        self.freq.duration()
    }
}

/// Brown noise: a bounded random walk, held and interpolated between
/// phase wraps.
pub struct BrownNoise {
    pub freq: Envelope,
    pub rng: rand::rngs::StdRng,
    pub prev_phase: u64,
    pub prev_random: i64,
    pub curr_random: i64,
    pub rolloff: i64,
    pub last_draw: Ghost<i64>,
}

/// How one pull at time `t` moves a brown generator: on a wrap the held
/// pair shifts and the walk takes one clamped rolloff step of the draw
/// recorded in `last_draw`; otherwise the whole state is untouched.
pub open spec fn brown_advance_spec(pre: BrownNoise, post: BrownNoise, t: int) -> bool {
    let p = noise_phase(pre.freq, t);
    &&& post.freq == pre.freq
    &&& post.rolloff == pre.rolloff
    &&& post.prev_phase == p
    &&& (p < pre.prev_phase ==> post.prev_random == pre.curr_random && -FX_ONE
        <= post.last_draw@ < FX_ONE && post.curr_random == brown_step_spec(
        pre.curr_random as int,
        pre.rolloff as int,
        post.last_draw@ as int,
    ))
    &&& (p >= pre.prev_phase ==> post.prev_random == pre.prev_random && post.curr_random
        == pre.curr_random && post.rng == pre.rng && post.last_draw == pre.last_draw)
}

impl BrownNoise {
    pub open spec fn wf(&self) -> bool {
        &&& self.freq.wf()
        &&& self.prev_phase < FX_ONE_U
        &&& -FX_ONE <= self.prev_random <= FX_ONE
        &&& -FX_ONE <= self.curr_random <= FX_ONE
        &&& 0 < self.rolloff < FX_ONE
    }

    /// A brown noise source with an explicit rolloff fraction, which must
    /// lie strictly between zero and one.
    pub fn new(freq: Envelope, rolloff: i64, seed: u64) -> (r: Option<BrownNoise>)
        requires
            freq.wf(),
        ensures
            match r {
                Some(n) => {
                    &&& 0 < rolloff < FX_ONE
                    &&& n.wf()
                    &&& n.freq == freq
                    &&& n.rolloff == rolloff
                    &&& n.prev_phase == 0
                    &&& n.prev_random == 0
                    &&& n.curr_random == 0
                },
                None => !(0 < rolloff < FX_ONE),
            },
    {
        if rolloff <= 0 || rolloff >= FX_ONE {
            None
        } else {
            Some(
                BrownNoise {
                    freq,
                    rng: new_rng(seed),
                    prev_phase: 0,
                    prev_random: 0,
                    curr_random: 0,
                    rolloff,
                    last_draw: Ghost(0),
                },
            )
        }
    }

    /// A brown noise source with the default rolloff.
    pub fn default(freq: Envelope, seed: u64) -> (r: BrownNoise)
        requires
            freq.wf(),
        ensures
            r.wf(),
            r.freq == freq,
            r.rolloff == DEFAULT_ROLLOFF,
            r.prev_phase == 0,
            r.prev_random == 0,
            r.curr_random == 0,
    {
        BrownNoise {
            freq,
            rng: new_rng(seed),
            prev_phase: 0,
            prev_random: 0,
            curr_random: 0,
            rolloff: DEFAULT_ROLLOFF,
            last_draw: Ghost(0),
        }
    }

    /// The next sample of the walk. Every published sample stays within
    /// one unit of zero, whatever the generator draws.
    pub fn next_value(&mut self, t: u64) -> (r: i64)
        requires
            old(self).wf(),
            t <= MAX_TIME_FX,
        ensures
            ({
                let pre = *old(self);
                let post = *final(self);
                let p = noise_phase(pre.freq, t as int);
                &&& post.wf()
                &&& brown_advance_spec(pre, post, t as int)
                &&& r == lerp_fx_spec(post.prev_random as int, post.curr_random as int, p)
                &&& (post.prev_random <= post.curr_random ==> post.prev_random <= r
                    <= post.curr_random)
                &&& (post.curr_random <= post.prev_random ==> post.curr_random <= r
                    <= post.prev_random)
            }),
            -FX_ONE <= r <= FX_ONE,
    {
        let f = self.freq.value(t);
        let p = phase_frac_fx(2 * f, t);
        if p < self.prev_phase {
            self.prev_random = self.curr_random;
            let w = gen_range_i64(&mut self.rng, -FX_ONE, FX_ONE);
            self.last_draw = Ghost(w);
            proof {
                lemma_abs_mul_le(w as int, self.rolloff as int, FX_ONE as int);
                lemma_div_trunc_le(w * self.rolloff, FX_ONE as int, FX_ONE as int);
                assert(vstd::math::abs(w as int) * (self.rolloff as u64) <= i64::MAX * (
                FX_ONE as int)) by (nonlinear_arith)
                    requires
                        vstd::math::abs(w as int) <= FX_ONE as int,
                        0 <= self.rolloff as u64 <= FX_ONE as u64,
                ;
            }
            let step = mul_i_div_u(w, self.rolloff as u64, FX_ONE_U);
            let moved = self.curr_random + step;
            let clamped: i64 = if moved < -FX_ONE {
                -FX_ONE
            } else if moved > FX_ONE {
                FX_ONE
            } else {
                moved
            };
            self.curr_random = clamped;
        }
        self.prev_phase = p;
        lerp_fx(self.prev_random, self.curr_random, p)
    }

    /// The duration this source can cover: its frequency envelope's.
    pub fn duration(&self) -> (r: u64)
        requires
            self.wf(),
        ensures
            r == self.freq.duration_spec(),
    {
        self.freq.duration()
    }
}

/// Pink noise: a seven-tap leaky filter bank over uniform draws, held and
/// interpolated between phase wraps.
pub struct PinkNoise {
    pub freq: Envelope,
    pub rng: rand::rngs::StdRng,
    pub prev_phase: u64,
    pub prev_random: i64,
    pub curr_random: i64,
    pub b0: i64,
    pub b1: i64,
    pub b2: i64,
    pub b3: i64,
    pub b4: i64,
    pub b5: i64,
    pub b6: i64,
    pub last_draw: Ghost<i64>,
}

/// One tap update of the pink filter bank: decay by `c`, absorb `wc` of
/// the draw. The result stays within fifty units as long as
/// `50 c + wc <= 50` holds of the coefficients.
fn pink_tap(b: i64, c: u64, w: i64, wc: u64) -> (r: i64)
    requires
        -PINK_STATE_BOUND <= b <= PINK_STATE_BOUND,
        0 < c <= FX_ONE_U,
        0 < wc <= FX_ONE_U,
        50 * (c as int) + wc <= 50 * (FX_ONE as int),
        -FX_ONE <= w < FX_ONE,
    ensures
        r == pink_tap_spec(b as int, c as int, w as int, wc as int),
        vstd::math::abs(r as int) <= 50 * (c as int) + wc,
{
    proof {
        assert(vstd::math::abs((b * c) as int) <= (50 * (c as int)) * (FX_ONE as int)
            && vstd::math::abs((w * wc) as int) <= (wc as int) * (FX_ONE as int)
            && vstd::math::abs(b as int) * c <= i64::MAX * (FX_ONE as int)
            && vstd::math::abs(w as int) * wc <= i64::MAX * (FX_ONE as int)) by (nonlinear_arith)
            requires
                -PINK_STATE_BOUND <= b <= PINK_STATE_BOUND,
                0 < c <= FX_ONE_U,
                0 < wc <= FX_ONE_U,
                -FX_ONE <= w < FX_ONE,
                PINK_STATE_BOUND == 50 * (FX_ONE as int),
        ;
        lemma_div_trunc_le(b * c, FX_ONE as int, 50 * (c as int));
        lemma_div_trunc_le(w * wc, FX_ONE as int, wc as int);
    }
    mul_i_div_u(b, c, FX_ONE_U) + mul_i_div_u(w, wc, FX_ONE_U)
}

/// The relation between a pink generator's state before and after one
/// phase wrap that absorbed the draw `w`.
pub open spec fn pink_wrap_spec(pre: PinkNoise, post: PinkNoise, w: int) -> bool {
    &&& post.b0 == pink_tap_spec(pre.b0 as int, PINK_C0 as int, w, PINK_W0 as int)
    &&& post.b1 == pink_tap_spec(pre.b1 as int, PINK_C1 as int, w, PINK_W1 as int)
    &&& post.b2 == pink_tap_spec(pre.b2 as int, PINK_C2 as int, w, PINK_W2 as int)
    &&& post.b3 == pink_tap_spec(pre.b3 as int, PINK_C3 as int, w, PINK_W3 as int)
    &&& post.b4 == pink_tap_spec(pre.b4 as int, PINK_C4 as int, w, PINK_W4 as int)
    &&& post.b5 == pink_tap_spec(pre.b5 as int, -(PINK_C5_ABS as int), w, PINK_W5 as int)
    &&& post.b6 == div_trunc(w * PINK_W_NEXT, FX_ONE as int)
    &&& post.curr_random == pink_out_spec(
        post.b0 as int,
        post.b1 as int,
        post.b2 as int,
        post.b3 as int,
        post.b4 as int,
        post.b5 as int,
        pre.b6 as int,
        w,
    )
}

/// How one pull at time `t` moves a pink generator: on a wrap the held
/// pair shifts and the filter bank absorbs the draw recorded in
/// `last_draw`, exactly per `pink_wrap_spec`; otherwise the whole state
/// is untouched.
pub open spec fn pink_advance_spec(pre: PinkNoise, post: PinkNoise, t: int) -> bool {
    let p = noise_phase(pre.freq, t);
    &&& post.freq == pre.freq
    &&& post.prev_phase == p
    &&& (p < pre.prev_phase ==> post.prev_random == pre.curr_random && -FX_ONE
        <= post.last_draw@ < FX_ONE && pink_wrap_spec(pre, post, post.last_draw@ as int))
    &&& (p >= pre.prev_phase ==> post.prev_random == pre.prev_random && post.curr_random
        == pre.curr_random && post.b0 == pre.b0 && post.b1 == pre.b1 && post.b2 == pre.b2
        && post.b3 == pre.b3 && post.b4 == pre.b4 && post.b5 == pre.b5 && post.b6 == pre.b6
        && post.rng == pre.rng && post.last_draw == pre.last_draw)
}

impl PinkNoise {
    pub open spec fn wf(&self) -> bool {
        &&& self.freq.wf()
        &&& self.prev_phase < FX_ONE_U
        &&& -PINK_VAL_BOUND <= self.prev_random <= PINK_VAL_BOUND
        &&& -PINK_VAL_BOUND <= self.curr_random <= PINK_VAL_BOUND
        &&& -PINK_STATE_BOUND <= self.b0 <= PINK_STATE_BOUND
        &&& -PINK_STATE_BOUND <= self.b1 <= PINK_STATE_BOUND
        &&& -PINK_STATE_BOUND <= self.b2 <= PINK_STATE_BOUND
        &&& -PINK_STATE_BOUND <= self.b3 <= PINK_STATE_BOUND
        &&& -PINK_STATE_BOUND <= self.b4 <= PINK_STATE_BOUND
        &&& -PINK_STATE_BOUND <= self.b5 <= PINK_STATE_BOUND
        &&& -PINK_STATE_BOUND <= self.b6 <= PINK_STATE_BOUND
    }

    /// A pink noise source clocked by the given frequency envelope, with a
    /// quiet filter bank.
    pub fn new(freq: Envelope, seed: u64) -> (r: PinkNoise)
        requires
            freq.wf(),
        ensures
            r.wf(),
            r.freq == freq,
            r.prev_phase == 0,
            r.prev_random == 0,
            r.curr_random == 0,
            r.b0 == 0 && r.b1 == 0 && r.b2 == 0 && r.b3 == 0 && r.b4 == 0 && r.b5 == 0 && r.b6
                == 0,
    {
        PinkNoise {
            freq,
            rng: new_rng(seed),
            prev_phase: 0,
            prev_random: 0,
            curr_random: 0,
            b0: 0,
            b1: 0,
            b2: 0,
            b3: 0,
            b4: 0,
            b5: 0,
            b6: 0,
            last_draw: Ghost(0),
        }
    }

    /// A pink noise source at one fixed frequency.
    pub fn new_simple(freq: i64, seed: u64) -> (r: Option<PinkNoise>)
        ensures
            match r {
                Some(n) => 0 < freq <= VAL_LIMIT && n.wf() && crate::waveform::constant_env(
                    n.freq,
                    freq,
                ) && n.freq.duration_spec() == MAX_TIME_FX && n.prev_phase == 0 && n.prev_random
                    == 0 && n.curr_random == 0 && n.b0 == 0 && n.b1 == 0 && n.b2 == 0 && n.b3
                    == 0 && n.b4 == 0 && n.b5 == 0 && n.b6 == 0,
                None => !(0 < freq <= VAL_LIMIT),
            },
    {
        if freq <= 0 || freq > VAL_LIMIT {
            None
        } else {
            Some(PinkNoise::new(Envelope::from_constant(freq), seed))
        }
    }

    /// Decay every tap and absorb its share of the fresh draw, in the
    /// fixed tap order.
    #[verifier::rlimit(50)]
    fn update_taps(&mut self, w: i64)
        requires
            old(self).wf(),
            -FX_ONE <= w < FX_ONE,
        ensures
            ({
                let pre = *old(self);
                let post = *final(self);
                &&& post.freq == pre.freq
                &&& post.prev_phase == pre.prev_phase
                &&& post.prev_random == pre.prev_random
                &&& post.curr_random == pre.curr_random
                &&& post.b6 == pre.b6
                &&& post.last_draw == pre.last_draw
                &&& post.b0 == pink_tap_spec(pre.b0 as int, PINK_C0 as int, w as int, PINK_W0 as int)
                &&& post.b1 == pink_tap_spec(pre.b1 as int, PINK_C1 as int, w as int, PINK_W1 as int)
                &&& post.b2 == pink_tap_spec(pre.b2 as int, PINK_C2 as int, w as int, PINK_W2 as int)
                &&& post.b3 == pink_tap_spec(pre.b3 as int, PINK_C3 as int, w as int, PINK_W3 as int)
                &&& post.b4 == pink_tap_spec(pre.b4 as int, PINK_C4 as int, w as int, PINK_W4 as int)
                &&& post.b5 == pink_tap_spec(
                    pre.b5 as int,
                    -(PINK_C5_ABS as int),
                    w as int,
                    PINK_W5 as int,
                )
                &&& vstd::math::abs(post.b0 as int) <= 50 * (PINK_C0 as int) + PINK_W0
                &&& vstd::math::abs(post.b1 as int) <= 50 * (PINK_C1 as int) + PINK_W1
                &&& vstd::math::abs(post.b2 as int) <= 50 * (PINK_C2 as int) + PINK_W2
                &&& vstd::math::abs(post.b3 as int) <= 50 * (PINK_C3 as int) + PINK_W3
                &&& vstd::math::abs(post.b4 as int) <= 50 * (PINK_C4 as int) + PINK_W4
                &&& vstd::math::abs(post.b5 as int) <= 50 * (PINK_C5_ABS as int) + PINK_W5
            }),
    {
        self.b0 = pink_tap(self.b0, PINK_C0 as u64, w, PINK_W0 as u64);
        self.b1 = pink_tap(self.b1, PINK_C1 as u64, w, PINK_W1 as u64);
        self.b2 = pink_tap(self.b2, PINK_C2 as u64, w, PINK_W2 as u64);
        self.b3 = pink_tap(self.b3, PINK_C3 as u64, w, PINK_W3 as u64);
        self.b4 = pink_tap(self.b4, PINK_C4 as u64, w, PINK_W4 as u64);
        proof {
            lemma_div_trunc_le(self.b5 * PINK_C5_ABS, FX_ONE as int, 50 * (PINK_C5_ABS as int));
            lemma_div_trunc_le(w * PINK_W5, FX_ONE as int, PINK_W5 as int);
            assert(self.b5 * -(PINK_C5_ABS as int) == -(self.b5 * PINK_C5_ABS));
        }
        self.b5 = -mul_i_div_u(self.b5, PINK_C5_ABS as u64, FX_ONE_U) + mul_i_div_u(
            w,
            PINK_W5 as u64,
            FX_ONE_U,
        );
    }

    /// Absorb one fresh draw into the filter bank and publish the averaged
    /// output.
    #[verifier::rlimit(100)]
    #[verifier::spinoff_prover]
    fn absorb(&mut self, w: i64)
        requires
            old(self).wf(),
            -FX_ONE <= w < FX_ONE,
        ensures
            ({
                let pre = *old(self);
                let post = *final(self);
                &&& post.wf()
                &&& post.freq == pre.freq
                &&& post.prev_phase == pre.prev_phase
                &&& post.prev_random == pre.prev_random
                &&& post.last_draw@ == w
                &&& pink_wrap_spec(pre, post, w as int)
            }),
    {
        self.last_draw = Ghost(w);
        self.update_taps(w);
        self.publish(w);
    }

    /// Average the updated taps with the held seventh tap and the draw's
    /// direct share, publish the result, and refill the seventh tap.
    #[verifier::rlimit(50)]
    fn publish(&mut self, w: i64)
        requires
            -FX_ONE <= w < FX_ONE,
            vstd::math::abs(old(self).b0 as int) <= 50 * (PINK_C0 as int) + PINK_W0,
            vstd::math::abs(old(self).b1 as int) <= 50 * (PINK_C1 as int) + PINK_W1,
            vstd::math::abs(old(self).b2 as int) <= 50 * (PINK_C2 as int) + PINK_W2,
            vstd::math::abs(old(self).b3 as int) <= 50 * (PINK_C3 as int) + PINK_W3,
            vstd::math::abs(old(self).b4 as int) <= 50 * (PINK_C4 as int) + PINK_W4,
            vstd::math::abs(old(self).b5 as int) <= 50 * (PINK_C5_ABS as int) + PINK_W5,
            -PINK_STATE_BOUND <= old(self).b6 <= PINK_STATE_BOUND,
        ensures
            ({
                let pre = *old(self);
                let post = *final(self);
                &&& post.freq == pre.freq
                &&& post.prev_phase == pre.prev_phase
                &&& post.prev_random == pre.prev_random
                &&& post.last_draw == pre.last_draw
                &&& post.b0 == pre.b0 && post.b1 == pre.b1 && post.b2 == pre.b2 && post.b3
                    == pre.b3 && post.b4 == pre.b4 && post.b5 == pre.b5
                &&& post.b6 == div_trunc(w * PINK_W_NEXT, FX_ONE as int)
                &&& -PINK_STATE_BOUND <= post.b6 <= PINK_STATE_BOUND
                &&& post.curr_random == pink_out_spec(
                    pre.b0 as int,
                    pre.b1 as int,
                    pre.b2 as int,
                    pre.b3 as int,
                    pre.b4 as int,
                    pre.b5 as int,
                    pre.b6 as int,
                    w as int,
                )
                &&& -PINK_VAL_BOUND <= post.curr_random <= PINK_VAL_BOUND
            }),
    {
        proof {
            lemma_div_trunc_le(w * PINK_W_NEXT, FX_ONE as int, PINK_W_NEXT as int);
            lemma_div_trunc_le(w * PINK_W_OUT, FX_ONE as int, PINK_W_OUT as int);
        }
        let wout = mul_i_div_u(w, PINK_W_OUT as u64, FX_ONE_U);
        let sum = self.b0 + self.b1 + self.b2 + self.b3 + self.b4 + self.b5 + self.b6 + wout;
        proof {
            lemma_div_trunc_le(sum as int, 7, PINK_VAL_BOUND as int);
        }
        let out = crate::fixed::div_trunc_i(sum, 7);
        self.curr_random = out;
        self.b6 = mul_i_div_u(w, PINK_W_NEXT as u64, FX_ONE_U);
    }

    /// The next sample: on a phase wrap the filter bank absorbs one fresh
    /// uniform draw; the published sample interpolates between the two held
    /// outputs and never leaves the bank's proven range.
    pub fn next_value(&mut self, t: u64) -> (r: i64)
        requires
            old(self).wf(),
            t <= MAX_TIME_FX,
        ensures
            ({
                let pre = *old(self);
                let post = *final(self);
                let p = noise_phase(pre.freq, t as int);
                &&& post.wf()
                &&& pink_advance_spec(pre, post, t as int)
                &&& r == lerp_fx_spec(post.prev_random as int, post.curr_random as int, p)
                &&& (post.prev_random <= post.curr_random ==> post.prev_random <= r
                    <= post.curr_random)
                &&& (post.curr_random <= post.prev_random ==> post.curr_random <= r
                    <= post.prev_random)
            }),
            -PINK_VAL_BOUND <= r <= PINK_VAL_BOUND,
    {
        let f = self.freq.value(t);
        let p = phase_frac_fx(2 * f, t);
        if p < self.prev_phase {
            self.prev_random = self.curr_random;
            let w = gen_range_i64(&mut self.rng, -FX_ONE, FX_ONE);
            self.absorb(w);
        }
        self.prev_phase = p;
        lerp_fx(self.prev_random, self.curr_random, p)
    }

    /// The duration this source can cover: its frequency envelope's.
    pub fn duration(&self) -> (r: u64)
        requires
            self.wf(),
        ensures
            r == self.freq.duration_spec(),
    {
        self.freq.duration()
    }
}

/// The tagged union over the stochastic generators.
pub enum NoiseGen {
    White(WhiteNoise),
    Pink(PinkNoise),
    Brown(BrownNoise),
}

/// How one pull at time `t` moves the tagged generator: the variant is
/// kept and its own advance relation holds.
pub open spec fn advance_spec(pre: NoiseGen, post: NoiseGen, t: int) -> bool {
    match (pre, post) {
        (NoiseGen::White(a), NoiseGen::White(b)) => white_advance_spec(a, b, t),
        (NoiseGen::Pink(a), NoiseGen::Pink(b)) => pink_advance_spec(a, b, t),
        (NoiseGen::Brown(a), NoiseGen::Brown(b)) => brown_advance_spec(a, b, t),
        _ => false,
    }
}

/// The value one pull publishes, as a function of the stepped state: the
/// interpolation between the two held draws at the new phase.
pub open spec fn published_spec(pre: NoiseGen, post: NoiseGen, t: int) -> int {
    lerp_fx_spec(
        post.held_prev() as int,
        post.held_curr() as int,
        noise_phase(pre.freq_env(), t),
    )
}

impl NoiseGen {
    pub open spec fn wf(&self) -> bool {
        match self {
            NoiseGen::White(n) => n.wf(),
            NoiseGen::Pink(n) => n.wf(),
            NoiseGen::Brown(n) => n.wf(),
        }
    }

    /// The bound the variant's published samples obey.
    pub open spec fn val_bound(&self) -> int {
        match self {
            NoiseGen::Pink(_) => PINK_VAL_BOUND as int,
            _ => FX_ONE as int,
        }
    }

    pub open spec fn freq_env(&self) -> Envelope {
        match self {
            NoiseGen::White(n) => n.freq,
            NoiseGen::Pink(n) => n.freq,
            NoiseGen::Brown(n) => n.freq,
        }
    }

    /// The older of the two held draws.
    pub open spec fn held_prev(&self) -> i64 {
        match self {
            NoiseGen::White(n) => n.prev_random,
            NoiseGen::Pink(n) => n.prev_random,
            NoiseGen::Brown(n) => n.prev_random,
        }
    }

    /// The newer of the two held draws.
    pub open spec fn held_curr(&self) -> i64 {
        match self {
            NoiseGen::White(n) => n.curr_random,
            NoiseGen::Pink(n) => n.curr_random,
            NoiseGen::Brown(n) => n.curr_random,
        }
    }

    /// The duration the generator can cover: the least duration of the
    /// envelopes it owns (each variant owns one).
    pub open spec fn duration_spec(&self) -> int {
        self.freq_env().duration_spec()
    }

    pub fn duration(&self) -> (r: u64)
        requires
            self.wf(),
        ensures
            r == self.duration_spec(),
    {
        match self {
            NoiseGen::White(n) => n.duration(),
            NoiseGen::Pink(n) => n.duration(),
            NoiseGen::Brown(n) => n.duration(),
        }
    }

    /// The next sample of whichever process this is: the variant's own
    /// advance relation moves the held state, and the published sample is
    /// exactly the interpolation of the stepped state's two held draws.
    pub fn next_value(&mut self, t: u64) -> (r: i64)
        requires
            old(self).wf(),
            t <= MAX_TIME_FX,
        ensures
            ({
                let pre = *old(self);
                let post = *final(self);
                &&& post.wf()
                &&& advance_spec(pre, post, t as int)
                &&& r == published_spec(pre, post, t as int)
                &&& (post.held_prev() <= post.held_curr() ==> post.held_prev() <= r
                    <= post.held_curr())
                &&& (post.held_curr() <= post.held_prev() ==> post.held_curr() <= r
                    <= post.held_prev())
                &&& post.freq_env() == pre.freq_env()
                &&& post.val_bound() == pre.val_bound()
                &&& -pre.val_bound() <= r <= pre.val_bound()
            }),
    {
        match self {
            NoiseGen::White(n) => n.next_value(t),
            NoiseGen::Pink(n) => n.next_value(t),
            NoiseGen::Brown(n) => n.next_value(t),
        }
    }
}

} // verus!
