use crate::fixed::{clamp_spec, div_trunc, FX_ONE, FX_ONE_U};
use vstd::arithmetic::div_mod::{
    lemma_div_is_ordered, lemma_div_multiples_vanish, lemma_div_pos_is_pos,
    lemma_mod_sub_multiples_vanish, lemma_small_mod,
};
use vstd::arithmetic::mul::lemma_mul_nonnegative;
use vstd::prelude::*;

verus! {

/// Half a cycle in fixed-point phase units.
pub const FX_HALF: u64 = 2147483648;

/// A quarter cycle in fixed-point phase units.
pub const FX_QUARTER: u64 = 1073741824;

/// `sin(pi * h / FX_ONE)` for `h` in `[0, FX_ONE]`, scaled so that a full
/// unit stands for 1. This is the rational approximation
/// `16 z (1 - z) / (5 - 4 z (1 - z))` with `z = h / FX_ONE`; it is exact at
/// `0`, `1/2` and `1` and stays within about `0.0016` of the true sine.
pub open spec fn sine_half_spec(h: int) -> int {
    let x = h * (FX_ONE - h);
    (16 * x * FX_ONE) / (5 * FX_ONE * FX_ONE - 4 * x)
}

/// `sin(2 * pi * p / FX_ONE)` for a phase fraction `p` in `[0, FX_ONE)`,
/// scaled to `[-FX_ONE, FX_ONE]`.
pub open spec fn sine_turn_spec(p: int) -> int {
    if p < FX_HALF {
        sine_half_spec(2 * p)
    } else {
        -sine_half_spec(2 * p - FX_ONE)
    }
}

/// `cos(2 * pi * p / FX_ONE)` for a phase fraction `p` in `[0, FX_ONE)`.
pub open spec fn cosine_turn_spec(p: int) -> int {
    sine_turn_spec((p + FX_QUARTER) % (FX_ONE as int))
}

/// `tan(pi * p / FX_ONE) / (cutoff / FX_ONE)`, clamped to one unit either
/// way, for a phase fraction `p` in `[0, FX_ONE)` and a positive `cutoff`.
/// Where the cosine factor vanishes the true tangent blows up, so the
/// clamped ceiling is returned outright.
pub open spec fn tangent_spec(p: int, cutoff: int) -> int {
    let s = sine_half_spec(p);
    if p <= FX_HALF {
        let c = sine_half_spec(p + FX_HALF);
        if c == 0 {
            FX_ONE as int
        } else {
            clamp_spec(div_trunc(s * FX_ONE * FX_ONE, c * cutoff), -(FX_ONE as int), FX_ONE as int)
        }
    } else {
        let c = sine_half_spec(p - FX_HALF);
        if c == 0 {
            -(FX_ONE as int)
        } else {
            clamp_spec(-div_trunc(s * FX_ONE * FX_ONE, c * cutoff), -(FX_ONE as int), FX_ONE as int)
        }
    }
}

/// The product `h * (FX_ONE - h)` never exceeds a quarter of `FX_ONE`
/// squared, which keeps the approximation's denominator positive.
proof fn lemma_arch_bound(h: int)
    requires
        0 <= h <= FX_ONE as int,
    ensures
        0 <= h * (FX_ONE - h),
        4 * (h * (FX_ONE - h)) <= FX_ONE * FX_ONE,
{
    assert(0 <= h * (FX_ONE as int - h) && 4 * (h * (FX_ONE as int - h)) <= FX_ONE as int
        * FX_ONE as int) by (nonlinear_arith)
        requires
            0 <= h <= FX_ONE as int,
    ;
}

/// The approximation stays within `[0, FX_ONE]` on its half-cycle domain.
pub proof fn lemma_sine_half_bounds(h: int)
    requires
        0 <= h <= FX_ONE as int,
    ensures
        0 <= sine_half_spec(h) <= FX_ONE as int,
{
    let x = h * (FX_ONE - h);
    let num = 16 * x * FX_ONE;
    let den = 5 * FX_ONE * FX_ONE - 4 * x;
    lemma_arch_bound(h);
    assert(num >= 0 && den > 0 && num <= den * FX_ONE) by (nonlinear_arith)
        requires
            x >= 0,
            4 * x <= FX_ONE as int * FX_ONE as int,
            num == 16 * x * FX_ONE as int,
            den == 5 * FX_ONE as int * FX_ONE as int - 4 * x,
    ;
    lemma_div_pos_is_pos(num, den);
    lemma_div_is_ordered(num, den * FX_ONE as int, den);
    lemma_div_multiples_vanish(FX_ONE as int, den);
}

/// The full-cycle sine stays within one unit either way.
pub proof fn lemma_sine_turn_bounds(p: int)
    requires
        0 <= p < FX_ONE as int,
    ensures
        -(FX_ONE as int) <= sine_turn_spec(p) <= FX_ONE as int,
{
    if p < FX_HALF {
        lemma_sine_half_bounds(2 * p);
    } else {
        lemma_sine_half_bounds(2 * p - FX_ONE);
    }
}

/// Fixed-point `sin(pi * h / FX_ONE)` over half a cycle.
pub fn sine_half(h: u64) -> (r: u64)
    requires
        h <= FX_ONE_U,
    ensures
        r == sine_half_spec(h as int),
        r <= FX_ONE_U,
{
    proof {
        lemma_arch_bound(h as int);
        lemma_sine_half_bounds(h as int);
    }
    let x: u128 = (h as u128) * ((FX_ONE_U - h) as u128);
    let num: u128 = 16 * x * (FX_ONE_U as u128);
    let den: u128 = 5 * (FX_ONE_U as u128) * (FX_ONE_U as u128) - 4 * x;
    (num / den) as u64
}

/// Fixed-point sine of a full-cycle phase fraction.
pub fn sine_turn(p: u64) -> (r: i64)
    requires
        p < FX_ONE_U,
    ensures
        r == sine_turn_spec(p as int),
        -FX_ONE <= r <= FX_ONE,
{
    if p < FX_HALF {
        let s = sine_half(2 * p);
        s as i64
    } else {
        let s = sine_half(2 * p - FX_ONE_U);
        -(s as i64)
    }
}

/// Fixed-point cosine of a full-cycle phase fraction.
pub fn cosine_turn(p: u64) -> (r: i64)
    requires
        p < FX_ONE_U,
    ensures
        r == cosine_turn_spec(p as int),
        -FX_ONE <= r <= FX_ONE,
{
    let q: u64 = if p >= FX_ONE_U - FX_QUARTER {
        p + FX_QUARTER - FX_ONE_U
    } else {
        p + FX_QUARTER
    };
    proof {
        if p >= FX_ONE_U - FX_QUARTER {
            lemma_mod_sub_multiples_vanish((p + FX_QUARTER) as int, FX_ONE as int);
            lemma_small_mod((p + FX_QUARTER - FX_ONE_U) as nat, FX_ONE_U as nat);
        } else {
            lemma_small_mod((p + FX_QUARTER) as nat, FX_ONE_U as nat);
        }
        lemma_sine_turn_bounds(q as int);
    }
    sine_turn(q)
}

/// Fixed-point clamped tangent: `tan(pi * p / FX_ONE)` divided by the
/// cutoff fraction and clamped to one unit either way.
pub fn tangent_fx(p: u64, cutoff: i64) -> (r: i64)
    requires
        p < FX_ONE_U,
        0 < cutoff,
    ensures
        r == tangent_spec(p as int, cutoff as int),
        -FX_ONE <= r <= FX_ONE,
{
    let s = sine_half(p);
    let cpos = p <= FX_HALF;
    let c: u64 = if cpos {
        sine_half(p + FX_HALF)
    } else {
        sine_half(p - FX_HALF)
    };
    if c == 0 {
        if cpos {
            FX_ONE
        } else {
            -FX_ONE
        }
    } else {
        proof {
            lemma_mul_nonnegative(s as int, FX_ONE as int);
            lemma_mul_nonnegative(s as int * FX_ONE as int, FX_ONE as int);
            assert(0 < c as int * cutoff as int <= u64::MAX as int * i64::MAX as int)
                by (nonlinear_arith)
                requires
                    0 < c as int <= u64::MAX as int,
                    0 < cutoff as int <= i64::MAX as int,
            ;
            lemma_div_pos_is_pos(s as int * FX_ONE * FX_ONE, c as int * cutoff as int);
        }
        let num: u128 = (s as u128) * (FX_ONE_U as u128) * (FX_ONE_U as u128);
        let den: u128 = (c as u128) * (cutoff as u128);
        let q: u128 = num / den;
        let qc: i64 = if q >= FX_ONE_U as u128 {
            FX_ONE
        } else {
            q as i64
        };
        if cpos {
            qc
        } else {
            -qc
        }
    }
}

} // verus!
