use vstd::arithmetic::div_mod::{
    lemma_div_by_multiple, lemma_div_is_ordered, lemma_div_pos_is_pos,
    lemma_fundamental_div_mod, lemma_fundamental_div_mod_converse,
    lemma_mod_division_less_than_divisor, lemma_mod_multiples_basic,
};
use vstd::arithmetic::mul::{lemma_mul_nonnegative, lemma_mul_unary_negation};
use vstd::prelude::*;

verus! {

/// One whole unit in the Q32.32 fixed-point encoding used throughout the crate.
pub const FX_ONE: i64 = 4294967296;

/// `FX_ONE` as an unsigned value, for phase and time arithmetic.
pub const FX_ONE_U: u64 = 4294967296;

/// Largest representable span of time (about 12 days), the stand-in for an
/// unbounded envelope stage and the cap on any envelope's total duration.
pub const MAX_TIME_FX: u64 = 4503599627370496;

/// Bound on the endpoints of an envelope segment, wide enough for any
/// amplification percentage that fits the configuration encoding.
pub const VAL_LIMIT: i64 = 72057594037927936;

/// Bound on an envelope's peak amplitude parameter; half the endpoint
/// bound, so that a full sustain punch can still double it.
pub const AMP_LIMIT: i64 = 36028797018963968;

/// Bound on any value an envelope can produce (vibrato can double a segment
/// value, and pink noise overshoots the unit range by a bounded factor).
pub const VAL2_LIMIT: i64 = 144115188075855872;

/// Truncating (round-toward-zero) division, the semantics of the crate's
/// fixed-point scaling operations.
pub open spec fn div_trunc(a: int, b: int) -> int
    recommends
        b > 0,
{
    if a >= 0 {
        a / b
    } else {
        -((-a) / b)
    }
}

/// Fixed-point linear interpolation from `a` to `b` by the fraction `p`.
pub open spec fn lerp_fx_spec(a: int, b: int, p: int) -> int {
    a + div_trunc((b - a) * p, FX_ONE as int)
}

/// Restrict `x` to `[lo, hi]`.
pub open spec fn clamp_spec(x: int, lo: int, hi: int) -> int {
    if x < lo {
        lo
    } else if x > hi {
        hi
    } else {
        x
    }
}

/// The fractional part of the fixed-point product `f * t`, i.e. the
/// accumulated phase reduced to one cycle. Always lies in `[0, FX_ONE)`.
pub open spec fn phase_frac_spec(f: int, t: int) -> int {
    div_trunc(f * t, FX_ONE as int) % (FX_ONE as int)
}

/// Truncating division shrinks magnitudes: `|a / d| <= m` whenever `|a| <= m * d`.
pub proof fn lemma_div_trunc_le(a: int, d: int, m: int)
    requires
        d > 0,
        m >= 0,
        vstd::math::abs(a) <= m * d,
    ensures
        vstd::math::abs(div_trunc(a, d)) <= m,
        a >= 0 ==> div_trunc(a, d) >= 0,
        a <= 0 ==> div_trunc(a, d) <= 0,
{
    if a >= 0 {
        lemma_div_pos_is_pos(a, d);
        lemma_div_is_ordered(a, m * d, d);
        lemma_div_by_multiple(m, d);
    } else {
        lemma_div_pos_is_pos(-a, d);
        lemma_div_is_ordered(-a, m * d, d);
        lemma_div_by_multiple(m, d);
    }
}

/// Scaling by a fraction `t / d` with `t <= d` keeps a product's magnitude
/// within `|a|`, and keeps its sign.
pub proof fn lemma_abs_mul_le(a: int, t: int, d: int)
    requires
        0 <= t <= d,
    ensures
        vstd::math::abs(a * t) <= vstd::math::abs(a) * d,
        a >= 0 ==> a * t >= 0,
        a <= 0 ==> a * t <= 0,
{
    let m = vstd::math::abs(a) as int;
    assert(-(m * d) <= a * t <= m * d && (a >= 0 ==> a * t >= 0) && (a <= 0 ==> a * t <= 0))
        by (nonlinear_arith)
        requires
            0 <= t <= d,
            m == a || m == -a,
            m >= 0,
    ;
}

/// The scaled product `a * t / d` with `t <= d` stays within `[-|a|, |a|]`
/// and keeps the sign of `a`.
pub proof fn lemma_scale_bound(a: int, t: int, d: int)
    requires
        d > 0,
        0 <= t <= d,
    ensures
        vstd::math::abs(div_trunc(a * t, d)) <= vstd::math::abs(a),
        a >= 0 ==> div_trunc(a * t, d) >= 0,
        a <= 0 ==> div_trunc(a * t, d) <= 0,
{
    lemma_abs_mul_le(a, t, d);
    lemma_div_trunc_le(a * t, d, vstd::math::abs(a) as int);
}

/// The phase-locked interpolation law: however the rounding falls, a
/// fixed-point interpolation by a fraction of at most one unit never
/// leaves the interval its two endpoints span.
pub proof fn lemma_lerp_within(a: int, b: int, p: int)
    requires
        0 <= p <= FX_ONE,
    ensures
        a <= b ==> a <= lerp_fx_spec(a, b, p) <= b,
        b <= a ==> b <= lerp_fx_spec(a, b, p) <= a,
{
    lemma_scale_bound(b - a, p, FX_ONE as int);
}

/// `a * b / d` on unsigned operands, computed without overflow through `u128`.
pub fn mul_div_u(a: u64, b: u64, d: u64) -> (r: u64)
    requires
        d > 0,
        a * b / (d as int) <= u64::MAX,
    ensures
        r == a * b / (d as int),
{
    proof {
        assert(a * b <= u64::MAX * u64::MAX) by (nonlinear_arith)
            requires
                a <= u64::MAX,
                b <= u64::MAX,
        ;
    }
    let p: u128 = (a as u128) * (b as u128);
    (p / (d as u128)) as u64
}

/// `a * b / d` with a signed first operand, truncating toward zero.
pub fn mul_i_div_u(a: i64, b: u64, d: u64) -> (r: i64)
    requires
        d > 0,
        a > i64::MIN,
        vstd::math::abs(a as int) * b <= i64::MAX * (d as int),
    ensures
        r == div_trunc(a * b, d as int),
        vstd::math::abs(div_trunc(a * b, d as int)) <= i64::MAX,
{
    proof {
        lemma_div_is_ordered(vstd::math::abs(a as int) * b, i64::MAX * (d as int), d as int);
        lemma_div_by_multiple(i64::MAX as int, d as int);
        lemma_mul_nonnegative(vstd::math::abs(a as int) as int, b as int);
        lemma_div_pos_is_pos(vstd::math::abs(a as int) * b, d as int);
    }
    if a >= 0 {
        let m = mul_div_u(a as u64, b, d);
        proof {
            lemma_mul_nonnegative(a as int, b as int);
        }
        m as i64
    } else {
        let m = mul_div_u((-a) as u64, b, d);
        proof {
            lemma_mul_unary_negation(a as int, b as int);
            assert((-a) * b == -(a * b));
            lemma_mul_nonnegative((-a) as int, b as int);
        }
        -(m as i64)
    }
}

/// `a * b / d` with two signed operands, truncating toward zero.
pub fn mul_ii_div_u(a: i64, b: i64, d: u64) -> (r: i64)
    requires
        d > 0,
        a > i64::MIN,
        b > i64::MIN,
        vstd::math::abs(a as int) * vstd::math::abs(b as int) <= i64::MAX * (d as int),
    ensures
        r == div_trunc(a * b, d as int),
{
    let am: u64 = if a >= 0 {
        a as u64
    } else {
        (-a) as u64
    };
    let bm: u64 = if b >= 0 {
        b as u64
    } else {
        (-b) as u64
    };
    proof {
        lemma_div_is_ordered(am * bm, i64::MAX * (d as int), d as int);
        lemma_div_by_multiple(i64::MAX as int, d as int);
        lemma_mul_nonnegative(am as int, bm as int);
        lemma_div_pos_is_pos(am * bm, d as int);
        assert((a as int) * (b as int) == if (a < 0) != (b < 0) {
            -((am as int) * (bm as int))
        } else {
            (am as int) * (bm as int)
        }) by (nonlinear_arith)
            requires
                am == vstd::math::abs(a as int),
                bm == vstd::math::abs(b as int),
        ;
    }
    let m = mul_div_u(am, bm, d);
    if (a < 0) != (b < 0) {
        -(m as i64)
    } else {
        m as i64
    }
}

/// Truncating division of a signed value by a small positive divisor.
pub fn div_trunc_i(a: i64, d: u64) -> (r: i64)
    requires
        0 < d <= i64::MAX,
        a > i64::MIN,
    ensures
        r == div_trunc(a as int, d as int),
{
    proof {
        if a >= 0 {
            lemma_div_is_ordered(a as int, i64::MAX as int, d as int);
            lemma_div_pos_is_pos(a as int, d as int);
            vstd::arithmetic::div_mod::lemma_div_nonincreasing(a as int, d as int);
        } else {
            lemma_div_pos_is_pos(-a as int, d as int);
            vstd::arithmetic::div_mod::lemma_div_nonincreasing(-a as int, d as int);
        }
    }
    if a >= 0 {
        ((a as u64) / d) as i64
    } else {
        -((((-a) as u64) / d) as i64)
    }
}

/// Reduce a nonnegative phase to `[0, FX_ONE)`.
pub fn frac_u(p: u128) -> (r: u64)
    ensures
        r == (p as int) % (FX_ONE as int),
        r < FX_ONE_U,
{
    proof {
        lemma_mod_division_less_than_divisor(p as int, FX_ONE as int);
    }
    (p % (FX_ONE_U as u128)) as u64
}

/// Reduce the negated phase `-(n)` to `[0, FX_ONE)`, by Euclidean convention.
pub fn frac_neg_u(n: u128) -> (r: u64)
    ensures
        r == (-(n as int)) % (FX_ONE as int),
        r < FX_ONE_U,
{
    let m = (n % (FX_ONE_U as u128)) as u64;
    proof {
        let h = FX_ONE as int;
        lemma_mod_division_less_than_divisor(n as int, h);
        lemma_fundamental_div_mod(n as int, h);
        let q = (n as int) / h;
        if m == 0 {
            lemma_mod_multiples_basic(-q, h);
        } else {
            lemma_fundamental_div_mod_converse(-(n as int), h, -q - 1, h - m);
        }
    }
    if m == 0 {
        0
    } else {
        FX_ONE_U - m
    }
}

/// One cycle's worth of accumulated phase: the fractional part of `f * t`
/// in fixed-point, valid for either sign of `f`.
pub fn phase_frac_fx(f: i64, t: u64) -> (p: u64)
    requires
        vstd::math::abs(f as int) <= VAL2_LIMIT as int * 2,
        t <= MAX_TIME_FX,
    ensures
        p == phase_frac_spec(f as int, t as int),
        p < FX_ONE_U,
{
    let h = FX_ONE_U as u128;
    if f >= 0 {
        proof {
            assert((f as int) * (t as int) <= (2 * VAL2_LIMIT as int) * (MAX_TIME_FX as int))
                by (nonlinear_arith)
                requires
                    0 <= f as int <= 2 * VAL2_LIMIT as int,
                    0 <= t as int <= MAX_TIME_FX as int,
            ;
            lemma_mul_nonnegative(f as int, t as int);
        }
        let m: u128 = (f as u128) * (t as u128);
        proof {
            lemma_div_pos_is_pos(m as int, FX_ONE as int);
        }
        let q: u128 = m / h;
        frac_u(q)
    } else {
        proof {
            assert(((-f) as int) * (t as int) <= (2 * VAL2_LIMIT as int) * (MAX_TIME_FX as int))
                by (nonlinear_arith)
                requires
                    0 <= (-f) as int <= 2 * VAL2_LIMIT as int,
                    0 <= t as int <= MAX_TIME_FX as int,
            ;
            lemma_mul_unary_negation(f as int, t as int);
            lemma_mul_nonnegative((-f) as int, t as int);
        }
        let m: u128 = ((-f) as u128) * (t as u128);
        proof {
            lemma_div_pos_is_pos(m as int, FX_ONE as int);
        }
        let q: u128 = m / h;
        frac_neg_u(q)
    }
}

/// Linear interpolation between two fixed-point values; the result never
/// leaves the interval the endpoints span, whatever the rounding does.
pub fn lerp_fx(a: i64, b: i64, p: u64) -> (r: i64)
    requires
        p <= FX_ONE_U,
        vstd::math::abs(a as int) <= VAL2_LIMIT as int,
        vstd::math::abs(b as int) <= VAL2_LIMIT as int,
    ensures
        r == lerp_fx_spec(a as int, b as int, p as int),
        a <= b ==> a <= r <= b,
        b <= a ==> b <= r <= a,
{
    let d: i64 = b - a;
    proof {
        let dd = (b - a) as int;
        let h = FX_ONE as int;
        assert(vstd::math::abs(dd) * p <= i64::MAX * h) by (nonlinear_arith)
            requires
                0 <= vstd::math::abs(dd) <= i64::MAX,
                0 <= p <= h,
        ;
        lemma_scale_bound(dd, p as int, h);
    }
    let step = mul_i_div_u(d, p, FX_ONE_U);
    a + step
}

} // verus!
