use crate::fixed::{FX_ONE, FX_ONE_U, VAL_LIMIT};
use vstd::arithmetic::div_mod::lemma_div_pos_is_pos;
use vstd::arithmetic::mul::lemma_mul_nonnegative;
use vstd::prelude::*;

verus! {

/// Which side of the cutoff a passband filter keeps.
#[derive(Clone, Copy, PartialEq, Eq, Structural, Debug)]
pub enum PassbandMode {
    LowPass,
    HighPass,
}

/// The spectrum bin the cutoff frequency falls on: the cutoff's share of
/// the sample rate, scaled by the spectrum length and rounded to the
/// nearest bin, never past the end of the spectrum.
pub open spec fn cutoff_index_spec(cutoff_freq: int, sample_rate: int, len: int) -> int {
    let raw = (2 * cutoff_freq * len + sample_rate * FX_ONE) / (2 * sample_rate * FX_ONE);
    if raw > len {
        len
    } else {
        raw
    }
}

/// Whether bin `i` of the spectrum survives the filter: a low pass keeps
/// the bins under the cutoff index, a high pass the rest.
pub open spec fn keep_bin_spec(mode: PassbandMode, cutoff: int, i: int) -> bool {
    match mode {
        PassbandMode::LowPass => i < cutoff,
        PassbandMode::HighPass => i >= cutoff,
    }
}

/// Computes the cutoff bin index.
pub fn cutoff_index(cutoff_freq: u64, sample_rate: u32, len: usize) -> (r: usize)
    requires
        0 < sample_rate,
        cutoff_freq <= VAL_LIMIT,
    ensures
        r == cutoff_index_spec(cutoff_freq as int, sample_rate as int, len as int),
        r <= len,
{
    proof {
        let c = cutoff_freq as int;
        let s = sample_rate as int;
        let l = len as int;
        let h = FX_ONE as int;
        lemma_mul_nonnegative(2 * c, l);
        lemma_mul_nonnegative(s, h);
        assert(2 * c * l + s * h >= 0);
        assert(2 * c * l <= 2 * (VAL_LIMIT as int) * l && s * h <= s * h) by (nonlinear_arith)
            requires
                0 <= c <= VAL_LIMIT as int,
                0 <= l,
        ;
        lemma_div_pos_is_pos(2 * c * l + s * h, 2 * s * h);
        assert(0 < 2 * s * h) by (nonlinear_arith)
            requires
                0 < s,
                0 < h,
        ;
    }
    let num: u128 = 2 * (cutoff_freq as u128) * (len as u128) + (sample_rate as u128) * (
    FX_ONE_U as u128);
    let den: u128 = 2 * (sample_rate as u128) * (FX_ONE_U as u128);
    let raw: u128 = num / den;
    if raw > len as u128 {
        len
    } else {
        raw as usize
    }
}

/// The per-bin keep decision of a whole spectrum: entry `i` says whether
/// bin `i` survives; the caller zeroes the rest.
pub fn passband_mask(len: usize, cutoff: usize, mode: PassbandMode) -> (r: Vec<bool>)
    ensures
        r@.len() == len,
        forall|i: int| 0 <= i < len ==> r@[i] == keep_bin_spec(mode, cutoff as int, i),
{
    let mut mask: Vec<bool> = Vec::new();
    let mut i: usize = 0;
    while i < len
        invariant
            i <= len,
            mask@.len() == i,
            forall|j: int| 0 <= j < i ==> mask@[j] == keep_bin_spec(mode, cutoff as int, j),
        decreases len - i,
    {
        let keep = match mode {
            PassbandMode::LowPass => i < cutoff,
            PassbandMode::HighPass => i >= cutoff,
        };
        mask.push(keep);
        i = i + 1;
    }
    mask
}

/// A cutoff frequency of zero maps to the zeroth bin.
pub proof fn lemma_zero_cutoff_index(sample_rate: int, len: int)
    requires
        0 < sample_rate,
        0 <= len,
    ensures
        cutoff_index_spec(0, sample_rate, len) == 0,
{
    let h = FX_ONE as int;
    assert(2 * 0 * len == 0) by (nonlinear_arith);
    assert(0 < sample_rate * h && sample_rate * h < 2 * sample_rate * h) by (nonlinear_arith)
        requires
            0 < sample_rate,
            0 < h,
    ;
    vstd::arithmetic::div_mod::lemma_basic_div(sample_rate * h, 2 * sample_rate * h);
}

/// The passband boundary at a cutoff of zero: a high pass keeps every bin
/// (the filter is the identity on the spectrum), a low pass keeps none
/// (the filtered signal is silence).
pub proof fn lemma_passband_boundary(i: int)
    requires
        0 <= i,
    ensures
        keep_bin_spec(PassbandMode::HighPass, 0, i),
        !keep_bin_spec(PassbandMode::LowPass, 0, i),
{
}

} // verus!
