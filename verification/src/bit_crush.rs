use crate::fixed::{clamp_spec, FX_ONE};
use crate::synth::{active_at, Stream};
use vstd::arithmetic::div_mod::{
    lemma_div_by_multiple, lemma_div_pos_is_pos, lemma_fundamental_div_mod,
};
use vstd::prelude::*;

verus! {

/// The quantization step between two kept sixteen-bit levels, i.e. one
/// sixteen-bit level expressed in fixed point.
pub const CRUSH_STEP: u64 = 131072;

/// A bit depth between one and sixteen bits, the parameter of the
/// bit-crushing quantizer.
#[derive(Clone, Copy, PartialEq, Eq, Structural, Debug)]
pub enum BitCrush {
    B1,
    B2,
    B3,
    B4,
    B5,
    B6,
    B7,
    B8,
    B9,
    B10,
    B11,
    B12,
    B13,
    B14,
    B15,
    B16,
}

/// The bit depth a variant stands for.
pub open spec fn bits_of(b: BitCrush) -> int {
    match b {
        BitCrush::B1 => 1,
        BitCrush::B2 => 2,
        BitCrush::B3 => 3,
        BitCrush::B4 => 4,
        BitCrush::B5 => 5,
        BitCrush::B6 => 6,
        BitCrush::B7 => 7,
        BitCrush::B8 => 8,
        BitCrush::B9 => 9,
        BitCrush::B10 => 10,
        BitCrush::B11 => 11,
        BitCrush::B12 => 12,
        BitCrush::B13 => 13,
        BitCrush::B14 => 14,
        BitCrush::B15 => 15,
        BitCrush::B16 => 16,
    }
}

/// The spacing of the kept levels on the fifteen-bit magnitude grid: one
/// for the two full depths, doubling for each dropped bit.
pub open spec fn divisor_spec(b: BitCrush) -> int {
    match b {
        BitCrush::B1 => 16384,
        BitCrush::B2 => 8192,
        BitCrush::B3 => 4096,
        BitCrush::B4 => 2048,
        BitCrush::B5 => 1024,
        BitCrush::B6 => 512,
        BitCrush::B7 => 256,
        BitCrush::B8 => 128,
        BitCrush::B9 => 64,
        BitCrush::B10 => 32,
        BitCrush::B11 => 16,
        BitCrush::B12 => 8,
        BitCrush::B13 => 4,
        BitCrush::B14 => 2,
        BitCrush::B15 => 1,
        BitCrush::B16 => 1,
    }
}

/// One crushed sample: clamp to one unit either way, quantize the
/// magnitude to the sixteen-bit grid, drop the low-order levels the depth
/// cannot represent, and scale back — symmetrically around an exact zero.
pub open spec fn crush_spec(sample: int, b: BitCrush) -> int {
    let x = clamp_spec(sample, -(FX_ONE as int), FX_ONE as int);
    let m0 = vstd::math::abs(x) as int / (CRUSH_STEP as int);
    let m = if m0 > 32767 {
        32767
    } else {
        m0
    };
    let q = (m / divisor_spec(b)) * divisor_spec(b);
    if x < 0 {
        -(q * (CRUSH_STEP as int))
    } else {
        q * (CRUSH_STEP as int)
    }
}

/// Masking a fifteen-bit magnitude with the high-bit mask of spacing `d`
/// equals flooring it to a multiple of `d`.
proof fn lemma_mask_quantize(m: u16, d: u16, mask: u16)
    requires
        m < 0x8000,
        d == 1 || d == 2 || d == 4 || d == 8 || d == 16 || d == 32 || d == 64 || d == 128 || d
            == 256 || d == 512 || d == 1024 || d == 2048 || d == 4096 || d == 8192 || d == 16384,
        mask + d == 0x8000,
    ensures
        (m & mask) == (m / d) * d,
{
    assert((m & mask) == (m / d) * d) by (bit_vector)
        requires
            m < 0x8000,
            d == 1 || d == 2 || d == 4 || d == 8 || d == 16 || d == 32 || d == 64 || d == 128
                || d == 256 || d == 512 || d == 1024 || d == 2048 || d == 4096 || d == 8192 || d
                == 16384,
            mask + d == 0x8000,
    ;
}

impl BitCrush {
    /// Picks the depth; anything outside one to sixteen bits is refused.
    pub fn new(bits: usize) -> (r: Option<BitCrush>)
        ensures
            match r {
                Some(b) => 1 <= bits <= 16 && bits_of(b) == bits,
                None => !(1 <= bits <= 16),
            },
    {
        match bits {
            1 => Some(BitCrush::B1),
            2 => Some(BitCrush::B2),
            3 => Some(BitCrush::B3),
            4 => Some(BitCrush::B4),
            5 => Some(BitCrush::B5),
            6 => Some(BitCrush::B6),
            7 => Some(BitCrush::B7),
            8 => Some(BitCrush::B8),
            9 => Some(BitCrush::B9),
            10 => Some(BitCrush::B10),
            11 => Some(BitCrush::B11),
            12 => Some(BitCrush::B12),
            13 => Some(BitCrush::B13),
            14 => Some(BitCrush::B14),
            15 => Some(BitCrush::B15),
            16 => Some(BitCrush::B16),
            _ => None,
        }
    }

    /// The sixteen-bit mask of the kept high-order magnitude bits. The
    /// full depth keeps every bit and needs no mask.
    pub fn mask(&self) -> (r: i16)
        requires
            !(*self is B16),
        ensures
            r == 32767 - (divisor_spec(*self) - 1),
            0 < r <= 32767,
    {
        match self {
            BitCrush::B1 => 0b0100000000000000,
            BitCrush::B2 => 0b0110000000000000,
            BitCrush::B3 => 0b0111000000000000,
            BitCrush::B4 => 0b0111100000000000,
            BitCrush::B5 => 0b0111110000000000,
            BitCrush::B6 => 0b0111111000000000,
            BitCrush::B7 => 0b0111111100000000,
            BitCrush::B8 => 0b0111111110000000,
            BitCrush::B9 => 0b0111111111000000,
            BitCrush::B10 => 0b0111111111100000,
            BitCrush::B11 => 0b0111111111110000,
            BitCrush::B12 => 0b0111111111111000,
            BitCrush::B13 => 0b0111111111111100,
            BitCrush::B14 => 0b0111111111111110,
            BitCrush::B15 => 0b0111111111111111,
            BitCrush::B16 => 0,
        }
    }

    /// The level spacing as a runtime value.
    fn divisor(&self) -> (d: u64)
        ensures
            d == divisor_spec(*self),
            1 <= d <= 16384,
    {
        match self {
            BitCrush::B1 => 16384,
            BitCrush::B2 => 8192,
            BitCrush::B3 => 4096,
            BitCrush::B4 => 2048,
            BitCrush::B5 => 1024,
            BitCrush::B6 => 512,
            BitCrush::B7 => 256,
            BitCrush::B8 => 128,
            BitCrush::B9 => 64,
            BitCrush::B10 => 32,
            BitCrush::B11 => 16,
            BitCrush::B12 => 8,
            BitCrush::B13 => 4,
            BitCrush::B14 => 2,
            BitCrush::B15 => 1,
            BitCrush::B16 => 1,
        }
    }

    /// Crushes one sample, applying the depth's mask to the quantized
    /// magnitude exactly as the mask table writes it.
    pub fn crush(&self, sample: i64) -> (r: i64)
        ensures
            r == crush_spec(sample as int, *self),
            -FX_ONE <= r <= FX_ONE,
    {
        let x: i64 = if sample < -FX_ONE {
            -FX_ONE
        } else if sample > FX_ONE {
            FX_ONE
        } else {
            sample
        };
        let neg = x < 0;
        let mag: u64 = if neg {
            (-x) as u64
        } else {
            x as u64
        };
        let m0: u64 = mag / CRUSH_STEP;
        let m16: u64 = if m0 > 32767 {
            32767
        } else {
            m0
        };
        let q: u64 = match self {
            BitCrush::B16 => m16,
            _ => {
                let mu: u16 = m16 as u16;
                let mk: u16 = self.mask() as u16;
                let masked: u16 = mu & mk;
                proof {
                    lemma_mask_quantize(mu, divisor_spec(*self) as u16, mk);
                    lemma_div_by_multiple_le(m16 as int, divisor_spec(*self));
                }
                masked as u64
            },
        };
        proof {
            if *self is B16 {
                lemma_div_by_multiple(m16 as int, 1);
            }
            lemma_div_by_multiple_le(m16 as int, divisor_spec(*self));
        }
        let out: i64 = (q * CRUSH_STEP) as i64;
        if neg {
            -out
        } else {
            out
        }
    }

    /// Wraps a stream with this depth's quantizer.
    pub fn apply(self, sound: Stream) -> (r: BitCrushedSound)
        requires
            sound.wf(),
        ensures
            r.sound == sound,
            r.bit_mask == self,
            r.wf(),
    {
        BitCrushedSound { sound, bit_mask: self }
    }
}

/// Flooring to a multiple keeps the value's range: `(m / d) * d <= m`.
proof fn lemma_div_by_multiple_le(m: int, d: int)
    requires
        0 <= m,
        0 < d,
    ensures
        0 <= (m / d) * d <= m,
{
    lemma_fundamental_div_mod(m, d);
    lemma_div_pos_is_pos(m, d);
    vstd::arithmetic::mul::lemma_mul_is_commutative(m / d, d);
    vstd::arithmetic::mul::lemma_mul_nonnegative(m / d, d);
}

/// A stream with a bit-crushing quantizer applied to every sample it
/// publishes.
pub struct BitCrushedSound {
    pub sound: Stream,
    pub bit_mask: BitCrush,
}

impl BitCrushedSound {
    pub open spec fn wf(&self) -> bool {
        self.sound.wf()
    }

    /// The duration of the underlying stream.
    pub fn duration(&self) -> (r: u64)
        ensures
            r == self.sound.duration_spec(),
    {
        self.sound.duration()
    }

    /// Pulls one sample from the underlying stream and crushes it; an
    /// exhausted stream stays exhausted.
    pub fn next(&mut self) -> (r: Option<i64>)
        requires
            old(self).wf(),
        ensures
            final(self).wf(),
            final(self).bit_mask == old(self).bit_mask,
            ({
                let pre = old(self).sound;
                let post = final(self).sound;
                &&& (pre is Tone <==> post is Tone)
                &&& post.duration_spec() == pre.duration_spec()
                &&& post.sample_rate_spec() == pre.sample_rate_spec()
                &&& if active_at(pre.clock_spec(), pre.sample_rate_spec(), pre.duration_spec()) {
                    &&& r is Some
                    &&& -FX_ONE <= r->Some_0 <= FX_ONE
                    &&& post.clock_spec() == pre.clock_spec() + 1
                } else {
                    &&& r is None
                    &&& post.clock_spec() == pre.clock_spec()
                }
            }),
            ({
                let pre = old(self).sound;
                pre matches Stream::Tone(sy) ==> (active_at(
                    sy.k as int,
                    sy.sample_rate as int,
                    sy.duration as int,
                ) ==> r is Some && r->Some_0 == crush_spec(
                    sy.sample_spec(sy.k as int),
                    old(self).bit_mask,
                ))
            }),
            ({
                let pre = old(self).sound;
                pre matches Stream::Noise(nz) ==> {
                    &&& final(self).sound matches Stream::Noise(nz2)
                    &&& (active_at(nz.k as int, nz.sample_rate as int, nz.duration as int)
                        ==> ({
                        let t = crate::synth::time_of(nz.k as int, nz.sample_rate as int);
                        &&& crate::noise::advance_spec(nz.waveform, nz2.waveform, t)
                        &&& r is Some
                        &&& r->Some_0 == crush_spec(
                            crate::fixed::div_trunc(
                                crate::noise::published_spec(nz.waveform, nz2.waveform, t)
                                    * nz.envelope.value_spec(t),
                                FX_ONE as int,
                            ),
                            old(self).bit_mask,
                        )
                    }))
                }
            }),
    {
        match self.sound.next() {
            Some(sample) => Some(self.bit_mask.crush(sample)),
            None => None,
        }
    }
}

/// Crushing is idempotent: a crushed sample passes through a second crush
/// at the same depth unchanged.
pub proof fn lemma_crush_idempotent(sample: int, b: BitCrush)
    ensures
        crush_spec(crush_spec(sample, b), b) == crush_spec(sample, b),
{
    let h = FX_ONE as int;
    let step = CRUSH_STEP as int;
    let d = divisor_spec(b);
    let x = clamp_spec(sample, -h, h);
    let m0 = vstd::math::abs(x) as int / step;
    let m = if m0 > 32767 {
        32767
    } else {
        m0
    };
    lemma_div_pos_is_pos(vstd::math::abs(x) as int, step);
    let q = (m / d) * d;
    lemma_div_by_multiple_le(m, d);
    let r1 = crush_spec(sample, b);
    assert(q * step <= 32767 * step) by (nonlinear_arith)
        requires
            0 <= q <= 32767,
            step > 0,
    ;
    vstd::arithmetic::mul::lemma_mul_nonnegative(q, step);
    let x2 = clamp_spec(r1, -h, h);
    assert(x2 == r1);
    lemma_div_by_multiple(q, step);
    assert((q * step) / step == q);
    let m2 = vstd::math::abs(x2) as int / step;
    assert(m2 == q);
    lemma_div_by_multiple(m / d, d);
    assert((q / d) * d == q) by {
        assert(((m / d) * d) / d == m / d);
    }
    if x < 0 {
        assert(r1 == -(q * step));
        if q == 0 {
            assert(crush_spec(r1, b) == 0);
        } else {
            assert(x2 < 0) by (nonlinear_arith)
                requires
                    x2 == -(q * step),
                    q > 0,
                    step > 0,
            ;
        }
    }
}


} // verus!
