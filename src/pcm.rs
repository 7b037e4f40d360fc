//! Decoding of the producer's little-endian 32-bit float PCM into fixed-point
//! samples, with integer arithmetic on the IEEE 754 encoding.
use vstd::prelude::*;
use vstd::arithmetic::power2::{lemma2_to64, lemma_pow2_strictly_increases, pow2};
use vstd::bits::{lemma_u32_shr_is_div, lemma_u64_shl_is_mul};

verus! {

/// The unsigned integer held by four little-endian bytes starting at `i`.
pub open spec fn le_u32(b: Seq<u8>, i: int) -> int {
    b[i] as int + b[i + 1] as int * 0x100 + b[i + 2] as int * 0x1_0000 + b[i + 3] as int * 0x100_0000
}

/// Magnitude in Q15 of the float with the given biased exponent and mantissa,
/// truncated towards zero and saturated at `i32::MAX`. An infinity saturates;
/// a NaN and a subnormal give zero.
pub open spec fn fixed_magnitude(exponent: int, mantissa: int) -> int {
    let significand = mantissa + 0x80_0000;
    if exponent == 255 {
        if mantissa == 0 { i32::MAX as int } else { 0 }
    } else if exponent == 0 {
        0
    } else if exponent >= 135 {
        let m = significand * (pow2((exponent - 135) as nat) as int);
        if m > i32::MAX { i32::MAX as int } else { m }
    } else {
        significand / (pow2((135 - exponent) as nat) as int)
    }
}

/// The Q15 value of the IEEE 754 single-precision number with the given bits:
/// the number times `FIXED_ONE`, truncated towards zero and saturated.
pub open spec fn fixed_of_f32_bits(bits: int) -> int {
    let magnitude = fixed_magnitude((bits / 0x80_0000) % 0x100, bits % 0x80_0000);
    if bits / 0x8000_0000 == 1 { -magnitude } else { magnitude }
}

/// Sample `i` of a little-endian f32 PCM byte stream, in Q15.
pub open spec fn pcm_sample(b: Seq<u8>, i: int) -> int {
    fixed_of_f32_bits(le_u32(b, 4 * i))
}

fn magnitude_of(exponent: u32, mantissa: u32) -> (r: u32)
    requires
        exponent < 256,
        mantissa < 0x80_0000,
    ensures
        r as int == fixed_magnitude(exponent as int, mantissa as int),
        r <= i32::MAX,
{
    let significand: u32 = mantissa + 0x80_0000;
    proof {
        lemma2_to64();
    }
    if exponent == 255 {
        if mantissa == 0 { i32::MAX as u32 } else { 0 }
    } else if exponent == 0 {
        0
    } else if exponent >= 135 {
        let shift: u32 = exponent - 135;
        if shift >= 8 {
            proof {
                if shift > 8 {
                    lemma_pow2_strictly_increases(8, shift as nat);
                }
                assert(significand * pow2(shift as nat) >= 0x80_0000 * 256) by (nonlinear_arith)
                    requires significand >= 0x80_0000, pow2(shift as nat) >= 256;
            }
            assert(fixed_magnitude(exponent as int, mantissa as int) == i32::MAX);
            i32::MAX as u32
        } else {
            proof {
                assert(significand * pow2(shift as nat) <= 0x100_0000 * 128) by (nonlinear_arith)
                    requires significand < 0x100_0000, 0 < pow2(shift as nat) <= 128;
                lemma_u64_shl_is_mul(significand as u64, shift as u64);
            }
            let m: u64 = (significand as u64) << (shift as u64);
            if m > i32::MAX as u64 { i32::MAX as u32 } else { m as u32 }
        }
    } else {
        let shift: u32 = 135 - exponent;
        if shift >= 32 {
            proof {
                lemma_pow2_strictly_increases(24, shift as nat);
                assert(significand as int / (pow2(shift as nat) as int) == 0) by (nonlinear_arith)
                    requires 0 <= significand < pow2(shift as nat);
            }
            0
        } else {
            proof {
                lemma_u32_shr_is_div(significand, shift);
                assert(significand as nat / pow2(shift as nat) <= significand) by (nonlinear_arith)
                    requires pow2(shift as nat) >= 1;
            }
            let r = significand >> shift;
            assert(r as int == fixed_magnitude(exponent as int, mantissa as int));
            r
        }
    }
}

/// Converts the bits of an IEEE 754 single-precision number into Q15.
pub fn fixed_from_f32_bits(bits: u32) -> (r: i32)
    ensures
        r as int == fixed_of_f32_bits(bits as int),
{
    let exponent: u32 = (bits / 0x80_0000) % 0x100;
    let mantissa: u32 = bits % 0x80_0000;
    let magnitude = magnitude_of(exponent, mantissa);
    if bits / 0x8000_0000 == 1 {
        -(magnitude as i32)
    } else {
        magnitude as i32
    }
}

/// Decodes little-endian f32 PCM into Q15 samples, one per whole group of
/// four bytes; trailing bytes that do not fill a group are dropped.
pub fn decode_pcm_f32le(bytes: &[u8]) -> (r: Vec<i32>)
    ensures
        r@.len() == bytes@.len() / 4,
        forall|i: int| 0 <= i < r@.len() ==> #[trigger] r@[i] == pcm_sample(bytes@, i),
{
    let len: usize = bytes.len();
    let n: usize = len / 4;
    let mut out: Vec<i32> = Vec::new();
    let mut i: usize = 0;
    while i < n
        invariant
            len == bytes@.len(),
            n == len / 4,
            i <= n,
            out@.len() == i,
            forall|j: int| 0 <= j < i ==> #[trigger] out@[j] == pcm_sample(bytes@, j),
        decreases n - i,
    {
        assert(4 * i + 3 < len) by (nonlinear_arith)
            requires i < n, n == len / 4;
        let p: usize = 4 * i;
        let bits: u32 = bytes[p] as u32 + (bytes[p + 1] as u32) * 0x100 + (bytes[p + 2] as u32) * 0x1_0000
            + (bytes[p + 3] as u32) * 0x100_0000;
        out.push(fixed_from_f32_bits(bits));
        i = i + 1;
    }
    out
}

} // verus!
