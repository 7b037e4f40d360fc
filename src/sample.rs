//! Fixed-point sample representation and the conversions to the native sample
//! representations that an output device may ask for.
//!
//! A sample is an `i32` in Q15: `FIXED_ONE` stands for the amplitude 1.0.
//! A volume is a Q15 value in `[0, FIXED_ONE]`.
use vstd::prelude::*;

verus! {

/// Q15 value of the amplitude 1.0.
pub const FIXED_ONE: i32 = 32768;

/// Equilibrium (silent) value of an unsigned 16-bit output sample.
pub const U16_EQUILIBRIUM: u16 = 32768;

/// The sample representations that the renderer can write.
#[derive(Clone, Copy, Debug, PartialEq, Eq, Structural)]
pub enum SampleFormat {
    F32,
    I16,
    U16,
}

pub open spec fn clamp(x: int, lo: int, hi: int) -> int {
    if x < lo {
        lo
    } else if x > hi {
        hi
    } else {
        x
    }
}

/// Integer division rounding towards zero, as Rust's `/` does.
pub open spec fn div_trunc(n: int, d: int) -> int
    recommends
        d > 0,
{
    if n >= 0 {
        n / d
    } else {
        -((-n) / d)
    }
}

/// The volume that is stored for a requested level: the level clamped into `[0, 1]`.
pub open spec fn clamped_volume(level: int) -> int {
    clamp(level, 0, FIXED_ONE as int)
}

/// A sample scaled by a volume.
pub open spec fn scaled(x: int, volume: int) -> int {
    div_trunc(x * volume, FIXED_ONE as int)
}

/// The native value that a fixed-point sample becomes in a format. For `F32`
/// the native value is the fixed-point value itself, read as `x / FIXED_ONE`.
pub open spec fn native_value(format: SampleFormat, x: int) -> int {
    match format {
        SampleFormat::F32 => x,
        SampleFormat::I16 => clamp(x, i16::MIN as int, i16::MAX as int),
        SampleFormat::U16 => clamp(x, i16::MIN as int, i16::MAX as int) + 32768,
    }
}

/// The silent value of a format.
pub open spec fn equilibrium(format: SampleFormat) -> int {
    match format {
        SampleFormat::F32 => 0,
        SampleFormat::I16 => 0,
        SampleFormat::U16 => U16_EQUILIBRIUM as int,
    }
}

/// Clamps a requested volume level into `[0, FIXED_ONE]`.
pub fn clamp_volume(level: i32) -> (r: i32)
    ensures
        r == clamped_volume(level as int),
        0 <= r <= FIXED_ONE,
{
    if level < 0 {
        0
    } else if level > FIXED_ONE {
        FIXED_ONE
    } else {
        level
    }
}

/// Bounds of a truncating division whose numerator lies between `lo * d` and `hi * d`.
pub proof fn lemma_div_trunc_bounds(n: int, d: int, lo: int, hi: int)
    requires
        d > 0,
        lo * d <= n <= hi * d,
        lo <= 0 <= hi,
    ensures
        lo <= div_trunc(n, d) <= hi,
{
    if n >= 0 {
        assert(n / d <= hi) by (nonlinear_arith)
            requires n <= hi * d, d > 0, n >= 0;
        assert(n / d >= 0) by (nonlinear_arith)
            requires d > 0, n >= 0;
    } else {
        assert(-n <= (-lo) * d) by (nonlinear_arith)
            requires lo * d <= n;
        assert((-n) / d <= -lo) by (nonlinear_arith)
            requires -n <= (-lo) * d, d > 0, -n >= 0;
        assert((-n) / d >= 0) by (nonlinear_arith)
            requires d > 0, -n >= 0;
    }
}

/// Scales a sample by a volume in `[0, FIXED_ONE]`, rounding towards zero.
pub fn scale_sample(x: i32, volume: i32) -> (r: i32)
    requires
        0 <= volume <= FIXED_ONE,
    ensures
        r == scaled(x as int, volume as int),
{
    proof {
        assert(-0x8000_0000_0000 <= (x as int) * (volume as int) <= 0x8000_0000_0000) by (nonlinear_arith)
            requires -0x8000_0000 <= x <= 0x7fff_ffff, 0 <= volume <= 32768;
    }
    let p: i64 = (x as i64) * (volume as i64);
    proof {
        let xi = x as int;
        let v = volume as int;
        if xi >= 0 {
            assert(0 <= xi * v <= xi * 32768) by (nonlinear_arith)
                requires 0 <= v <= 32768, xi >= 0;
        } else {
            assert(xi * 32768 <= xi * v <= 0) by (nonlinear_arith)
                requires 0 <= v <= 32768, xi < 0;
        }
        lemma_div_trunc_bounds(xi * v, 32768, if xi < 0 { xi } else { 0 }, if xi < 0 { 0 } else { xi });
    }
    let q: i64 = if p >= 0 {
        p / (FIXED_ONE as i64)
    } else {
        -((-p) / (FIXED_ONE as i64))
    };
    q as i32
}

/// Converts a fixed-point sample to a signed 16-bit output sample, saturating.
pub fn to_i16(x: i32) -> (r: i16)
    ensures
        r as int == native_value(SampleFormat::I16, x as int),
{
    if x < i16::MIN as i32 {
        i16::MIN
    } else if x > i16::MAX as i32 {
        i16::MAX
    } else {
        x as i16
    }
}

/// Converts a fixed-point sample to an unsigned 16-bit output sample, saturating.
pub fn to_u16(x: i32) -> (r: u16)
    ensures
        r as int == native_value(SampleFormat::U16, x as int),
{
    let s = to_i16(x);
    ((s as i32) + 32768) as u16
}

} // verus!
