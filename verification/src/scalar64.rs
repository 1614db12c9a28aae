//! Double-precision scalars, carried as their IEEE-754 binary64 bit patterns.
//!
//! Every lane of a double-precision vector is a `u64` holding the bits of one
//! IEEE-754 double-precision value: bit 63 is the sign, bits 52..63 the biased
//! exponent, bits 0..52 the trailing significand. As in the single-precision
//! module, rounding arithmetic is done by an outside software implementation
//! of IEEE-754 and only named here, while the structural operations are
//! defined and verified directly on the bit patterns. The two conversions at
//! the end move between the binary64 and binary32 encodings; the square-root
//! fallback takes its initial guess in single precision.

use vstd::prelude::*;
use rustc_apfloat::Float;
use rustc_apfloat::FloatConvert;

verus! {

/// Bit mask selecting the magnitude (everything but the sign bit).
pub const F64_MAG_MASK: u64 = 0x7FFF_FFFF_FFFF_FFFF;

/// Bit mask selecting the sign bit.
pub const F64_SIGN_MASK: u64 = 0x8000_0000_0000_0000;

/// Magnitude of an infinity: biased exponent all ones, significand zero.
pub const F64_INF_MAG: u64 = 0x7FF0_0000_0000_0000;

/// Bits of the value one.
pub const F64_ONE: u64 = 0x3FF0_0000_0000_0000;

/// Bits of the value three halves.
pub const F64_THREE_HALVES: u64 = 0x3FF8_0000_0000_0000;

/// The result of rounding the exact sum of the values encoded by `a` and `b`
/// to the nearest double-precision value, ties to even, as its bit pattern.
pub uninterp spec fn add64(a: u64, b: u64) -> u64;

/// The result of rounding the exact difference of the values encoded by `a`
/// and `b` (`a` minus `b`), ties to even, as its bit pattern.
pub uninterp spec fn sub64(a: u64, b: u64) -> u64;

/// The result of rounding the exact product of the values encoded by `a` and
/// `b`, ties to even, as its bit pattern.
pub uninterp spec fn mul64(a: u64, b: u64) -> u64;

/// The result of rounding the exact quotient of the values encoded by `a` and
/// `b` (`a` divided by `b`), ties to even, as its bit pattern.
pub uninterp spec fn div64(a: u64, b: u64) -> u64;

/// The fused multiply-add `a * b + c` on the encoded values, with one single
/// rounding of the exact result, ties to even, as its bit pattern.
pub uninterp spec fn fma64(a: u64, b: u64, c: u64) -> u64;

/// The binary32 bit pattern nearest (ties to even) to the value encoded by
/// the binary64 bit pattern `a`.
pub uninterp spec fn narrow64(a: u64) -> u32;

/// The binary64 bit pattern of the value encoded by the binary32 bit pattern
/// `a`; every binary32 value is exactly representable in binary64.
pub uninterp spec fn widen32(a: u32) -> u64;

/// Relies on `rustc_apfloat::ieee::Double`'s `Add` (round to nearest, ties to
/// even); `from_bits`/`to_bits` convert between the bit pattern and the value.
#[verifier::external_body]
pub fn f64_add(a: u64, b: u64) -> (r: u64)
    ensures
        r == add64(a, b),
{
    let x = rustc_apfloat::ieee::Double::from_bits(a as u128);
    let y = rustc_apfloat::ieee::Double::from_bits(b as u128);
    (x + y).value.to_bits() as u64
}

/// Relies on `rustc_apfloat::ieee::Double`'s `Sub` (round to nearest, ties to
/// even); `from_bits`/`to_bits` convert between the bit pattern and the value.
#[verifier::external_body]
pub fn f64_sub(a: u64, b: u64) -> (r: u64)
    ensures
        r == sub64(a, b),
{
    let x = rustc_apfloat::ieee::Double::from_bits(a as u128);
    let y = rustc_apfloat::ieee::Double::from_bits(b as u128);
    (x - y).value.to_bits() as u64
}

/// Relies on `rustc_apfloat::ieee::Double`'s `Mul` (round to nearest, ties to
/// even); `from_bits`/`to_bits` convert between the bit pattern and the value.
#[verifier::external_body]
pub fn f64_mul(a: u64, b: u64) -> (r: u64)
    ensures
        r == mul64(a, b),
{
    let x = rustc_apfloat::ieee::Double::from_bits(a as u128);
    let y = rustc_apfloat::ieee::Double::from_bits(b as u128);
    (x * y).value.to_bits() as u64
}

/// Relies on `rustc_apfloat::ieee::Double`'s `Div` (round to nearest, ties to
/// even); `from_bits`/`to_bits` convert between the bit pattern and the value.
#[verifier::external_body]
pub fn f64_div(a: u64, b: u64) -> (r: u64)
    ensures
        r == div64(a, b),
{
    let x = rustc_apfloat::ieee::Double::from_bits(a as u128);
    let y = rustc_apfloat::ieee::Double::from_bits(b as u128);
    (x / y).value.to_bits() as u64
}

/// Relies on `rustc_apfloat::Float::mul_add` for `rustc_apfloat::ieee::Double`:
/// `a * b + c` with one single rounding, ties to even.
#[verifier::external_body]
pub fn f64_mul_add(a: u64, b: u64, c: u64) -> (r: u64)
    ensures
        r == fma64(a, b, c),
{
    let x = rustc_apfloat::ieee::Double::from_bits(a as u128);
    let y = rustc_apfloat::ieee::Double::from_bits(b as u128);
    let z = rustc_apfloat::ieee::Double::from_bits(c as u128);
    x.mul_add(y, z).value.to_bits() as u64
}

/// Relies on `rustc_apfloat::FloatConvert::convert` from `Double` to `Single`
/// (round to nearest, ties to even).
#[verifier::external_body]
pub fn f64_to_f32(a: u64) -> (r: u32)
    ensures
        r == narrow64(a),
{
    let x = rustc_apfloat::ieee::Double::from_bits(a as u128);
    let mut lossy = false;
    let y: rustc_apfloat::ieee::Single = x.convert(&mut lossy).value;
    y.to_bits() as u32
}

/// Relies on `rustc_apfloat::FloatConvert::convert` from `Single` to `Double`,
/// which is exact.
#[verifier::external_body]
pub fn f32_to_f64(a: u32) -> (r: u64)
    ensures
        r == widen32(a),
{
    let x = rustc_apfloat::ieee::Single::from_bits(a as u128);
    let mut lossy = false;
    let y: rustc_apfloat::ieee::Double = x.convert(&mut lossy).value;
    y.to_bits() as u64
}

/// The bit pattern encodes a NaN: exponent all ones and a nonzero significand,
/// which is exactly a magnitude above the infinity magnitude.
pub open spec fn is_nan64(a: u64) -> bool {
    (a & F64_MAG_MASK) > F64_INF_MAG
}

/// IEEE-754 `<=` on the values encoded by `a` and `b`, for non-NaN operands.
/// Within one sign, the binary64 encoding orders magnitudes like the values it
/// encodes; the two zeros compare equal to each other.
pub open spec fn le64(a: u64, b: u64) -> bool {
    let ma = a & F64_MAG_MASK;
    let mb = b & F64_MAG_MASK;
    if (a >> 63) != (b >> 63) {
        (a >> 63) == 1 || (ma == 0 && mb == 0)
    } else if (a >> 63) == 0 {
        ma <= mb
    } else {
        mb <= ma
    }
}

/// IEEE minNum of the encoded values: if one operand is NaN the other is
/// returned; otherwise the smaller one, the left operand on ties.
pub open spec fn min64(a: u64, b: u64) -> u64 {
    if is_nan64(a) {
        b
    } else if is_nan64(b) {
        a
    } else if le64(a, b) {
        a
    } else {
        b
    }
}

/// IEEE maxNum of the encoded values: if one operand is NaN the other is
/// returned; otherwise the larger one, the left operand on ties.
pub open spec fn max64(a: u64, b: u64) -> u64 {
    if is_nan64(a) {
        b
    } else if is_nan64(b) {
        a
    } else if le64(b, a) {
        a
    } else {
        b
    }
}

/// Absolute value: the sign bit cleared, all other bits unchanged.
pub open spec fn abs64(a: u64) -> u64 {
    a & F64_MAG_MASK
}

/// Negation: the sign bit flipped, all other bits unchanged.
pub open spec fn neg64(a: u64) -> u64 {
    a ^ F64_SIGN_MASK
}

pub fn f64_is_nan(a: u64) -> (r: bool)
    ensures
        r == is_nan64(a),
{
    (a & F64_MAG_MASK) > F64_INF_MAG
}

pub fn f64_le(a: u64, b: u64) -> (r: bool)
    ensures
        r == le64(a, b),
{
    let ma: u64 = a & F64_MAG_MASK;
    let mb: u64 = b & F64_MAG_MASK;
    if (a >> 63) != (b >> 63) {
        (a >> 63) == 1 || (ma == 0 && mb == 0)
    } else if (a >> 63) == 0 {
        ma <= mb
    } else {
        mb <= ma
    }
}

pub fn f64_min(a: u64, b: u64) -> (r: u64)
    ensures
        r == min64(a, b),
{
    if f64_is_nan(a) {
        b
    } else if f64_is_nan(b) {
        a
    } else if f64_le(a, b) {
        a
    } else {
        b
    }
}

pub fn f64_max(a: u64, b: u64) -> (r: u64)
    ensures
        r == max64(a, b),
{
    if f64_is_nan(a) {
        b
    } else if f64_is_nan(b) {
        a
    } else if f64_le(b, a) {
        a
    } else {
        b
    }
}

pub fn f64_abs(a: u64) -> (r: u64)
    ensures
        r == abs64(a),
{
    a & F64_MAG_MASK
}

pub fn f64_neg(a: u64) -> (r: u64)
    ensures
        r == neg64(a),
{
    a ^ F64_SIGN_MASK
}

} // verus!
