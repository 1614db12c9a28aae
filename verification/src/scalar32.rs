//! Single-precision scalars, carried as their IEEE-754 binary32 bit patterns.
//!
//! Every lane of a single-precision vector is a `u32` holding the bits of one
//! IEEE-754 single-precision value, in the standard layout: bit 31 is the sign,
//! bits 23..31 the biased exponent, bits 0..23 the trailing significand.
//! Rounding arithmetic (add, sub, mul, div, fused multiply-add) is done by an
//! outside software implementation of IEEE-754 and is only named here; the
//! purely structural operations (absolute value, negation, NaN test, ordering,
//! minimum, maximum) are defined and verified directly on the bit patterns.

use vstd::prelude::*;
use rustc_apfloat::Float;

verus! {

/// Bit mask selecting the magnitude (everything but the sign bit).
pub const F32_MAG_MASK: u32 = 0x7FFF_FFFF;

/// Bit mask selecting the sign bit.
pub const F32_SIGN_MASK: u32 = 0x8000_0000;

/// Magnitude of an infinity: biased exponent all ones, significand zero.
pub const F32_INF_MAG: u32 = 0x7F80_0000;

/// Bits of the value one.
pub const F32_ONE: u32 = 0x3F80_0000;

/// Bits of the value three halves.
pub const F32_THREE_HALVES: u32 = 0x3FC0_0000;

/// The result of rounding the exact sum of the values encoded by `a` and `b`
/// to the nearest single-precision value, ties to even, as its bit pattern.
pub uninterp spec fn add32(a: u32, b: u32) -> u32;

/// The result of rounding the exact difference of the values encoded by `a`
/// and `b` (`a` minus `b`), ties to even, as its bit pattern.
pub uninterp spec fn sub32(a: u32, b: u32) -> u32;

/// The result of rounding the exact product of the values encoded by `a` and
/// `b`, ties to even, as its bit pattern.
pub uninterp spec fn mul32(a: u32, b: u32) -> u32;

/// The result of rounding the exact quotient of the values encoded by `a` and
/// `b` (`a` divided by `b`), ties to even, as its bit pattern.
pub uninterp spec fn div32(a: u32, b: u32) -> u32;

/// The fused multiply-add `a * b + c` on the encoded values, with one single
/// rounding of the exact result, ties to even, as its bit pattern.
pub uninterp spec fn fma32(a: u32, b: u32, c: u32) -> u32;

/// Relies on `rustc_apfloat::ieee::Single`'s `Add` (round to nearest, ties to
/// even); `from_bits`/`to_bits` convert between the bit pattern and the value.
#[verifier::external_body]
pub fn f32_add(a: u32, b: u32) -> (r: u32)
    ensures
        r == add32(a, b),
{
    let x = rustc_apfloat::ieee::Single::from_bits(a as u128);
    let y = rustc_apfloat::ieee::Single::from_bits(b as u128);
    (x + y).value.to_bits() as u32
}

/// Relies on `rustc_apfloat::ieee::Single`'s `Sub` (round to nearest, ties to
/// even); `from_bits`/`to_bits` convert between the bit pattern and the value.
#[verifier::external_body]
pub fn f32_sub(a: u32, b: u32) -> (r: u32)
    ensures
        r == sub32(a, b),
{
    let x = rustc_apfloat::ieee::Single::from_bits(a as u128);
    let y = rustc_apfloat::ieee::Single::from_bits(b as u128);
    (x - y).value.to_bits() as u32
}

/// Relies on `rustc_apfloat::ieee::Single`'s `Mul` (round to nearest, ties to
/// even); `from_bits`/`to_bits` convert between the bit pattern and the value.
#[verifier::external_body]
pub fn f32_mul(a: u32, b: u32) -> (r: u32)
    ensures
        r == mul32(a, b),
{
    let x = rustc_apfloat::ieee::Single::from_bits(a as u128);
    let y = rustc_apfloat::ieee::Single::from_bits(b as u128);
    (x * y).value.to_bits() as u32
}

/// Relies on `rustc_apfloat::ieee::Single`'s `Div` (round to nearest, ties to
/// even); `from_bits`/`to_bits` convert between the bit pattern and the value.
#[verifier::external_body]
pub fn f32_div(a: u32, b: u32) -> (r: u32)
    ensures
        r == div32(a, b),
{
    let x = rustc_apfloat::ieee::Single::from_bits(a as u128);
    let y = rustc_apfloat::ieee::Single::from_bits(b as u128);
    (x / y).value.to_bits() as u32
}

/// Relies on `rustc_apfloat::Float::mul_add` for `rustc_apfloat::ieee::Single`:
/// `a * b + c` with one single rounding, ties to even.
#[verifier::external_body]
pub fn f32_mul_add(a: u32, b: u32, c: u32) -> (r: u32)
    ensures
        r == fma32(a, b, c),
{
    let x = rustc_apfloat::ieee::Single::from_bits(a as u128);
    let y = rustc_apfloat::ieee::Single::from_bits(b as u128);
    let z = rustc_apfloat::ieee::Single::from_bits(c as u128);
    x.mul_add(y, z).value.to_bits() as u32
}

/// The bit pattern encodes a NaN: exponent all ones and a nonzero significand,
/// which is exactly a magnitude above the infinity magnitude.
pub open spec fn is_nan32(a: u32) -> bool {
    (a & F32_MAG_MASK) > F32_INF_MAG
}

/// IEEE-754 `<=` on the values encoded by `a` and `b`, for non-NaN operands.
/// Within one sign, the binary32 encoding orders magnitudes like the values it
/// encodes; the two zeros compare equal to each other.
pub open spec fn le32(a: u32, b: u32) -> bool {
    let ma = a & F32_MAG_MASK;
    let mb = b & F32_MAG_MASK;
    if (a >> 31) != (b >> 31) {
        (a >> 31) == 1 || (ma == 0 && mb == 0)
    } else if (a >> 31) == 0 {
        ma <= mb
    } else {
        mb <= ma
    }
}

/// IEEE minNum of the encoded values: if one operand is NaN the other is
/// returned; otherwise the smaller one, the left operand on ties.
pub open spec fn min32(a: u32, b: u32) -> u32 {
    if is_nan32(a) {
        b
    } else if is_nan32(b) {
        a
    } else if le32(a, b) {
        a
    } else {
        b
    }
}

/// IEEE maxNum of the encoded values: if one operand is NaN the other is
/// returned; otherwise the larger one, the left operand on ties.
pub open spec fn max32(a: u32, b: u32) -> u32 {
    if is_nan32(a) {
        b
    } else if is_nan32(b) {
        a
    } else if le32(b, a) {
        a
    } else {
        b
    }
}

/// Absolute value: the sign bit cleared, all other bits unchanged.
pub open spec fn abs32(a: u32) -> u32 {
    a & F32_MAG_MASK
}

/// Negation: the sign bit flipped, all other bits unchanged.
pub open spec fn neg32(a: u32) -> u32 {
    a ^ F32_SIGN_MASK
}

pub fn f32_is_nan(a: u32) -> (r: bool)
    ensures
        r == is_nan32(a),
{
    (a & F32_MAG_MASK) > F32_INF_MAG
}

pub fn f32_le(a: u32, b: u32) -> (r: bool)
    ensures
        r == le32(a, b),
{
    let ma: u32 = a & F32_MAG_MASK;
    let mb: u32 = b & F32_MAG_MASK;
    if (a >> 31) != (b >> 31) {
        (a >> 31) == 1 || (ma == 0 && mb == 0)
    } else if (a >> 31) == 0 {
        ma <= mb
    } else {
        mb <= ma
    }
}

pub fn f32_min(a: u32, b: u32) -> (r: u32)
    ensures
        r == min32(a, b),
{
    if f32_is_nan(a) {
        b
    } else if f32_is_nan(b) {
        a
    } else if f32_le(a, b) {
        a
    } else {
        b
    }
}

pub fn f32_max(a: u32, b: u32) -> (r: u32)
    ensures
        r == max32(a, b),
{
    if f32_is_nan(a) {
        b
    } else if f32_is_nan(b) {
        a
    } else if f32_le(b, a) {
        a
    } else {
        b
    }
}

pub fn f32_abs(a: u32) -> (r: u32)
    ensures
        r == abs32(a),
{
    a & F32_MAG_MASK
}

pub fn f32_neg(a: u32) -> (r: u32)
    ensures
        r == neg32(a),
{
    a ^ F32_SIGN_MASK
}

} // verus!
