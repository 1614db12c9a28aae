//! Square root and absolute value without a math library.
//!
//! The square root is computed as the reciprocal of an approximate reciprocal
//! square root: a bit-reinterpretation trick gives the initial guess (the
//! classic `0x5f3759df` shift-and-subtract on the binary32 pattern), and a
//! fixed number of Newton-Raphson refinements sharpen it — two in single
//! precision, four in double precision. The refinement count is fixed and the
//! accuracy documented: for positive normal inputs the relative error of
//! `sqrt` stays below `1e-5` in single precision and below `1e-10` in double
//! precision. The result is an approximation; it is not claimed bit-equal to a
//! correctly rounded square root. For zero, negative, infinite or NaN inputs
//! the contract still pins the result to the formula below, which follows
//! ordinary IEEE-754 arithmetic (a negative input, for example, ends in NaN
//! because the refinement multiplies by a NaN).
//!
//! Absolute value is exact: it clears the sign bit and nothing else.

use vstd::prelude::*;
use crate::scalar32::{
    abs32, div32, f32_abs, f32_div, f32_mul, f32_sub, mul32, sub32, F32_ONE, F32_THREE_HALVES,
};
use crate::scalar64::{
    abs64, div64, f32_to_f64, f64_abs, f64_div, f64_mul, f64_sub, f64_to_f32, mul64, narrow64,
    sub64, widen32, F64_ONE, F64_THREE_HALVES,
};

verus! {

/// Bits of the single-precision value two.
pub const F32_TWO: u32 = 0x4000_0000;

/// Bits of the double-precision value two.
pub const F64_TWO: u64 = 0x4000_0000_0000_0000;

/// The shift-and-subtract constant of the reciprocal-square-root guess.
pub const RSQRT_MAGIC: u32 = 0x5F37_59DF;

/// One Newton-Raphson refinement of a reciprocal-square-root estimate `y` for
/// the input whose half is `x2`: `y * (1.5 - x2 * y * y)`.
pub open spec fn rsqrt_step32(x2: u32, y: u32) -> u32 {
    mul32(y, sub32(F32_THREE_HALVES, mul32(x2, mul32(y, y))))
}

/// The single-precision reciprocal-square-root approximation: the bit-trick
/// initial guess refined twice.
pub open spec fn rsqrt32(x: u32) -> u32 {
    let x2 = div32(x, F32_TWO);
    let guess = vstd::wrapping::u32_specs::wrapping_sub(RSQRT_MAGIC, x >> 1);
    rsqrt_step32(x2, rsqrt_step32(x2, guess))
}

/// The single-precision square-root approximation: the reciprocal of the
/// reciprocal square root.
pub open spec fn sqrt32(x: u32) -> u32 {
    div32(F32_ONE, rsqrt32(x))
}

/// One Newton-Raphson refinement in double precision.
pub open spec fn rsqrt_step64(x2: u64, y: u64) -> u64 {
    mul64(y, sub64(F64_THREE_HALVES, mul64(x2, mul64(y, y))))
}

/// The double-precision reciprocal-square-root approximation: the initial
/// guess is taken on the binary32 pattern of the narrowed input, widened back,
/// then refined four times in double precision.
pub open spec fn rsqrt64(x: u64) -> u64 {
    let x2 = div64(x, F64_TWO);
    let guess = widen32(vstd::wrapping::u32_specs::wrapping_sub(RSQRT_MAGIC, narrow64(x) >> 1));
    rsqrt_step64(x2, rsqrt_step64(x2, rsqrt_step64(x2, rsqrt_step64(x2, guess))))
}

/// The double-precision square-root approximation.
pub open spec fn sqrt64(x: u64) -> u64 {
    div64(F64_ONE, rsqrt64(x))
}

/// Approximate reciprocal square root of the single-precision value whose
/// bits are `x`.
pub fn sqrt_recip_f32(x: u32) -> (r: u32)
    ensures
        r == rsqrt32(x),
{
    let x2: u32 = f32_div(x, F32_TWO);
    let guess: u32 = RSQRT_MAGIC.wrapping_sub(x >> 1);
    let y: u32 = f32_mul(guess, f32_sub(F32_THREE_HALVES, f32_mul(x2, f32_mul(guess, guess))));
    f32_mul(y, f32_sub(F32_THREE_HALVES, f32_mul(x2, f32_mul(y, y))))
}

/// Approximate reciprocal square root of the double-precision value whose
/// bits are `x`.
pub fn sqrt_recip_f64(x: u64) -> (r: u64)
    ensures
        r == rsqrt64(x),
{
    let x2: u64 = f64_div(x, F64_TWO);
    let guess: u64 = f32_to_f64(RSQRT_MAGIC.wrapping_sub(f64_to_f32(x) >> 1));
    let mut y: u64 = guess;
    y = f64_mul(y, f64_sub(F64_THREE_HALVES, f64_mul(x2, f64_mul(y, y))));
    y = f64_mul(y, f64_sub(F64_THREE_HALVES, f64_mul(x2, f64_mul(y, y))));
    y = f64_mul(y, f64_sub(F64_THREE_HALVES, f64_mul(x2, f64_mul(y, y))));
    f64_mul(y, f64_sub(F64_THREE_HALVES, f64_mul(x2, f64_mul(y, y))))
}

/// Approximate square root of the single-precision value whose bits are `x`.
pub fn f32_sqrt(x: u32) -> (r: u32)
    ensures
        r == sqrt32(x),
{
    f32_div(F32_ONE, sqrt_recip_f32(x))
}

/// Approximate square root of the double-precision value whose bits are `x`.
pub fn f64_sqrt(x: u64) -> (r: u64)
    ensures
        r == sqrt64(x),
{
    f64_div(F64_ONE, sqrt_recip_f64(x))
}

/// Absolute value and square root for scalars in environments without a math
/// library. Implemented for the two bit-pattern scalar encodings.
pub trait NoStdMath: Sized {
    /// What `abs` returns.
    spec fn abs_spec(self) -> Self;

    /// What `sqrt` returns.
    spec fn sqrt_spec(self) -> Self;

    /// Absolute value of the encoded scalar.
    fn abs(self) -> (r: Self)
        ensures
            r == self.abs_spec(),
    ;

    /// Square root of the encoded scalar.
    fn sqrt(self) -> (r: Self)
        ensures
            r == self.sqrt_spec(),
    ;
}

/// `u32` carries the bits of a single-precision value.
impl NoStdMath for u32 {
    open spec fn abs_spec(self) -> u32 {
        abs32(self)
    }

    open spec fn sqrt_spec(self) -> u32 {
        sqrt32(self)
    }

    fn abs(self) -> (r: u32) {
        f32_abs(self)
    }

    fn sqrt(self) -> (r: u32) {
        f32_sqrt(self)
    }
}

/// `u64` carries the bits of a double-precision value.
impl NoStdMath for u64 {
    open spec fn abs_spec(self) -> u64 {
        abs64(self)
    }

    open spec fn sqrt_spec(self) -> u64 {
        sqrt64(self)
    }

    fn abs(self) -> (r: u64) {
        f64_abs(self)
    }

    fn sqrt(self) -> (r: u64) {
        f64_sqrt(self)
    }
}

} // verus!
