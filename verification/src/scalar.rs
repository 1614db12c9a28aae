//! The scalar operation surface that every lane encoding provides.
//!
//! The vector algebra is written once, over an abstract scalar; the two lane
//! encodings (`u32` for single precision, `u64` for double precision) plug in
//! their operations here. Passing an operation as a small enum value keeps one
//! verified traversal per vector operation family instead of one per opcode.

use vstd::prelude::*;
use crate::scalar32::{
    abs32, add32, div32, f32_abs, f32_add, f32_div, f32_max, f32_min, f32_mul, f32_mul_add,
    f32_neg, f32_sub, fma32, max32, min32, mul32, neg32, sub32,
};
use crate::scalar64::{
    abs64, add64, div64, f64_abs, f64_add, f64_div, f64_max, f64_min, f64_mul, f64_mul_add,
    f64_neg, f64_sub, fma64, max64, min64, mul64, neg64, sub64,
};
use crate::floatext::{f32_sqrt, f64_sqrt, sqrt32, sqrt64};

verus! {

/// A binary lane operation.
#[derive(Clone, Copy, Debug, PartialEq, Eq, Structural)]
pub enum BinOp {
    Add,
    Sub,
    Mul,
    Div,
    /// IEEE minNum.
    Min,
    /// IEEE maxNum.
    Max,
}

/// A unary lane operation.
#[derive(Clone, Copy, Debug, PartialEq, Eq, Structural)]
pub enum UnOp {
    Neg,
    Abs,
    Sqrt,
}

/// A horizontal reduction.
#[derive(Clone, Copy, Debug, PartialEq, Eq, Structural)]
pub enum RedOp {
    Sum,
    Prod,
    Min,
    Max,
}

impl RedOp {
    /// The binary operation that combines two partial reduction results:
    /// sums are combined by addition, products by multiplication, minima by
    /// minimum, maxima by maximum — never by anything else.
    pub open spec fn combining(self) -> BinOp {
        match self {
            RedOp::Sum => BinOp::Add,
            RedOp::Prod => BinOp::Mul,
            RedOp::Min => BinOp::Min,
            RedOp::Max => BinOp::Max,
        }
    }

    pub fn to_bin(self) -> (r: BinOp)
        ensures
            r == self.combining(),
    {
        match self {
            RedOp::Sum => BinOp::Add,
            RedOp::Prod => BinOp::Mul,
            RedOp::Min => BinOp::Min,
            RedOp::Max => BinOp::Max,
        }
    }
}

/// One lane scalar: a plain value encoding one IEEE-754 number, with its
/// arithmetic pinned, operation by operation, to the spec functions of its
/// encoding module.
pub trait Scalar: Sized + Copy {
    /// What the binary operation `op` returns on `a` and `b`.
    spec fn bin_spec(op: BinOp, a: Self, b: Self) -> Self;

    /// What the unary operation `op` returns on `a`.
    spec fn un_spec(op: UnOp, a: Self) -> Self;

    /// What the fused multiply-add returns on `a * b + c`.
    spec fn fma_spec(a: Self, b: Self, c: Self) -> Self;

    fn bin(op: BinOp, a: Self, b: Self) -> (r: Self)
        ensures
            r == Self::bin_spec(op, a, b),
    ;

    fn un(op: UnOp, a: Self) -> (r: Self)
        ensures
            r == Self::un_spec(op, a),
    ;

    fn fma(a: Self, b: Self, c: Self) -> (r: Self)
        ensures
            r == Self::fma_spec(a, b, c),
    ;

    /// Lane equality is bit equality of the encodings.
    fn lane_eq(a: Self, b: Self) -> (r: bool)
        ensures
            r == (a == b),
    ;

    /// The filler written into physical register lanes beyond a vector's
    /// logical width. Deliberately left unspecified: no contract of the
    /// library may depend on what a padding lane holds.
    fn pad() -> Self;
}

impl Scalar for u32 {
    open spec fn bin_spec(op: BinOp, a: u32, b: u32) -> u32 {
        match op {
            BinOp::Add => add32(a, b),
            BinOp::Sub => sub32(a, b),
            BinOp::Mul => mul32(a, b),
            BinOp::Div => div32(a, b),
            BinOp::Min => min32(a, b),
            BinOp::Max => max32(a, b),
        }
    }

    open spec fn un_spec(op: UnOp, a: u32) -> u32 {
        match op {
            UnOp::Neg => neg32(a),
            UnOp::Abs => abs32(a),
            UnOp::Sqrt => sqrt32(a),
        }
    }

    open spec fn fma_spec(a: u32, b: u32, c: u32) -> u32 {
        fma32(a, b, c)
    }

    fn bin(op: BinOp, a: u32, b: u32) -> (r: u32) {
        match op {
            BinOp::Add => f32_add(a, b),
            BinOp::Sub => f32_sub(a, b),
            BinOp::Mul => f32_mul(a, b),
            BinOp::Div => f32_div(a, b),
            BinOp::Min => f32_min(a, b),
            BinOp::Max => f32_max(a, b),
        }
    }

    fn un(op: UnOp, a: u32) -> (r: u32) {
        match op {
            UnOp::Neg => f32_neg(a),
            UnOp::Abs => f32_abs(a),
            UnOp::Sqrt => f32_sqrt(a),
        }
    }

    fn fma(a: u32, b: u32, c: u32) -> (r: u32) {
        f32_mul_add(a, b, c)
    }

    fn lane_eq(a: u32, b: u32) -> (r: bool) {
        a == b
    }

    fn pad() -> u32 {
        0
    }
}

impl Scalar for u64 {
    open spec fn bin_spec(op: BinOp, a: u64, b: u64) -> u64 {
        match op {
            BinOp::Add => add64(a, b),
            BinOp::Sub => sub64(a, b),
            BinOp::Mul => mul64(a, b),
            BinOp::Div => div64(a, b),
            BinOp::Min => min64(a, b),
            BinOp::Max => max64(a, b),
        }
    }

    open spec fn un_spec(op: UnOp, a: u64) -> u64 {
        match op {
            UnOp::Neg => neg64(a),
            UnOp::Abs => abs64(a),
            UnOp::Sqrt => sqrt64(a),
        }
    }

    open spec fn fma_spec(a: u64, b: u64, c: u64) -> u64 {
        fma64(a, b, c)
    }

    fn bin(op: BinOp, a: u64, b: u64) -> (r: u64) {
        match op {
            BinOp::Add => f64_add(a, b),
            BinOp::Sub => f64_sub(a, b),
            BinOp::Mul => f64_mul(a, b),
            BinOp::Div => f64_div(a, b),
            BinOp::Min => f64_min(a, b),
            BinOp::Max => f64_max(a, b),
        }
    }

    fn un(op: UnOp, a: u64) -> (r: u64) {
        match op {
            UnOp::Neg => f64_neg(a),
            UnOp::Abs => f64_abs(a),
            UnOp::Sqrt => f64_sqrt(a),
        }
    }

    fn fma(a: u64, b: u64, c: u64) -> (r: u64) {
        f64_mul_add(a, b, c)
    }

    fn lane_eq(a: u64, b: u64) -> (r: bool) {
        a == b
    }

    fn pad() -> u64 {
        0
    }
}

} // verus!
