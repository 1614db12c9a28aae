//! Double-precision fixed-width vector types.
//!
//! Each type pins one supported width of `Packed<u64>`; lanes are binary64
//! bit patterns. The three-lane type pads a four-lane register.

use vstd::prelude::*;
use crate::packed::Packed;
use crate::scalar::{BinOp, RedOp};
use crate::scalar64::{abs64, add64, div64, fma64, max64, min64, mul64, neg64, sub64};
use crate::floatext::sqrt64;
use crate::composite::{fold1, lemma_fold2, lemma_fold3};

verus! {

/// A 2-lane packed vector of double-precision lanes.
#[allow(non_camel_case_types)]
#[derive(Debug, Clone)]
pub struct f64x2 {
    /// The underlying packed value; always width 2.
    pub v: Packed<u64>,
}

impl f64x2 {
    /// Well-formed: the packed value is well-formed at width 2.
    pub open spec fn wf(self) -> bool {
        self.v.wf() && self.v.width == 2
    }

    /// The logical lanes.
    pub open spec fn lanes(self) -> Seq<u64> {
        self.v.lanes()
    }

    /// Builds the vector from its 2 lanes.
    pub fn new(lanes: Vec<u64>) -> (r: Self)
        requires
            lanes@.len() == 2,
        ensures
            r.wf(),
            r.lanes() == lanes@,
    {
        f64x2 { v: Packed::from_vec(lanes) }
    }

    /// Creates a new vector with all lanes filled with the provided value.
    pub fn filled_with(x: u64) -> (r: Self)
        ensures
            r.wf(),
            forall|k: int| #![auto] 0 <= k < 2 ==> r.lanes()[k] == x,
    {
        f64x2 { v: Packed::filled_with(x, 2) }
    }

    /// The lanes as one contiguous vector, in lane order.
    pub fn to_vec(&self) -> (r: Vec<u64>)
        requires
            self.wf(),
        ensures
            r@ == self.lanes(),
    {
        self.v.to_vec()
    }

    /// Lane `i`.
    pub fn get(&self, i: usize) -> (r: u64)
        requires
            self.wf(),
            i < 2,
        ensures
            r == self.lanes()[i as int],
    {
        self.v.get(i)
    }

    /// Bitwise lane equality.
    pub fn equals(&self, rhs: &Self) -> (r: bool)
        requires
            self.wf(),
            rhs.wf(),
        ensures
            r == (self.lanes() == rhs.lanes()),
    {
        self.v.equals(&rhs.v)
    }

    /// Lane-by-lane sum.
    pub fn add(&self, rhs: &Self) -> (r: Self)
        requires
            self.wf(),
            rhs.wf(),
        ensures
            r.wf(),
            forall|j: int| #![auto] 0 <= j < 2 ==> r.lanes()[j] == add64(self.lanes()[j], rhs.lanes()[j]),
    {
        f64x2 { v: self.v.map(BinOp::Add, &rhs.v) }
    }

    /// Lane-by-lane difference.
    pub fn sub(&self, rhs: &Self) -> (r: Self)
        requires
            self.wf(),
            rhs.wf(),
        ensures
            r.wf(),
            forall|j: int| #![auto] 0 <= j < 2 ==> r.lanes()[j] == sub64(self.lanes()[j], rhs.lanes()[j]),
    {
        f64x2 { v: self.v.map(BinOp::Sub, &rhs.v) }
    }

    /// Lane-by-lane product.
    pub fn mul(&self, rhs: &Self) -> (r: Self)
        requires
            self.wf(),
            rhs.wf(),
        ensures
            r.wf(),
            forall|j: int| #![auto] 0 <= j < 2 ==> r.lanes()[j] == mul64(self.lanes()[j], rhs.lanes()[j]),
    {
        f64x2 { v: self.v.map(BinOp::Mul, &rhs.v) }
    }

    /// Lane-by-lane quotient.
    pub fn div(&self, rhs: &Self) -> (r: Self)
        requires
            self.wf(),
            rhs.wf(),
        ensures
            r.wf(),
            forall|j: int| #![auto] 0 <= j < 2 ==> r.lanes()[j] == div64(self.lanes()[j], rhs.lanes()[j]),
    {
        f64x2 { v: self.v.map(BinOp::Div, &rhs.v) }
    }

    /// Lane-by-lane IEEE minNum.
    pub fn vmin(&self, rhs: &Self) -> (r: Self)
        requires
            self.wf(),
            rhs.wf(),
        ensures
            r.wf(),
            forall|j: int| #![auto] 0 <= j < 2 ==> r.lanes()[j] == min64(self.lanes()[j], rhs.lanes()[j]),
    {
        f64x2 { v: self.v.map(BinOp::Min, &rhs.v) }
    }

    /// Lane-by-lane IEEE maxNum.
    pub fn vmax(&self, rhs: &Self) -> (r: Self)
        requires
            self.wf(),
            rhs.wf(),
        ensures
            r.wf(),
            forall|j: int| #![auto] 0 <= j < 2 ==> r.lanes()[j] == max64(self.lanes()[j], rhs.lanes()[j]),
    {
        f64x2 { v: self.v.map(BinOp::Max, &rhs.v) }
    }

    /// Lane-by-lane negation.
    pub fn neg(&self) -> (r: Self)
        requires
            self.wf(),
        ensures
            r.wf(),
            forall|j: int| #![auto] 0 <= j < 2 ==> r.lanes()[j] == neg64(self.lanes()[j]),
    {
        f64x2 { v: self.v.map_one(crate::scalar::UnOp::Neg) }
    }

    /// Lane-by-lane absolute value.
    pub fn abs(&self) -> (r: Self)
        requires
            self.wf(),
        ensures
            r.wf(),
            forall|j: int| #![auto] 0 <= j < 2 ==> r.lanes()[j] == abs64(self.lanes()[j]),
    {
        f64x2 { v: self.v.map_one(crate::scalar::UnOp::Abs) }
    }

    /// Lane-by-lane square root, by the documented bit-trick approximation.
    pub fn sqrt(&self) -> (r: Self)
        requires
            self.wf(),
        ensures
            r.wf(),
            forall|j: int| #![auto] 0 <= j < 2 ==> r.lanes()[j] == sqrt64(self.lanes()[j]),
    {
        f64x2 { v: self.v.map_one(crate::scalar::UnOp::Sqrt) }
    }

    /// Fused multiply-add. Computes `(self * rhs) + add` with only one
    /// rounding per lane.
    pub fn mul_add(&self, rhs: &Self, add: &Self) -> (r: Self)
        requires
            self.wf(),
            rhs.wf(),
            add.wf(),
        ensures
            r.wf(),
            forall|j: int| #![auto] 0 <= j < 2 ==> r.lanes()[j] == fma64(self.lanes()[j], rhs.lanes()[j], add.lanes()[j]),
    {
        f64x2 { v: self.v.mul_add(&rhs.v, &add.v) }
    }

    /// Interleaves elements of both vectors into one.
    pub fn zip(&self, rhs: &Self) -> (r: Self)
        requires
            self.wf(),
            rhs.wf(),
        ensures
            r.wf(),
            forall|k: int| #![auto] 0 <= k < 2 ==> r.lanes()[k] == if k % 2 == 0 {
                self.lanes()[k / 2]
            } else {
                rhs.lanes()[k / 2]
            },
    {
        f64x2 { v: self.v.zip(&rhs.v) }
    }

    /// Sums up all the values inside the vector.
    pub fn sum(&self) -> (r: u64)
        requires
            self.wf(),
        ensures
            r == add64(self.lanes()[0], self.lanes()[1]),
    {
        proof {
            assert(self.v.part is Reg);
            assert(self.v.reduced(RedOp::Sum) == fold1(BinOp::Add, self.lanes()));
            lemma_fold2::<u64>(BinOp::Add, self.lanes());
        }
        self.v.reduce(RedOp::Sum)
    }

    /// Multiplies all the values inside the vector.
    pub fn prod(&self) -> (r: u64)
        requires
            self.wf(),
        ensures
            r == mul64(self.lanes()[0], self.lanes()[1]),
    {
        proof {
            assert(self.v.part is Reg);
            assert(self.v.reduced(RedOp::Prod) == fold1(BinOp::Mul, self.lanes()));
            lemma_fold2::<u64>(BinOp::Mul, self.lanes());
        }
        self.v.reduce(RedOp::Prod)
    }

    /// Gets the smallest value of the vector, by IEEE minNum.
    pub fn min(&self) -> (r: u64)
        requires
            self.wf(),
        ensures
            r == min64(self.lanes()[0], self.lanes()[1]),
    {
        proof {
            assert(self.v.part is Reg);
            assert(self.v.reduced(RedOp::Min) == fold1(BinOp::Min, self.lanes()));
            lemma_fold2::<u64>(BinOp::Min, self.lanes());
        }
        self.v.reduce(RedOp::Min)
    }

    /// Gets the biggest value of the vector, by IEEE maxNum.
    pub fn max(&self) -> (r: u64)
        requires
            self.wf(),
        ensures
            r == max64(self.lanes()[0], self.lanes()[1]),
    {
        proof {
            assert(self.v.part is Reg);
            assert(self.v.reduced(RedOp::Max) == fold1(BinOp::Max, self.lanes()));
            lemma_fold2::<u64>(BinOp::Max, self.lanes());
        }
        self.v.reduce(RedOp::Max)
    }
}

/// A 3-lane packed vector of double-precision lanes, stored in a four-lane register whose spare lane is padding.
#[allow(non_camel_case_types)]
#[derive(Debug, Clone)]
pub struct f64x3 {
    /// The underlying packed value; always width 3.
    pub v: Packed<u64>,
}

impl f64x3 {
    /// Well-formed: the packed value is well-formed at width 3.
    pub open spec fn wf(self) -> bool {
        self.v.wf() && self.v.width == 3
    }

    /// The logical lanes.
    pub open spec fn lanes(self) -> Seq<u64> {
        self.v.lanes()
    }

    /// Builds the vector from its 3 lanes.
    pub fn new(lanes: Vec<u64>) -> (r: Self)
        requires
            lanes@.len() == 3,
        ensures
            r.wf(),
            r.lanes() == lanes@,
    {
        f64x3 { v: Packed::from_vec(lanes) }
    }

    /// Builds the vector from its three lanes and an explicit value for the
    /// spare fourth register lane. No result depends on that value.
    pub fn new_padded(lanes: Vec<u64>, spare: u64) -> (r: Self)
        requires
            lanes@.len() == 3,
        ensures
            r.wf(),
            r.lanes() == lanes@,
    {
        f64x3 { v: Packed::from_padded(lanes, spare) }
    }

    /// Creates a new vector with all lanes filled with the provided value.
    pub fn filled_with(x: u64) -> (r: Self)
        ensures
            r.wf(),
            forall|k: int| #![auto] 0 <= k < 3 ==> r.lanes()[k] == x,
    {
        f64x3 { v: Packed::filled_with(x, 3) }
    }

    /// The lanes as one contiguous vector, in lane order.
    pub fn to_vec(&self) -> (r: Vec<u64>)
        requires
            self.wf(),
        ensures
            r@ == self.lanes(),
    {
        self.v.to_vec()
    }

    /// Lane `i`.
    pub fn get(&self, i: usize) -> (r: u64)
        requires
            self.wf(),
            i < 3,
        ensures
            r == self.lanes()[i as int],
    {
        self.v.get(i)
    }

    /// Bitwise lane equality.
    pub fn equals(&self, rhs: &Self) -> (r: bool)
        requires
            self.wf(),
            rhs.wf(),
        ensures
            r == (self.lanes() == rhs.lanes()),
    {
        self.v.equals(&rhs.v)
    }

    /// Lane-by-lane sum.
    pub fn add(&self, rhs: &Self) -> (r: Self)
        requires
            self.wf(),
            rhs.wf(),
        ensures
            r.wf(),
            forall|j: int| #![auto] 0 <= j < 3 ==> r.lanes()[j] == add64(self.lanes()[j], rhs.lanes()[j]),
    {
        f64x3 { v: self.v.map(BinOp::Add, &rhs.v) }
    }

    /// Lane-by-lane difference.
    pub fn sub(&self, rhs: &Self) -> (r: Self)
        requires
            self.wf(),
            rhs.wf(),
        ensures
            r.wf(),
            forall|j: int| #![auto] 0 <= j < 3 ==> r.lanes()[j] == sub64(self.lanes()[j], rhs.lanes()[j]),
    {
        f64x3 { v: self.v.map(BinOp::Sub, &rhs.v) }
    }

    /// Lane-by-lane product.
    pub fn mul(&self, rhs: &Self) -> (r: Self)
        requires
            self.wf(),
            rhs.wf(),
        ensures
            r.wf(),
            forall|j: int| #![auto] 0 <= j < 3 ==> r.lanes()[j] == mul64(self.lanes()[j], rhs.lanes()[j]),
    {
        f64x3 { v: self.v.map(BinOp::Mul, &rhs.v) }
    }

    /// Lane-by-lane quotient.
    pub fn div(&self, rhs: &Self) -> (r: Self)
        requires
            self.wf(),
            rhs.wf(),
        ensures
            r.wf(),
            forall|j: int| #![auto] 0 <= j < 3 ==> r.lanes()[j] == div64(self.lanes()[j], rhs.lanes()[j]),
    {
        f64x3 { v: self.v.map(BinOp::Div, &rhs.v) }
    }

    /// Lane-by-lane IEEE minNum.
    pub fn vmin(&self, rhs: &Self) -> (r: Self)
        requires
            self.wf(),
            rhs.wf(),
        ensures
            r.wf(),
            forall|j: int| #![auto] 0 <= j < 3 ==> r.lanes()[j] == min64(self.lanes()[j], rhs.lanes()[j]),
    {
        f64x3 { v: self.v.map(BinOp::Min, &rhs.v) }
    }

    /// Lane-by-lane IEEE maxNum.
    pub fn vmax(&self, rhs: &Self) -> (r: Self)
        requires
            self.wf(),
            rhs.wf(),
        ensures
            r.wf(),
            forall|j: int| #![auto] 0 <= j < 3 ==> r.lanes()[j] == max64(self.lanes()[j], rhs.lanes()[j]),
    {
        f64x3 { v: self.v.map(BinOp::Max, &rhs.v) }
    }

    /// Lane-by-lane negation.
    pub fn neg(&self) -> (r: Self)
        requires
            self.wf(),
        ensures
            r.wf(),
            forall|j: int| #![auto] 0 <= j < 3 ==> r.lanes()[j] == neg64(self.lanes()[j]),
    {
        f64x3 { v: self.v.map_one(crate::scalar::UnOp::Neg) }
    }

    /// Lane-by-lane absolute value.
    pub fn abs(&self) -> (r: Self)
        requires
            self.wf(),
        ensures
            r.wf(),
            forall|j: int| #![auto] 0 <= j < 3 ==> r.lanes()[j] == abs64(self.lanes()[j]),
    {
        f64x3 { v: self.v.map_one(crate::scalar::UnOp::Abs) }
    }

    /// Lane-by-lane square root, by the documented bit-trick approximation.
    pub fn sqrt(&self) -> (r: Self)
        requires
            self.wf(),
        ensures
            r.wf(),
            forall|j: int| #![auto] 0 <= j < 3 ==> r.lanes()[j] == sqrt64(self.lanes()[j]),
    {
        f64x3 { v: self.v.map_one(crate::scalar::UnOp::Sqrt) }
    }

    /// Fused multiply-add. Computes `(self * rhs) + add` with only one
    /// rounding per lane.
    pub fn mul_add(&self, rhs: &Self, add: &Self) -> (r: Self)
        requires
            self.wf(),
            rhs.wf(),
            add.wf(),
        ensures
            r.wf(),
            forall|j: int| #![auto] 0 <= j < 3 ==> r.lanes()[j] == fma64(self.lanes()[j], rhs.lanes()[j], add.lanes()[j]),
    {
        f64x3 { v: self.v.mul_add(&rhs.v, &add.v) }
    }

    /// Interleaves elements of both vectors into one.
    pub fn zip(&self, rhs: &Self) -> (r: Self)
        requires
            self.wf(),
            rhs.wf(),
        ensures
            r.wf(),
            forall|k: int| #![auto] 0 <= k < 3 ==> r.lanes()[k] == if k % 2 == 0 {
                self.lanes()[k / 2]
            } else {
                rhs.lanes()[k / 2]
            },
    {
        f64x3 { v: self.v.zip(&rhs.v) }
    }

    /// Sums up all the values inside the vector. The spare fourth register lane is never read.
    pub fn sum(&self) -> (r: u64)
        requires
            self.wf(),
        ensures
            r == add64(add64(self.lanes()[0], self.lanes()[1]), self.lanes()[2]),
    {
        proof {
            assert(self.v.part is Reg);
            assert(self.v.reduced(RedOp::Sum) == fold1(BinOp::Add, self.lanes()));
            lemma_fold3::<u64>(BinOp::Add, self.lanes());
        }
        self.v.reduce(RedOp::Sum)
    }

    /// Multiplies all the values inside the vector. The spare fourth register lane is never read.
    pub fn prod(&self) -> (r: u64)
        requires
            self.wf(),
        ensures
            r == mul64(mul64(self.lanes()[0], self.lanes()[1]), self.lanes()[2]),
    {
        proof {
            assert(self.v.part is Reg);
            assert(self.v.reduced(RedOp::Prod) == fold1(BinOp::Mul, self.lanes()));
            lemma_fold3::<u64>(BinOp::Mul, self.lanes());
        }
        self.v.reduce(RedOp::Prod)
    }

    /// Gets the smallest value of the vector, by IEEE minNum. The spare fourth register lane is never read.
    pub fn min(&self) -> (r: u64)
        requires
            self.wf(),
        ensures
            r == min64(min64(self.lanes()[0], self.lanes()[1]), self.lanes()[2]),
    {
        proof {
            assert(self.v.part is Reg);
            assert(self.v.reduced(RedOp::Min) == fold1(BinOp::Min, self.lanes()));
            lemma_fold3::<u64>(BinOp::Min, self.lanes());
        }
        self.v.reduce(RedOp::Min)
    }

    /// Gets the biggest value of the vector, by IEEE maxNum. The spare fourth register lane is never read.
    pub fn max(&self) -> (r: u64)
        requires
            self.wf(),
        ensures
            r == max64(max64(self.lanes()[0], self.lanes()[1]), self.lanes()[2]),
    {
        proof {
            assert(self.v.part is Reg);
            assert(self.v.reduced(RedOp::Max) == fold1(BinOp::Max, self.lanes()));
            lemma_fold3::<u64>(BinOp::Max, self.lanes());
        }
        self.v.reduce(RedOp::Max)
    }
}

} // verus!
