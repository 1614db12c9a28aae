//! The packed vector surface: one value type per scalar encoding, any
//! supported width.
//!
//! A `Packed` couples a canonical composite tree with its declared width; the
//! well-formedness predicate `wf` ties the two together and every method
//! requires and preserves it. All operations are pure value transformations:
//! nothing is mutated in place, and the compound-assignment methods are plain
//! `self = self.op(rhs)` sugar over the value operations.

use vstd::prelude::*;
use crate::scalar::{BinOp, RedOp, Scalar, UnOp};
use crate::composite::{
    build, canon, clone_part, fma3, lane_at, lemma_canon_same_shape, lemma_canon_wf,
    lemma_same_shape_sym, lemma_shape_canon, map1, map2, reduce, reduce_spec, supported_width,
    to_vec, Part,
};

verus! {

/// A fixed-width packed vector of lanes of `S`.
#[derive(Debug)]
pub struct Packed<S> {
    /// The canonical composite assembly of the lanes.
    pub part: Part<S>,
    /// The declared logical width.
    pub width: usize,
}

impl<S: Scalar> Packed<S> {
    /// Well-formed: the width is supported, and the tree is the canonical
    /// assembly of exactly that many logical lanes.
    pub open spec fn wf(self) -> bool {
        &&& supported_width(self.width as int)
        &&& canon(self.part, self.width as int)
        &&& self.part.lanes().len() == self.width
    }

    /// The logical lanes, in lane order.
    pub open spec fn lanes(self) -> Seq<S> {
        self.part.lanes()
    }

    /// What the horizontal reduction `op` returns on this vector.
    pub open spec fn reduced(self, op: RedOp) -> S {
        reduce_spec(op, self.part)
    }

    /// Builds the vector whose lanes are exactly the elements of `v`.
    pub fn from_vec(v: Vec<S>) -> (r: Self)
        requires
            supported_width(v@.len() as int),
        ensures
            r.wf(),
            r.width == v@.len(),
            r.lanes() == v@,
    {
        let w = v.len();
        let part = build(w, &v, 0);
        proof {
            lemma_canon_wf(part, w as int);
            assert(v@.subrange(0, w as int) =~= v@);
        }
        Packed { part, width: w }
    }

    /// Builds the width-three vector from its three lanes and an explicit
    /// value for the fourth, physical-only lane of its register. The padding
    /// value does not appear in the contract: no result of this library
    /// depends on it.
    pub fn from_padded(lanes3: Vec<S>, pad: S) -> (r: Self)
        requires
            lanes3@.len() == 3,
        ensures
            r.wf(),
            r.width == 3,
            r.lanes() == lanes3@,
    {
        let mut lanes = lanes3;
        lanes.push(pad);
        let r = Packed { part: Part::Reg { width: 3, lanes }, width: 3 };
        proof {
            assert(r.lanes() =~= r.part->lanes@.take(3));
            assert(r.lanes() =~= lanes3@);
        }
        r
    }

    /// The vector with every lane filled with `x`.
    pub fn filled_with(x: S, w: usize) -> (r: Self)
        requires
            supported_width(w as int),
        ensures
            r.wf(),
            r.width == w,
            r.lanes() == Seq::new(w as nat, |i: int| x),
    {
        let mut v: Vec<S> = Vec::new();
        let mut i: usize = 0;
        while i < w
            invariant
                i <= w,
                v@ =~= Seq::new(i as nat, |j: int| x),
            decreases w - i,
        {
            v.push(x);
            i = i + 1;
        }
        let r = Self::from_vec(v);
        proof {
            assert(r.lanes() =~= Seq::new(w as nat, |i: int| x));
        }
        r
    }

    /// The lanes as one contiguous vector, lane order, no padding.
    pub fn to_vec(&self) -> (r: Vec<S>)
        requires
            self.wf(),
        ensures
            r@ == self.lanes(),
    {
        proof {
            lemma_canon_wf(self.part, self.width as int);
        }
        to_vec(&self.part)
    }

    /// Lane `i`.
    pub fn get(&self, i: usize) -> (r: S)
        requires
            self.wf(),
            i < self.width,
        ensures
            r == self.lanes()[i as int],
    {
        proof {
            lemma_canon_wf(self.part, self.width as int);
        }
        lane_at(&self.part, i)
    }

    /// The declared width.
    pub fn len(&self) -> (w: usize)
        requires
            self.wf(),
        ensures
            w == self.width,
            w == self.lanes().len(),
    {
        self.width
    }

    /// The binary lane operation `op`, lane by lane against `rhs`.
    pub fn map(&self, op: BinOp, rhs: &Self) -> (r: Self)
        requires
            self.wf(),
            rhs.wf(),
            self.width == rhs.width,
        ensures
            r.wf(),
            r.width == self.width,
            r.lanes().len() == self.width,
            forall|j: int|
                #![auto]
                0 <= j < self.width ==> r.lanes()[j] == S::bin_spec(
                    op,
                    self.lanes()[j],
                    rhs.lanes()[j],
                ),
    {
        proof {
            lemma_canon_wf(self.part, self.width as int);
            lemma_canon_wf(rhs.part, self.width as int);
            lemma_canon_same_shape(self.part, rhs.part, self.width as int);
        }
        let part = map2(op, &self.part, &rhs.part);
        proof {
            lemma_same_shape_sym(part, self.part);
            lemma_shape_canon(self.part, part, self.width as int);
        }
        Packed { part, width: self.width }
    }

    /// Elementwise addition.
    pub fn add(&self, rhs: &Self) -> (r: Self)
        requires
            self.wf(),
            rhs.wf(),
            self.width == rhs.width,
        ensures
            r.wf(),
            r.width == self.width,
            forall|j: int|
                #![auto]
                0 <= j < self.width ==> r.lanes()[j] == S::bin_spec(
                    BinOp::Add,
                    self.lanes()[j],
                    rhs.lanes()[j],
                ),
    {
        self.map(BinOp::Add, rhs)
    }

    /// Elementwise subtraction.
    pub fn sub(&self, rhs: &Self) -> (r: Self)
        requires
            self.wf(),
            rhs.wf(),
            self.width == rhs.width,
        ensures
            r.wf(),
            r.width == self.width,
            forall|j: int|
                #![auto]
                0 <= j < self.width ==> r.lanes()[j] == S::bin_spec(
                    BinOp::Sub,
                    self.lanes()[j],
                    rhs.lanes()[j],
                ),
    {
        self.map(BinOp::Sub, rhs)
    }

    /// Elementwise multiplication.
    pub fn mul(&self, rhs: &Self) -> (r: Self)
        requires
            self.wf(),
            rhs.wf(),
            self.width == rhs.width,
        ensures
            r.wf(),
            r.width == self.width,
            forall|j: int|
                #![auto]
                0 <= j < self.width ==> r.lanes()[j] == S::bin_spec(
                    BinOp::Mul,
                    self.lanes()[j],
                    rhs.lanes()[j],
                ),
    {
        self.map(BinOp::Mul, rhs)
    }

    /// Elementwise division.
    pub fn div(&self, rhs: &Self) -> (r: Self)
        requires
            self.wf(),
            rhs.wf(),
            self.width == rhs.width,
        ensures
            r.wf(),
            r.width == self.width,
            forall|j: int|
                #![auto]
                0 <= j < self.width ==> r.lanes()[j] == S::bin_spec(
                    BinOp::Div,
                    self.lanes()[j],
                    rhs.lanes()[j],
                ),
    {
        self.map(BinOp::Div, rhs)
    }

    /// Elementwise IEEE minNum.
    pub fn vmin(&self, rhs: &Self) -> (r: Self)
        requires
            self.wf(),
            rhs.wf(),
            self.width == rhs.width,
        ensures
            r.wf(),
            r.width == self.width,
            forall|j: int|
                #![auto]
                0 <= j < self.width ==> r.lanes()[j] == S::bin_spec(
                    BinOp::Min,
                    self.lanes()[j],
                    rhs.lanes()[j],
                ),
    {
        self.map(BinOp::Min, rhs)
    }

    /// Elementwise IEEE maxNum.
    pub fn vmax(&self, rhs: &Self) -> (r: Self)
        requires
            self.wf(),
            rhs.wf(),
            self.width == rhs.width,
        ensures
            r.wf(),
            r.width == self.width,
            forall|j: int|
                #![auto]
                0 <= j < self.width ==> r.lanes()[j] == S::bin_spec(
                    BinOp::Max,
                    self.lanes()[j],
                    rhs.lanes()[j],
                ),
    {
        self.map(BinOp::Max, rhs)
    }

    /// The binary lane operation `op` against the broadcast scalar `x` on the
    /// right: lane `j` of the result is `op(self[j], x)`.
    pub fn map_scalar(&self, op: BinOp, x: S) -> (r: Self)
        requires
            self.wf(),
        ensures
            r.wf(),
            r.width == self.width,
            forall|j: int|
                #![auto]
                0 <= j < self.width ==> r.lanes()[j] == S::bin_spec(op, self.lanes()[j], x),
    {
        let b = Self::filled_with(x, self.width);
        self.map(op, &b)
    }

    /// The binary lane operation `op` with the broadcast scalar `x` on the
    /// left: lane `j` of the result is `op(x, self[j])`.
    pub fn scalar_map(&self, op: BinOp, x: S) -> (r: Self)
        requires
            self.wf(),
        ensures
            r.wf(),
            r.width == self.width,
            forall|j: int|
                #![auto]
                0 <= j < self.width ==> r.lanes()[j] == S::bin_spec(op, x, self.lanes()[j]),
    {
        let b = Self::filled_with(x, self.width);
        b.map(op, self)
    }

    /// `self + x`, the scalar broadcast to every lane.
    pub fn add_scalar(&self, x: S) -> (r: Self)
        requires
            self.wf(),
        ensures
            r.wf(),
            r.width == self.width,
            forall|j: int|
                #![auto]
                0 <= j < self.width ==> r.lanes()[j] == S::bin_spec(
                    BinOp::Add,
                    self.lanes()[j],
                    x,
                ),
    {
        self.map_scalar(BinOp::Add, x)
    }

    /// `self - x`, the scalar broadcast to every lane.
    pub fn sub_scalar(&self, x: S) -> (r: Self)
        requires
            self.wf(),
        ensures
            r.wf(),
            r.width == self.width,
            forall|j: int|
                #![auto]
                0 <= j < self.width ==> r.lanes()[j] == S::bin_spec(
                    BinOp::Sub,
                    self.lanes()[j],
                    x,
                ),
    {
        self.map_scalar(BinOp::Sub, x)
    }

    /// `self * x`, the scalar broadcast to every lane.
    pub fn mul_scalar(&self, x: S) -> (r: Self)
        requires
            self.wf(),
        ensures
            r.wf(),
            r.width == self.width,
            forall|j: int|
                #![auto]
                0 <= j < self.width ==> r.lanes()[j] == S::bin_spec(
                    BinOp::Mul,
                    self.lanes()[j],
                    x,
                ),
    {
        self.map_scalar(BinOp::Mul, x)
    }

    /// `self / x`, the scalar broadcast to every lane.
    pub fn div_scalar(&self, x: S) -> (r: Self)
        requires
            self.wf(),
        ensures
            r.wf(),
            r.width == self.width,
            forall|j: int|
                #![auto]
                0 <= j < self.width ==> r.lanes()[j] == S::bin_spec(
                    BinOp::Div,
                    self.lanes()[j],
                    x,
                ),
    {
        self.map_scalar(BinOp::Div, x)
    }

    /// `x - self`, the scalar broadcast to every lane on the left.
    pub fn scalar_sub(&self, x: S) -> (r: Self)
        requires
            self.wf(),
        ensures
            r.wf(),
            r.width == self.width,
            forall|j: int|
                #![auto]
                0 <= j < self.width ==> r.lanes()[j] == S::bin_spec(
                    BinOp::Sub,
                    x,
                    self.lanes()[j],
                ),
    {
        self.scalar_map(BinOp::Sub, x)
    }

    /// `x / self`, the scalar broadcast to every lane on the left.
    pub fn scalar_div(&self, x: S) -> (r: Self)
        requires
            self.wf(),
        ensures
            r.wf(),
            r.width == self.width,
            forall|j: int|
                #![auto]
                0 <= j < self.width ==> r.lanes()[j] == S::bin_spec(
                    BinOp::Div,
                    x,
                    self.lanes()[j],
                ),
    {
        self.scalar_map(BinOp::Div, x)
    }

    /// The unary lane operation `op`, lane by lane.
    pub fn map_one(&self, op: UnOp) -> (r: Self)
        requires
            self.wf(),
        ensures
            r.wf(),
            r.width == self.width,
            forall|j: int|
                #![auto]
                0 <= j < self.width ==> r.lanes()[j] == S::un_spec(op, self.lanes()[j]),
    {
        proof {
            lemma_canon_wf(self.part, self.width as int);
        }
        let part = map1(op, &self.part);
        proof {
            lemma_same_shape_sym(part, self.part);
            lemma_shape_canon(self.part, part, self.width as int);
        }
        Packed { part, width: self.width }
    }

    /// Elementwise negation: the sign of every lane flipped.
    pub fn neg(&self) -> (r: Self)
        requires
            self.wf(),
        ensures
            r.wf(),
            r.width == self.width,
            forall|j: int|
                #![auto]
                0 <= j < self.width ==> r.lanes()[j] == S::un_spec(UnOp::Neg, self.lanes()[j]),
    {
        self.map_one(UnOp::Neg)
    }

    /// Elementwise absolute value: the sign of every lane cleared.
    pub fn abs(&self) -> (r: Self)
        requires
            self.wf(),
        ensures
            r.wf(),
            r.width == self.width,
            forall|j: int|
                #![auto]
                0 <= j < self.width ==> r.lanes()[j] == S::un_spec(UnOp::Abs, self.lanes()[j]),
    {
        self.map_one(UnOp::Abs)
    }

    /// Elementwise square root, by the documented bit-trick approximation.
    pub fn sqrt(&self) -> (r: Self)
        requires
            self.wf(),
        ensures
            r.wf(),
            r.width == self.width,
            forall|j: int|
                #![auto]
                0 <= j < self.width ==> r.lanes()[j] == S::un_spec(UnOp::Sqrt, self.lanes()[j]),
    {
        self.map_one(UnOp::Sqrt)
    }

    /// Fused multiply-add: `self * rhs + add`, lane by lane, one rounding per
    /// lane.
    pub fn mul_add(&self, rhs: &Self, add: &Self) -> (r: Self)
        requires
            self.wf(),
            rhs.wf(),
            add.wf(),
            self.width == rhs.width,
            self.width == add.width,
        ensures
            r.wf(),
            r.width == self.width,
            forall|j: int|
                #![auto]
                0 <= j < self.width ==> r.lanes()[j] == S::fma_spec(
                    self.lanes()[j],
                    rhs.lanes()[j],
                    add.lanes()[j],
                ),
    {
        proof {
            lemma_canon_wf(self.part, self.width as int);
            lemma_canon_wf(rhs.part, self.width as int);
            lemma_canon_wf(add.part, self.width as int);
            lemma_canon_same_shape(self.part, rhs.part, self.width as int);
            lemma_canon_same_shape(self.part, add.part, self.width as int);
        }
        let part = fma3(&self.part, &rhs.part, &add.part);
        proof {
            lemma_same_shape_sym(part, self.part);
            lemma_shape_canon(self.part, part, self.width as int);
        }
        Packed { part, width: self.width }
    }

    /// Interleaves the lanes of the two vectors: even output lanes come from
    /// `self`, odd output lanes from `rhs`, each side read in order.
    pub fn zip(&self, rhs: &Self) -> (r: Self)
        requires
            self.wf(),
            rhs.wf(),
            self.width == rhs.width,
        ensures
            r.wf(),
            r.width == self.width,
            forall|k: int|
                #![auto]
                0 <= k < self.width ==> r.lanes()[k] == if k % 2 == 0 {
                    self.lanes()[k / 2]
                } else {
                    rhs.lanes()[k / 2]
                },
    {
        let va = self.to_vec();
        let vb = rhs.to_vec();
        let w = self.width;
        let mut out: Vec<S> = Vec::new();
        let mut k: usize = 0;
        while k < w
            invariant
                k <= w,
                va@.len() == w,
                vb@.len() == w,
                out@.len() == k,
                forall|j: int|
                    #![auto]
                    0 <= j < k ==> out@[j] == if j % 2 == 0 {
                        va@[j / 2]
                    } else {
                        vb@[j / 2]
                    },
            decreases w - k,
        {
            if k % 2 == 0 {
                out.push(va[k / 2]);
            } else {
                out.push(vb[k / 2]);
            }
            k = k + 1;
        }
        let part = build(w, &out, 0);
        proof {
            lemma_canon_wf(part, w as int);
            assert(out@.subrange(0, w as int) =~= out@);
        }
        Packed { part, width: w }
    }

    /// Reduces the lanes with `op`: each leaf folds its logical lanes left to
    /// right, each pair combines its parts' results with the same operation.
    pub fn reduce(&self, op: RedOp) -> (r: S)
        requires
            self.wf(),
        ensures
            r == self.reduced(op),
    {
        proof {
            lemma_canon_wf(self.part, self.width as int);
        }
        reduce(op, &self.part)
    }

    /// Sum of all lanes.
    pub fn sum(&self) -> (r: S)
        requires
            self.wf(),
        ensures
            r == self.reduced(RedOp::Sum),
    {
        self.reduce(RedOp::Sum)
    }

    /// Product of all lanes.
    pub fn prod(&self) -> (r: S)
        requires
            self.wf(),
        ensures
            r == self.reduced(RedOp::Prod),
    {
        self.reduce(RedOp::Prod)
    }

    /// Smallest lane, by IEEE minNum.
    pub fn min(&self) -> (r: S)
        requires
            self.wf(),
        ensures
            r == self.reduced(RedOp::Min),
    {
        self.reduce(RedOp::Min)
    }

    /// Largest lane, by IEEE maxNum.
    pub fn max(&self) -> (r: S)
        requires
            self.wf(),
        ensures
            r == self.reduced(RedOp::Max),
    {
        self.reduce(RedOp::Max)
    }

    /// Bitwise equality of the lanes: true exactly when both vectors have the
    /// same width and every lane's encoding is identical. Padding lanes play
    /// no part.
    pub fn equals(&self, rhs: &Self) -> (r: bool)
        requires
            self.wf(),
            rhs.wf(),
        ensures
            r == (self.lanes() == rhs.lanes()),
    {
        let va = self.to_vec();
        let vb = rhs.to_vec();
        if va.len() != vb.len() {
            proof {
                assert(self.lanes().len() != rhs.lanes().len());
            }
            return false;
        }
        let n = va.len();
        let mut i: usize = 0;
        while i < n
            invariant
                i <= n,
                va@.len() == n,
                vb@.len() == n,
                va@ == self.lanes(),
                vb@ == rhs.lanes(),
                forall|j: int| #![auto] 0 <= j < i ==> va@[j] == vb@[j],
            decreases n - i,
        {
            if !S::lane_eq(va[i], vb[i]) {
                proof {
                    assert(self.lanes()[i as int] != rhs.lanes()[i as int]);
                }
                return false;
            }
            i = i + 1;
        }
        proof {
            assert(self.lanes() =~= rhs.lanes());
        }
        true
    }

    /// Bitwise lane inequality: the exact negation of `equals`, so a vector
    /// never differs from itself, NaN lanes included.
    pub fn ne(&self, rhs: &Self) -> (r: bool)
        requires
            self.wf(),
            rhs.wf(),
        ensures
            r == !(self.lanes() == rhs.lanes()),
    {
        !self.equals(rhs)
    }

    /// `self += rhs`, defined as `self = self.add(rhs)`.
    pub fn add_assign(&mut self, rhs: &Self)
        requires
            old(self).wf(),
            rhs.wf(),
            old(self).width == rhs.width,
        ensures
            final(self).wf(),
            final(self).width == old(self).width,
            forall|j: int|
                #![auto]
                0 <= j < old(self).width ==> final(self).lanes()[j] == S::bin_spec(
                    BinOp::Add,
                    old(self).lanes()[j],
                    rhs.lanes()[j],
                ),
    {
        let r = Self::add(&*self, rhs);
        *self = r;
    }

    /// `self -= rhs`, defined as `self = self.sub(rhs)`.
    pub fn sub_assign(&mut self, rhs: &Self)
        requires
            old(self).wf(),
            rhs.wf(),
            old(self).width == rhs.width,
        ensures
            final(self).wf(),
            final(self).width == old(self).width,
            forall|j: int|
                #![auto]
                0 <= j < old(self).width ==> final(self).lanes()[j] == S::bin_spec(
                    BinOp::Sub,
                    old(self).lanes()[j],
                    rhs.lanes()[j],
                ),
    {
        let r = Self::sub(&*self, rhs);
        *self = r;
    }

    /// `self *= rhs`, defined as `self = self.mul(rhs)`.
    pub fn mul_assign(&mut self, rhs: &Self)
        requires
            old(self).wf(),
            rhs.wf(),
            old(self).width == rhs.width,
        ensures
            final(self).wf(),
            final(self).width == old(self).width,
            forall|j: int|
                #![auto]
                0 <= j < old(self).width ==> final(self).lanes()[j] == S::bin_spec(
                    BinOp::Mul,
                    old(self).lanes()[j],
                    rhs.lanes()[j],
                ),
    {
        let r = Self::mul(&*self, rhs);
        *self = r;
    }

    /// `self /= rhs`, defined as `self = self.div(rhs)`.
    pub fn div_assign(&mut self, rhs: &Self)
        requires
            old(self).wf(),
            rhs.wf(),
            old(self).width == rhs.width,
        ensures
            final(self).wf(),
            final(self).width == old(self).width,
            forall|j: int|
                #![auto]
                0 <= j < old(self).width ==> final(self).lanes()[j] == S::bin_spec(
                    BinOp::Div,
                    old(self).lanes()[j],
                    rhs.lanes()[j],
                ),
    {
        let r = Self::div(&*self, rhs);
        *self = r;
    }
}

impl<S: Scalar> Clone for Packed<S> {
    /// A clone has the same width and the same lanes.
    fn clone(&self) -> (r: Self)
        ensures
            r.width == self.width,
            r.lanes() == self.lanes(),
            self.wf() ==> r.wf(),
    {
        let part = clone_part(&self.part);
        proof {
            if self.wf() {
                lemma_same_shape_sym(part, self.part);
                lemma_shape_canon(self.part, part, self.width as int);
            }
        }
        Packed { part, width: self.width }
    }
}

} // verus!
