//! Laws of the vector algebra, stated once and proved.
//!
//! The elementwise, broadcast, interleave and fused-multiply-add laws are the
//! `ensures` clauses of the operations themselves; this module states the laws
//! that relate several operations or several vectors to each other.

use vstd::prelude::*;
use crate::composite::{canon, fold1, lemma_canon_wf, Part};
use crate::packed::Packed;
use crate::scalar::{BinOp, RedOp, Scalar};
use crate::scalar32::{max32, min32};
use crate::scalar64::{max64, min64};

verus! {

/// IEEE minNum on single-precision patterns is associative.
pub proof fn lemma_min32_assoc(a: u32, b: u32, c: u32)
    by (bit_vector)
    ensures
        min32(min32(a, b), c) == min32(a, min32(b, c)),
{
}

/// IEEE maxNum on single-precision patterns is associative.
pub proof fn lemma_max32_assoc(a: u32, b: u32, c: u32)
    by (bit_vector)
    ensures
        max32(max32(a, b), c) == max32(a, max32(b, c)),
{
}

/// IEEE minNum on double-precision patterns is associative.
pub proof fn lemma_min64_assoc(a: u64, b: u64, c: u64)
    by (bit_vector)
    ensures
        min64(min64(a, b), c) == min64(a, min64(b, c)),
{
}

/// IEEE maxNum on double-precision patterns is associative.
pub proof fn lemma_max64_assoc(a: u64, b: u64, c: u64)
    by (bit_vector)
    ensures
        max64(max64(a, b), c) == max64(a, max64(b, c)),
{
}

/// Whether `op` is associative on `S`.
pub open spec fn bin_assoc<S: Scalar>(op: BinOp) -> bool {
    forall|x: S, y: S, z: S|
        #[trigger] S::bin_spec(op, S::bin_spec(op, x, y), z) == S::bin_spec(
            op,
            x,
            S::bin_spec(op, y, z),
        )
}

/// Under an associative operation, folding a concatenation equals combining
/// the folds of the pieces — the heart of the composite reduction law.
pub proof fn lemma_fold1_concat<S: Scalar>(op: BinOp, s: Seq<S>, t: Seq<S>)
    requires
        s.len() >= 1,
        t.len() >= 1,
        bin_assoc::<S>(op),
    ensures
        fold1(op, s + t) == S::bin_spec(op, fold1(op, s), fold1(op, t)),
    decreases t.len(),
{
    if t.len() == 1 {
        assert((s + t).drop_last() =~= s);
        assert((s + t).last() == t[0]);
    } else {
        assert((s + t).drop_last() =~= s + t.drop_last());
        lemma_fold1_concat(op, s, t.drop_last());
        assert((s + t).last() == t.last());
    }
}

/// A reduction whose combining operation is associative collapses the
/// composite tree away: the tree-shaped reduction of a canonical vector
/// equals the flat left-to-right fold of its logical lanes.
pub proof fn lemma_reduce_flat<S: Scalar>(op: RedOp, p: Part<S>, w: int)
    requires
        canon(p, w),
        bin_assoc::<S>(op.combining()),
    ensures
        crate::composite::reduce_spec(op, p) == fold1(op.combining(), p.lanes()),
    decreases w,
{
    lemma_canon_wf(p, w);
    match p {
        Part::Reg { width, lanes } => {},
        Part::Pair(a, b) => {
            let (wa, wb): (int, int) = if w == 6 {
                (4, 2)
            } else if w == 8 {
                (4, 4)
            } else if w == 10 {
                (8, 2)
            } else if w == 12 {
                (8, 4)
            } else if w == 14 {
                (8, 6)
            } else {
                (8, 8)
            };
            lemma_reduce_flat(op, *a, wa);
            lemma_reduce_flat(op, *b, wb);
            lemma_canon_wf(*a, wa);
            lemma_canon_wf(*b, wb);
            lemma_fold1_concat(op.combining(), a.lanes(), b.lanes());
        },
    }
}

/// Reductions read the logical lanes and nothing else: two canonical vectors
/// of one width with identical logical lanes reduce identically, whatever
/// their padding lanes hold.
pub proof fn lemma_reduce_lanes_only<S: Scalar>(op: RedOp, p: Part<S>, q: Part<S>, w: int)
    requires
        canon(p, w),
        canon(q, w),
        p.lanes() == q.lanes(),
    ensures
        crate::composite::reduce_spec(op, p) == crate::composite::reduce_spec(op, q),
    decreases w,
{
    lemma_canon_wf(p, w);
    lemma_canon_wf(q, w);
    match (p, q) {
        (Part::Pair(a1, a2), Part::Pair(b1, b2)) => {
            let (wa, wb): (int, int) = if w == 6 {
                (4, 2)
            } else if w == 8 {
                (4, 4)
            } else if w == 10 {
                (8, 2)
            } else if w == 12 {
                (8, 4)
            } else if w == 14 {
                (8, 6)
            } else {
                (8, 8)
            };
            lemma_canon_wf(*a1, wa);
            lemma_canon_wf(*a2, wb);
            lemma_canon_wf(*b1, wa);
            lemma_canon_wf(*b2, wb);
            assert forall|i: int| 0 <= i < wa implies #[trigger] a1.lanes()[i] == b1.lanes()[i] by {
                assert(a1.lanes()[i] == p.lanes()[i]);
                assert(b1.lanes()[i] == q.lanes()[i]);
            }
            assert(a1.lanes() =~= b1.lanes());
            assert forall|i: int| 0 <= i < wb implies #[trigger] a2.lanes()[i] == b2.lanes()[i] by {
                assert(a2.lanes()[i] == p.lanes()[wa + i]);
                assert(b2.lanes()[i] == q.lanes()[wa + i]);
            }
            assert(a2.lanes() =~= b2.lanes());
            lemma_reduce_lanes_only(op, *a1, *b1, wa);
            lemma_reduce_lanes_only(op, *a2, *b2, wb);
        },
        _ => {},
    }
}

/// Padding invariance: what a result of this library is never depends on a
/// physical lane beyond a vector's logical width. Two well-formed vectors
/// with the same logical lanes — built, say, with different values poisoning
/// the spare fourth register lane of a width-three vector — have equal
/// reductions; every other operation's contract is already stated over the
/// logical lanes alone.
pub proof fn lemma_padding_invariance<S: Scalar>(a: Packed<S>, b: Packed<S>, op: RedOp)
    requires
        a.wf(),
        b.wf(),
        a.width == b.width,
        a.lanes() == b.lanes(),
    ensures
        a.reduced(op) == b.reduced(op),
{
    lemma_reduce_lanes_only(op, a.part, b.part, a.width as int);
}

/// Round-trip law: a vector carrying lanes `src` reads back exactly `src`,
/// bit for bit — `from_vec` establishes the first premise, `to_vec` the
/// second, for every lane pattern including NaNs with any payload.
pub proof fn lemma_round_trip<S: Scalar>(src: Seq<S>, v: Packed<S>, out: Seq<S>)
    requires
        v.lanes() == src,
        out == v.lanes(),
    ensures
        out == src,
{
}

/// Minimum reduction of a single-precision vector is exactly the fold of
/// minNum over its lanes, whatever the composite assembly.
pub proof fn lemma_min_fold_single(v: Packed<u32>)
    requires
        v.wf(),
    ensures
        v.reduced(RedOp::Min) == fold1(BinOp::Min, v.lanes()),
{
    assert forall|x: u32, y: u32, z: u32|
        #[trigger] u32::bin_spec(BinOp::Min, u32::bin_spec(BinOp::Min, x, y), z) == u32::bin_spec(
        BinOp::Min,
        x,
        u32::bin_spec(BinOp::Min, y, z),
    ) by {
        lemma_min32_assoc(x, y, z);
    }
    lemma_reduce_flat(RedOp::Min, v.part, v.width as int);
}

/// Maximum reduction of a single-precision vector is exactly the fold of
/// maxNum over its lanes, whatever the composite assembly.
pub proof fn lemma_max_fold_single(v: Packed<u32>)
    requires
        v.wf(),
    ensures
        v.reduced(RedOp::Max) == fold1(BinOp::Max, v.lanes()),
{
    assert forall|x: u32, y: u32, z: u32|
        #[trigger] u32::bin_spec(BinOp::Max, u32::bin_spec(BinOp::Max, x, y), z) == u32::bin_spec(
        BinOp::Max,
        x,
        u32::bin_spec(BinOp::Max, y, z),
    ) by {
        lemma_max32_assoc(x, y, z);
    }
    lemma_reduce_flat(RedOp::Max, v.part, v.width as int);
}

/// Minimum reduction of a double-precision vector is exactly the fold of
/// minNum over its lanes, whatever the composite assembly.
pub proof fn lemma_min_fold_double(v: Packed<u64>)
    requires
        v.wf(),
    ensures
        v.reduced(RedOp::Min) == fold1(BinOp::Min, v.lanes()),
{
    assert forall|x: u64, y: u64, z: u64|
        #[trigger] u64::bin_spec(BinOp::Min, u64::bin_spec(BinOp::Min, x, y), z) == u64::bin_spec(
        BinOp::Min,
        x,
        u64::bin_spec(BinOp::Min, y, z),
    ) by {
        lemma_min64_assoc(x, y, z);
    }
    lemma_reduce_flat(RedOp::Min, v.part, v.width as int);
}

/// Maximum reduction of a double-precision vector is exactly the fold of
/// maxNum over its lanes, whatever the composite assembly.
pub proof fn lemma_max_fold_double(v: Packed<u64>)
    requires
        v.wf(),
    ensures
        v.reduced(RedOp::Max) == fold1(BinOp::Max, v.lanes()),
{
    assert forall|x: u64, y: u64, z: u64|
        #[trigger] u64::bin_spec(BinOp::Max, u64::bin_spec(BinOp::Max, x, y), z) == u64::bin_spec(
        BinOp::Max,
        x,
        u64::bin_spec(BinOp::Max, y, z),
    ) by {
        lemma_max64_assoc(x, y, z);
    }
    lemma_reduce_flat(RedOp::Max, v.part, v.width as int);
}

} // verus!
