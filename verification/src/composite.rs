//! The composite-vector algebra.
//!
//! A vector value is a tree: a leaf (`Reg`) models one register of the active
//! backend and holds its physical lanes directly, a `Pair` glues two narrower
//! vectors side by side to reach a width no single register supports. The
//! logical lanes of a leaf are the first `width` physical lanes; a leaf may
//! carry spare physical lanes beyond its logical width (a three-lane vector
//! lives in a four-lane register), and nothing the library computes may depend
//! on what those padding lanes hold. The logical lanes of a pair are the
//! logical lanes of its left part followed by those of its right part, so part
//! widths always sum exactly to the declared width.
//!
//! This build selects the portable array-backed tier, whose registers carry
//! two, three-in-four, or four lanes; every wider width is assembled by
//! pairing, following one fixed table (`canon`): 6 = 4+2, 8 = 4+4, 10 = 8+2,
//! 12 = 8+4, 14 = 8+6, 16 = 8+8, with the composite 6 and 8 reused inside the
//! wider rows.

use vstd::prelude::*;
use crate::scalar::{BinOp, RedOp, Scalar, UnOp};

verus! {

/// One node of a composite vector: a register leaf or a pair of sub-vectors.
#[derive(Debug)]
pub enum Part<S> {
    Reg { width: usize, lanes: Vec<S> },
    Pair(Box<Part<S>>, Box<Part<S>>),
}

impl<S> Part<S> {
    /// The logical lanes, in lane order. Padding lanes of a leaf are not part
    /// of the sequence.
    pub open spec fn lanes(self) -> Seq<S>
        decreases self,
    {
        match self {
            Part::Reg { width, lanes } => lanes@.take(width as int),
            Part::Pair(a, b) => a.lanes() + b.lanes(),
        }
    }

    /// Well-formed: every leaf has at least one logical lane and enough
    /// physical lanes to hold them.
    pub open spec fn wf(self) -> bool
        decreases self,
    {
        match self {
            Part::Reg { width, lanes } => 1 <= width <= lanes@.len(),
            Part::Pair(a, b) => a.wf() && b.wf(),
        }
    }

    /// Two vectors have the same shape: the same tree, with leaves of equal
    /// logical and physical widths. Elementwise operations preserve shape and
    /// require it of both operands.
    pub open spec fn same_shape(self, o: Part<S>) -> bool
        decreases self,
    {
        match (self, o) {
            (Part::Reg { width: wa, lanes: la }, Part::Reg { width: wb, lanes: lb }) => wa == wb
                && la@.len() == lb@.len(),
            (Part::Pair(a1, a2), Part::Pair(b1, b2)) => a1.same_shape(*b1) && a2.same_shape(*b2),
            _ => false,
        }
    }
}

/// Vectors of one shape have equally many logical lanes.
pub proof fn lemma_same_shape_len<S>(a: Part<S>, b: Part<S>)
    requires
        a.wf(),
        b.wf(),
        a.same_shape(b),
    ensures
        a.lanes().len() == b.lanes().len(),
    decreases a,
{
    match (a, b) {
        (Part::Pair(a1, a2), Part::Pair(b1, b2)) => {
            lemma_same_shape_len(*a1, *b1);
            lemma_same_shape_len(*a2, *b2);
        },
        _ => {},
    }
}

/// Shape agreement is symmetric.
pub proof fn lemma_same_shape_sym<S>(a: Part<S>, b: Part<S>)
    requires
        a.same_shape(b),
    ensures
        b.same_shape(a),
    decreases a,
{
    match (a, b) {
        (Part::Pair(a1, a2), Part::Pair(b1, b2)) => {
            lemma_same_shape_sym(*a1, *b1);
            lemma_same_shape_sym(*a2, *b2);
        },
        _ => {},
    }
}

/// The widths this library supports.
pub open spec fn supported_width(w: int) -> bool {
    w == 2 || w == 3 || w == 4 || w == 6 || w == 8 || w == 10 || w == 12 || w == 14 || w == 16
}

/// The canonical assembly of a width-`w` vector in the portable tier: widths
/// two and four fill one register exactly, width three pads a four-lane
/// register, and the wider widths pair canonical parts per the fixed table.
pub open spec fn canon<S>(p: Part<S>, w: int) -> bool
    decreases w,
{
    if w == 2 || w == 4 {
        p matches Part::Reg { width, lanes } && width == w && lanes@.len() == w
    } else if w == 3 {
        p matches Part::Reg { width, lanes } && width == 3 && lanes@.len() == 4
    } else if w == 6 {
        p matches Part::Pair(a, b) && canon(*a, 4) && canon(*b, 2)
    } else if w == 8 {
        p matches Part::Pair(a, b) && canon(*a, 4) && canon(*b, 4)
    } else if w == 10 {
        p matches Part::Pair(a, b) && canon(*a, 8) && canon(*b, 2)
    } else if w == 12 {
        p matches Part::Pair(a, b) && canon(*a, 8) && canon(*b, 4)
    } else if w == 14 {
        p matches Part::Pair(a, b) && canon(*a, 8) && canon(*b, 6)
    } else if w == 16 {
        p matches Part::Pair(a, b) && canon(*a, 8) && canon(*b, 8)
    } else {
        false
    }
}

/// A canonical width-`w` vector is well-formed and has exactly `w` logical
/// lanes.
pub proof fn lemma_canon_wf<S>(p: Part<S>, w: int)
    requires
        canon(p, w),
    ensures
        p.wf(),
        p.lanes().len() == w,
    decreases w,
{
    match p {
        Part::Reg { width, lanes } => {},
        Part::Pair(a, b) => {
            if w == 6 {
                lemma_canon_wf(*a, 4);
                lemma_canon_wf(*b, 2);
            } else if w == 8 {
                lemma_canon_wf(*a, 4);
                lemma_canon_wf(*b, 4);
            } else if w == 10 {
                lemma_canon_wf(*a, 8);
                lemma_canon_wf(*b, 2);
            } else if w == 12 {
                lemma_canon_wf(*a, 8);
                lemma_canon_wf(*b, 4);
            } else if w == 14 {
                lemma_canon_wf(*a, 8);
                lemma_canon_wf(*b, 6);
            } else {
                lemma_canon_wf(*a, 8);
                lemma_canon_wf(*b, 8);
            }
        },
    }
}

/// Two canonical vectors of one width have the same shape.
pub proof fn lemma_canon_same_shape<S>(p: Part<S>, q: Part<S>, w: int)
    requires
        canon(p, w),
        canon(q, w),
    ensures
        p.same_shape(q),
    decreases w,
{
    match (p, q) {
        (Part::Pair(a1, a2), Part::Pair(b1, b2)) => {
            if w == 6 {
                lemma_canon_same_shape(*a1, *b1, 4);
                lemma_canon_same_shape(*a2, *b2, 2);
            } else if w == 8 {
                lemma_canon_same_shape(*a1, *b1, 4);
                lemma_canon_same_shape(*a2, *b2, 4);
            } else if w == 10 {
                lemma_canon_same_shape(*a1, *b1, 8);
                lemma_canon_same_shape(*a2, *b2, 2);
            } else if w == 12 {
                lemma_canon_same_shape(*a1, *b1, 8);
                lemma_canon_same_shape(*a2, *b2, 4);
            } else if w == 14 {
                lemma_canon_same_shape(*a1, *b1, 8);
                lemma_canon_same_shape(*a2, *b2, 6);
            } else {
                lemma_canon_same_shape(*a1, *b1, 8);
                lemma_canon_same_shape(*a2, *b2, 8);
            }
        },
        _ => {},
    }
}

/// Shape carries canonicity: whatever has the shape of a canonical width-`w`
/// vector is itself canonical at width `w`.
pub proof fn lemma_shape_canon<S>(p: Part<S>, q: Part<S>, w: int)
    requires
        canon(p, w),
        p.same_shape(q),
    ensures
        canon(q, w),
    decreases w,
{
    match (p, q) {
        (Part::Pair(a1, a2), Part::Pair(b1, b2)) => {
            if w == 6 {
                lemma_shape_canon(*a1, *b1, 4);
                lemma_shape_canon(*a2, *b2, 2);
            } else if w == 8 {
                lemma_shape_canon(*a1, *b1, 4);
                lemma_shape_canon(*a2, *b2, 4);
            } else if w == 10 {
                lemma_shape_canon(*a1, *b1, 8);
                lemma_shape_canon(*a2, *b2, 2);
            } else if w == 12 {
                lemma_shape_canon(*a1, *b1, 8);
                lemma_shape_canon(*a2, *b2, 4);
            } else if w == 14 {
                lemma_shape_canon(*a1, *b1, 8);
                lemma_shape_canon(*a2, *b2, 6);
            } else {
                lemma_shape_canon(*a1, *b1, 8);
                lemma_shape_canon(*a2, *b2, 8);
            }
        },
        _ => {},
    }
}

/// Assembles the canonical width-`w` vector from `w` contiguous scalars of
/// `src` starting at `off`: each leaf takes its logical lanes in order, a pair
/// splits the range at the left part's width. The spare physical lane of a
/// width-three leaf is filled with the unspecified padding scalar.
pub fn build<S: Scalar>(w: usize, src: &Vec<S>, off: usize) -> (r: Part<S>)
    requires
        supported_width(w as int),
        off + w <= src.len(),
    ensures
        canon(r, w as int),
        r.lanes() == src@.subrange(off as int, off as int + w as int),
    decreases w,
{
    if w <= 4 {
        let mut lanes: Vec<S> = Vec::new();
        let mut i: usize = 0;
        while i < w
            invariant
                i <= w,
                off + w <= src.len(),
                lanes@ =~= src@.subrange(off as int, off as int + i as int),
            decreases w - i,
        {
            lanes.push(src[off + i]);
            i = i + 1;
        }
        if w == 3 {
            lanes.push(S::pad());
        }
        let r = Part::Reg { width: w, lanes };
        proof {
            assert(r.lanes() =~= src@.subrange(off as int, off as int + w as int));
        }
        r
    } else {
        let wa: usize = if w == 6 || w == 8 {
            4
        } else {
            8
        };
        let wb: usize = w - wa;
        let left = build(wa, src, off);
        let right = build(wb, src, off + wa);
        let r = Part::Pair(Box::new(left), Box::new(right));
        proof {
            assert(r.lanes() =~= src@.subrange(off as int, off as int + w as int));
        }
        r
    }
}

/// Applies the binary lane operation `op` lane by lane: both operands must
/// have one shape, each leaf pair is combined lane by lane, each sub-vector
/// pair independently — lanes are disjoint by construction, so no part ever
/// reads another part's lanes. Padding lanes of the result are copied from the
/// left operand, untouched by the operation.
pub fn map2<S: Scalar>(op: BinOp, a: &Part<S>, b: &Part<S>) -> (r: Part<S>)
    requires
        a.wf(),
        b.wf(),
        a.same_shape(*b),
    ensures
        r.wf(),
        r.same_shape(*a),
        r.lanes().len() == a.lanes().len(),
        forall|j: int|
            #![auto]
            0 <= j < a.lanes().len() ==> r.lanes()[j] == S::bin_spec(op, a.lanes()[j], b.lanes()[j]),
    decreases *a,
{
    match (a, b) {
        (Part::Reg { width, lanes: la }, Part::Reg { width: _, lanes: lb }) => {
            let n: usize = la.len();
            let mut out: Vec<S> = Vec::new();
            let mut i: usize = 0;
            while i < *width
                invariant
                    i <= *width,
                    *width <= n,
                    n == la@.len(),
                    n == lb@.len(),
                    out@.len() == i,
                    forall|j: int|
                        #![auto]
                        0 <= j < i ==> out@[j] == S::bin_spec(op, la@[j], lb@[j]),
                decreases *width - i,
            {
                out.push(S::bin(op, la[i], lb[i]));
                i = i + 1;
            }
            while i < n
                invariant
                    *width <= i <= n,
                    n == la@.len(),
                    out@.len() == i,
                    forall|j: int|
                        #![auto]
                        0 <= j < *width ==> out@[j] == S::bin_spec(op, la@[j], lb@[j]),
                decreases n - i,
            {
                out.push(la[i]);
                i = i + 1;
            }
            Part::Reg { width: *width, lanes: out }
        },
        (Part::Pair(a1, a2), Part::Pair(b1, b2)) => {
            let r1 = map2(op, a1, b1);
            let r2 = map2(op, a2, b2);
            let r = Part::Pair(Box::new(r1), Box::new(r2));
            proof {
                let la = a1.lanes().len() as int;
                lemma_same_shape_len(**a1, **b1);
                lemma_same_shape_len(**a2, **b2);
                assert forall|j: int| 0 <= j < a.lanes().len() implies #[trigger] r.lanes()[j]
                    == S::bin_spec(op, a.lanes()[j], b.lanes()[j]) by {
                    if j < la {
                        assert(r.lanes()[j] == r1.lanes()[j]);
                        assert(a.lanes()[j] == a1.lanes()[j]);
                        assert(b.lanes()[j] == b1.lanes()[j]);
                    } else {
                        assert(r.lanes()[j] == r2.lanes()[j - la]);
                        assert(a.lanes()[j] == a2.lanes()[j - la]);
                        assert(b.lanes()[j] == b2.lanes()[j - la]);
                    }
                }
            }
            r
        },
        _ => {
            proof {
                assert(false);
            }
            Part::Reg { width: 1, lanes: Vec::new() }
        },
    }
}

/// Applies the unary lane operation `op` lane by lane. Padding lanes are
/// copied through untouched.
pub fn map1<S: Scalar>(op: UnOp, a: &Part<S>) -> (r: Part<S>)
    requires
        a.wf(),
    ensures
        r.wf(),
        r.same_shape(*a),
        r.lanes().len() == a.lanes().len(),
        forall|j: int|
            #![auto]
            0 <= j < a.lanes().len() ==> r.lanes()[j] == S::un_spec(op, a.lanes()[j]),
    decreases *a,
{
    match a {
        Part::Reg { width, lanes: la } => {
            let n: usize = la.len();
            let mut out: Vec<S> = Vec::new();
            let mut i: usize = 0;
            while i < *width
                invariant
                    i <= *width,
                    *width <= n,
                    n == la@.len(),
                    out@.len() == i,
                    forall|j: int| #![auto] 0 <= j < i ==> out@[j] == S::un_spec(op, la@[j]),
                decreases *width - i,
            {
                out.push(S::un(op, la[i]));
                i = i + 1;
            }
            while i < n
                invariant
                    *width <= i <= n,
                    n == la@.len(),
                    out@.len() == i,
                    forall|j: int| #![auto] 0 <= j < *width ==> out@[j] == S::un_spec(op, la@[j]),
                decreases n - i,
            {
                out.push(la[i]);
                i = i + 1;
            }
            Part::Reg { width: *width, lanes: out }
        },
        Part::Pair(a1, a2) => {
            let r1 = map1(op, a1);
            let r2 = map1(op, a2);
            let r = Part::Pair(Box::new(r1), Box::new(r2));
            proof {
                let la = a1.lanes().len() as int;
                assert forall|j: int| 0 <= j < a.lanes().len() implies #[trigger] r.lanes()[j]
                    == S::un_spec(op, a.lanes()[j]) by {
                    if j < la {
                        assert(r.lanes()[j] == r1.lanes()[j]);
                        assert(a.lanes()[j] == a1.lanes()[j]);
                    } else {
                        assert(r.lanes()[j] == r2.lanes()[j - la]);
                        assert(a.lanes()[j] == a2.lanes()[j - la]);
                    }
                }
            }
            r
        },
    }
}

/// The fused multiply-add `a * b + c`, lane by lane, decomposed over the parts
/// like the other elementwise operations. Padding lanes are copied from `a`.
pub fn fma3<S: Scalar>(a: &Part<S>, b: &Part<S>, c: &Part<S>) -> (r: Part<S>)
    requires
        a.wf(),
        b.wf(),
        c.wf(),
        a.same_shape(*b),
        a.same_shape(*c),
    ensures
        r.wf(),
        r.same_shape(*a),
        r.lanes().len() == a.lanes().len(),
        forall|j: int|
            #![auto]
            0 <= j < a.lanes().len() ==> r.lanes()[j] == S::fma_spec(
                a.lanes()[j],
                b.lanes()[j],
                c.lanes()[j],
            ),
    decreases *a,
{
    match (a, b, c) {
        (
            Part::Reg { width, lanes: la },
            Part::Reg { width: _, lanes: lb },
            Part::Reg { width: _, lanes: lc },
        ) => {
            let n: usize = la.len();
            let mut out: Vec<S> = Vec::new();
            let mut i: usize = 0;
            while i < *width
                invariant
                    i <= *width,
                    *width <= n,
                    n == la@.len(),
                    n == lb@.len(),
                    n == lc@.len(),
                    out@.len() == i,
                    forall|j: int|
                        #![auto]
                        0 <= j < i ==> out@[j] == S::fma_spec(la@[j], lb@[j], lc@[j]),
                decreases *width - i,
            {
                out.push(S::fma(la[i], lb[i], lc[i]));
                i = i + 1;
            }
            while i < n
                invariant
                    *width <= i <= n,
                    n == la@.len(),
                    out@.len() == i,
                    forall|j: int|
                        #![auto]
                        0 <= j < *width ==> out@[j] == S::fma_spec(la@[j], lb@[j], lc@[j]),
                decreases n - i,
            {
                out.push(la[i]);
                i = i + 1;
            }
            Part::Reg { width: *width, lanes: out }
        },
        (Part::Pair(a1, a2), Part::Pair(b1, b2), Part::Pair(c1, c2)) => {
            let r1 = fma3(a1, b1, c1);
            let r2 = fma3(a2, b2, c2);
            let r = Part::Pair(Box::new(r1), Box::new(r2));
            proof {
                let la = a1.lanes().len() as int;
                lemma_same_shape_len(**a1, **b1);
                lemma_same_shape_len(**a1, **c1);
                lemma_same_shape_len(**a2, **b2);
                lemma_same_shape_len(**a2, **c2);
                assert forall|j: int| 0 <= j < a.lanes().len() implies #[trigger] r.lanes()[j]
                    == S::fma_spec(a.lanes()[j], b.lanes()[j], c.lanes()[j]) by {
                    if j < la {
                        assert(r.lanes()[j] == r1.lanes()[j]);
                        assert(a.lanes()[j] == a1.lanes()[j]);
                        assert(b.lanes()[j] == b1.lanes()[j]);
                        assert(c.lanes()[j] == c1.lanes()[j]);
                    } else {
                        assert(r.lanes()[j] == r2.lanes()[j - la]);
                        assert(a.lanes()[j] == a2.lanes()[j - la]);
                        assert(b.lanes()[j] == b2.lanes()[j - la]);
                        assert(c.lanes()[j] == c2.lanes()[j - la]);
                    }
                }
            }
            r
        },
        _ => {
            proof {
                assert(false);
            }
            Part::Reg { width: 1, lanes: Vec::new() }
        },
    }
}

/// The left-to-right fold of a nonempty lane sequence under the binary
/// operation `op`: `op(..op(op(s[0], s[1]), s[2]).., s[len-1])`.
pub open spec fn fold1<S: Scalar>(op: BinOp, s: Seq<S>) -> S
    recommends
        s.len() >= 1,
    decreases s.len(),
{
    if s.len() <= 1 {
        s[0]
    } else {
        S::bin_spec(op, fold1(op, s.drop_last()), s.last())
    }
}

/// The fold of a two-lane sequence, written out.
pub proof fn lemma_fold2<S: Scalar>(op: BinOp, s: Seq<S>)
    requires
        s.len() == 2,
    ensures
        fold1(op, s) == S::bin_spec(op, s[0], s[1]),
{
    assert(fold1(op, s.drop_last()) == s[0]);
    assert(s.last() == s[1]);
}

/// The fold of a three-lane sequence, written out.
pub proof fn lemma_fold3<S: Scalar>(op: BinOp, s: Seq<S>)
    requires
        s.len() == 3,
    ensures
        fold1(op, s) == S::bin_spec(op, S::bin_spec(op, s[0], s[1]), s[2]),
{
    lemma_fold2(op, s.drop_last());
    assert(s.drop_last()[0] == s[0]);
    assert(s.drop_last()[1] == s[1]);
    assert(s.last() == s[2]);
}

/// What a horizontal reduction returns: a leaf folds its logical lanes left to
/// right — padding lanes take no part — and a pair combines its two parts'
/// already reduced scalars with the same operation the reduction is made of.
pub open spec fn reduce_spec<S: Scalar>(op: RedOp, p: Part<S>) -> S
    decreases p,
{
    match p {
        Part::Reg { width, lanes } => fold1(op.combining(), lanes@.take(width as int)),
        Part::Pair(a, b) => S::bin_spec(op.combining(), reduce_spec(op, *a), reduce_spec(op, *b)),
    }
}

/// Reduces all logical lanes of `p` to one scalar. A leaf folds exactly its
/// `width` logical lanes, so a padding lane is never read; a pair reduces each
/// part and combines the two results with the reduction's own operation.
pub fn reduce<S: Scalar>(op: RedOp, p: &Part<S>) -> (r: S)
    requires
        p.wf(),
    ensures
        r == reduce_spec(op, *p),
    decreases *p,
{
    match p {
        Part::Reg { width, lanes } => {
            let bop = op.to_bin();
            let mut acc: S = lanes[0];
            let mut i: usize = 1;
            proof {
                assert(lanes@.take(1)[0] == lanes@[0]);
            }
            while i < *width
                invariant
                    1 <= i <= *width,
                    *width <= lanes@.len(),
                    bop == op.combining(),
                    acc == fold1(bop, lanes@.take(i as int)),
                decreases *width - i,
            {
                acc = S::bin(bop, acc, lanes[i]);
                proof {
                    assert(lanes@.take(i + 1 as int).drop_last() =~= lanes@.take(i as int));
                    assert(lanes@.take(i + 1 as int).last() == lanes@[i as int]);
                }
                i = i + 1;
            }
            acc
        },
        Part::Pair(a, b) => {
            let bop = op.to_bin();
            let ra = reduce(op, a);
            let rb = reduce(op, b);
            S::bin(bop, ra, rb)
        },
    }
}

/// Appends the logical lanes of `p` to `out`, in lane order.
pub fn append_lanes<S: Scalar>(p: &Part<S>, out: &mut Vec<S>)
    requires
        p.wf(),
        old(out).len() + p.lanes().len() <= usize::MAX,
    ensures
        final(out)@ == old(out)@ + p.lanes(),
    decreases *p,
{
    match p {
        Part::Reg { width, lanes } => {
            let ghost entry = out@;
            let mut i: usize = 0;
            while i < *width
                invariant
                    i <= *width,
                    *width <= lanes@.len(),
                    entry.len() + *width <= usize::MAX,
                    out@ =~= entry + lanes@.take(i as int),
                decreases *width - i,
            {
                out.push(lanes[i]);
                i = i + 1;
            }
            proof {
                assert(out@ =~= entry + p.lanes());
            }
        },
        Part::Pair(a, b) => {
            let ghost entry = out@;
            append_lanes(a, out);
            append_lanes(b, out);
            proof {
                assert(out@ =~= entry + p.lanes());
            }
        },
    }
}

/// The logical lanes of `p`, as one contiguous vector.
pub fn to_vec<S: Scalar>(p: &Part<S>) -> (r: Vec<S>)
    requires
        p.wf(),
        p.lanes().len() <= usize::MAX,
    ensures
        r@ == p.lanes(),
{
    let mut out: Vec<S> = Vec::new();
    append_lanes(p, &mut out);
    out
}

/// The number of logical lanes of `p`.
pub fn width_of<S: Scalar>(p: &Part<S>) -> (w: usize)
    requires
        p.wf(),
        p.lanes().len() <= usize::MAX,
    ensures
        w == p.lanes().len(),
    decreases *p,
{
    match p {
        Part::Reg { width, lanes } => *width,
        Part::Pair(a, b) => {
            let wa = width_of(a);
            let wb = width_of(b);
            wa + wb
        },
    }
}

/// Lane `i` of `p`: read from the leaf that owns it, found by walking the
/// part widths.
pub fn lane_at<S: Scalar>(p: &Part<S>, i: usize) -> (r: S)
    requires
        p.wf(),
        p.lanes().len() <= usize::MAX,
        i < p.lanes().len(),
    ensures
        r == p.lanes()[i as int],
    decreases *p,
{
    match p {
        Part::Reg { width, lanes } => lanes[i],
        Part::Pair(a, b) => {
            let wa = width_of(a);
            if i < wa {
                lane_at(a, i)
            } else {
                lane_at(b, i - wa)
            }
        },
    }
}

/// A copy of `p`: the same shape, the same logical lanes, the same padding.
pub fn clone_part<S: Scalar>(p: &Part<S>) -> (r: Part<S>)
    ensures
        r.same_shape(*p),
        r.lanes() == p.lanes(),
        p.wf() ==> r.wf(),
    decreases *p,
{
    match p {
        Part::Reg { width, lanes } => {
            let mut copy: Vec<S> = Vec::new();
            let mut i: usize = 0;
            let n: usize = lanes.len();
            while i < n
                invariant
                    i <= n,
                    n == lanes@.len(),
                    copy@ =~= lanes@.take(i as int),
                decreases n - i,
            {
                copy.push(lanes[i]);
                i = i + 1;
            }
            proof {
                assert(copy@ =~= lanes@);
            }
            Part::Reg { width: *width, lanes: copy }
        },
        Part::Pair(a, b) => {
            let ca = clone_part(a);
            let cb = clone_part(b);
            Part::Pair(Box::new(ca), Box::new(cb))
        },
    }
}

} // verus!
