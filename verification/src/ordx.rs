//! Order-based selection on plain scalars.
//!
//! `min`/`max` that return one of their two operands, picking by `<=`, the
//! left operand on ties. The vector code orders its lanes by the IEEE
//! comparisons of the scalar modules; this trait is the plain counterpart on
//! ordinary integers, kept for callers that reduce indices or widths.

use vstd::prelude::*;

verus! {

/// Two-way selection by an order.
pub trait Ordx: Sized {
    /// The order that `min` and `max` pick by.
    spec fn le_spec(self, rhs: Self) -> bool;

    /// The smaller operand; the left one on ties.
    fn min(self, rhs: Self) -> (r: Self)
        ensures
            r == if self.le_spec(rhs) {
                self
            } else {
                rhs
            },
    ;

    /// The larger operand; the left one on ties.
    fn max(self, rhs: Self) -> (r: Self)
        ensures
            r == if rhs.le_spec(self) {
                self
            } else {
                rhs
            },
    ;
}

impl Ordx for u32 {
    open spec fn le_spec(self, rhs: u32) -> bool {
        self <= rhs
    }

    fn min(self, rhs: u32) -> (r: u32) {
        if self <= rhs {
            self
        } else {
            rhs
        }
    }

    fn max(self, rhs: u32) -> (r: u32) {
        if self >= rhs {
            self
        } else {
            rhs
        }
    }
}

impl Ordx for u64 {
    open spec fn le_spec(self, rhs: u64) -> bool {
        self <= rhs
    }

    fn min(self, rhs: u64) -> (r: u64) {
        if self <= rhs {
            self
        } else {
            rhs
        }
    }

    fn max(self, rhs: u64) -> (r: u64) {
        if self >= rhs {
            self
        } else {
            rhs
        }
    }
}

impl Ordx for usize {
    open spec fn le_spec(self, rhs: usize) -> bool {
        self <= rhs
    }

    fn min(self, rhs: usize) -> (r: usize) {
        if self <= rhs {
            self
        } else {
            rhs
        }
    }

    fn max(self, rhs: usize) -> (r: usize) {
        if self >= rhs {
            self
        } else {
            rhs
        }
    }
}

} // verus!
