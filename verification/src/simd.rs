//! The horizontal-reduction surface that every vector type offers.

use vstd::prelude::*;
use crate::packed::Packed;
use crate::scalar::{RedOp, Scalar};

verus! {

/// A packed value that reduces to one scalar: by sum, product, minimum or
/// maximum — four reductions, each combining every lane with its own
/// operation and no other.
pub trait Simdt: Sized {
    /// The scalar the reductions produce.
    type Item;

    /// The well-formedness the reductions rely on.
    spec fn inv(&self) -> bool;

    /// What `sum` returns.
    spec fn sum_spec(&self) -> Self::Item;

    /// What `prod` returns.
    spec fn prod_spec(&self) -> Self::Item;

    /// What `min` returns.
    spec fn min_spec(&self) -> Self::Item;

    /// What `max` returns.
    spec fn max_spec(&self) -> Self::Item;

    /// Sums all the values inside.
    fn sum(&self) -> (r: Self::Item)
        requires
            self.inv(),
        ensures
            r == self.sum_spec(),
    ;

    /// Multiplies all the values inside.
    fn prod(&self) -> (r: Self::Item)
        requires
            self.inv(),
        ensures
            r == self.prod_spec(),
    ;

    /// Finds the smallest value inside.
    fn min(&self) -> (r: Self::Item)
        requires
            self.inv(),
        ensures
            r == self.min_spec(),
    ;

    /// Finds the biggest value inside.
    fn max(&self) -> (r: Self::Item)
        requires
            self.inv(),
        ensures
            r == self.max_spec(),
    ;
}

impl<S: Scalar> Simdt for Packed<S> {
    type Item = S;

    open spec fn inv(&self) -> bool {
        self.wf()
    }

    open spec fn sum_spec(&self) -> S {
        self.reduced(RedOp::Sum)
    }

    open spec fn prod_spec(&self) -> S {
        self.reduced(RedOp::Prod)
    }

    open spec fn min_spec(&self) -> S {
        self.reduced(RedOp::Min)
    }

    open spec fn max_spec(&self) -> S {
        self.reduced(RedOp::Max)
    }

    fn sum(&self) -> (r: S) {
        self.reduce(RedOp::Sum)
    }

    fn prod(&self) -> (r: S) {
        self.reduce(RedOp::Prod)
    }

    fn min(&self) -> (r: S) {
        self.reduce(RedOp::Min)
    }

    fn max(&self) -> (r: S) {
        self.reduce(RedOp::Max)
    }
}

} // verus!
