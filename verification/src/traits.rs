//! The coordinate capability: any type exposing x, y, z and w accessors
//! satisfies it, so equality helpers and callers that format positions can be
//! written once against the capability rather than against concrete types.

use vstd::prelude::*;
use crate::model::EntityModel;
use crate::scalar::Scalar;

verus! {

/// A read-only view of four coordinates. `coords` is the model the accessors
/// report: each returns exactly one component of it.
pub trait Coordinate {
    /// The unit counts this value holds.
    spec fn coords(&self) -> EntityModel;

    fn x(&self) -> (r: Scalar)
        ensures
            r@ == self.coords().x,
    ;

    fn y(&self) -> (r: Scalar)
        ensures
            r@ == self.coords().y,
    ;

    fn z(&self) -> (r: Scalar)
        ensures
            r@ == self.coords().z,
    ;

    fn w(&self) -> (r: Scalar)
        ensures
            r@ == self.coords().w,
    ;
}

} // verus!
