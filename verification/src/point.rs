//! A coordinate in space: a wrapper enforcing the w = 1 discipline over an
//! [`Entity`], with the type-correct combination rules (point − point =
//! vector, point ± vector = point).

use vstd::prelude::*;
use crate::entity::Entity;
use crate::model::{EntityModel, add_model, entity_fits, entity_fuzzy, sub_model};
use crate::scalar::{SCALE, Scalar};
use crate::traits::Coordinate;
use crate::vector::Vector;

verus! {

/// A position in space; its constructors fix w at 1.0, the wrap constructor
/// excepted.
#[derive(Clone, Copy, Debug)]
pub struct Point {
    pub entity: Entity,
}

impl View for Point {
    type V = EntityModel;

    open spec fn view(&self) -> EntityModel {
        self.entity@
    }
}

impl Point {
    /// Builds the tuple (x, y, z, 1).
    pub fn create(x: Scalar, y: Scalar, z: Scalar) -> (p: Point)
        ensures
            p@ == (EntityModel { x: x@, y: y@, z: z@, w: SCALE as int }),
    {
        Point { entity: Entity::create(x, y, z, Scalar::from_int(1)) }
    }

    /// Wraps an arbitrary tuple as a point without checking or correcting w:
    /// the trusted reinterpretation that the combination rules rely on.
    pub fn create_from_entity(e: Entity) -> (p: Point)
        ensures
            p@ == e@,
    {
        Point { entity: e }
    }

    /// Point + point: the sum of the underlying tuples reinterpreted as a
    /// vector (the resulting w is carried over unvalidated).
    pub fn add(self, rhs: Point) -> (r: Vector)
        requires
            entity_fits(add_model(self@, rhs@)),
        ensures
            r@ == add_model(self@, rhs@),
    {
        Vector::create_from_entity(self.entity.add(rhs.entity))
    }

    /// Point + vector: translation; the result keeps point semantics.
    pub fn add_vector(self, rhs: Vector) -> (r: Point)
        requires
            entity_fits(add_model(self@, rhs@)),
        ensures
            r@ == add_model(self@, rhs@),
    {
        Point::create_from_entity(self.entity.add(rhs.entity))
    }

    /// Point − point: the displacement between the two positions.
    pub fn sub(self, rhs: Point) -> (r: Vector)
        requires
            entity_fits(sub_model(self@, rhs@)),
        ensures
            r@ == sub_model(self@, rhs@),
    {
        Vector::create_from_entity(self.entity.sub(rhs.entity))
    }

    /// Point − vector: translation by the negated vector.
    pub fn sub_vector(self, rhs: Vector) -> (r: Point)
        requires
            entity_fits(sub_model(self@, rhs@)),
        ensures
            r@ == sub_model(self@, rhs@),
    {
        Point::create_from_entity(self.entity.sub(rhs.entity))
    }
}

impl Coordinate for Point {
    open spec fn coords(&self) -> EntityModel {
        self@
    }

    fn x(&self) -> (r: Scalar) {
        self.entity.x()
    }

    fn y(&self) -> (r: Scalar) {
        self.entity.y()
    }

    fn z(&self) -> (r: Scalar) {
        self.entity.z()
    }

    fn w(&self) -> (r: Scalar) {
        self.entity.w()
    }
}

impl PartialEq for Point {
    /// Fuzzy equality via the wrapped tuples.
    fn eq(&self, rhs: &Point) -> (r: bool) {
        self.entity == rhs.entity
    }
}

impl vstd::std_specs::cmp::PartialEqSpecImpl for Point {
    open spec fn obeys_eq_spec() -> bool {
        true
    }

    open spec fn eq_spec(&self, rhs: &Point) -> bool {
        entity_fuzzy(self@, rhs@)
    }
}

impl PartialEq<Entity> for Point {
    /// A point equals a raw tuple whose components are fuzzy-equal to its
    /// own, w included.
    fn eq(&self, rhs: &Entity) -> (r: bool) {
        self.entity == *rhs
    }
}

impl vstd::std_specs::cmp::PartialEqSpecImpl<Entity> for Point {
    open spec fn obeys_eq_spec() -> bool {
        true
    }

    open spec fn eq_spec(&self, rhs: &Entity) -> bool {
        entity_fuzzy(self@, rhs@)
    }
}

} // verus!
