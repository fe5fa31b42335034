//! A direction or displacement: a wrapper enforcing the w = 0 discipline
//! over an [`Entity`], and the vector-only operations layered on it
//! (magnitude, normalization, dot product, cross product).

use vstd::prelude::*;
use crate::arith::{div_trunc_i128, fits_i128, fits_i64, lemma_mul_i64_bounds};
use crate::entity::{Entity, entity_dot};
use crate::model::{EntityModel, add_model, cross_model, dot_model, dot_wide, entity_fits,
    entity_fuzzy, mag_model, mag_sq, normalize_model, sub_model};
use crate::scalar::{SCALE, Scalar};
use crate::traits::Coordinate;

verus! {

/// A direction or displacement; its constructors fix w at 0.0, the wrap
/// constructor excepted.
#[derive(Clone, Copy, Debug)]
pub struct Vector {
    pub entity: Entity,
}

impl View for Vector {
    type V = EntityModel;

    open spec fn view(&self) -> EntityModel {
        self.entity@
    }
}

impl Vector {
    /// Builds the tuple (x, y, z, 0).
    pub fn create(x: Scalar, y: Scalar, z: Scalar) -> (v: Vector)
        ensures
            v@ == (EntityModel { x: x@, y: y@, z: z@, w: 0 }),
    {
        Vector { entity: Entity::create(x, y, z, Scalar::from_units(0)) }
    }

    /// Wraps an arbitrary tuple as a vector without checking or correcting
    /// w: the trusted reinterpretation that the combination rules rely on.
    pub fn create_from_entity(e: Entity) -> (v: Vector)
        ensures
            v@ == e@,
    {
        Vector { entity: e }
    }

    /// Vector + vector; closed under the w = 0 discipline by construction.
    pub fn add(self, rhs: Vector) -> (r: Vector)
        requires
            entity_fits(add_model(self@, rhs@)),
        ensures
            r@ == add_model(self@, rhs@),
    {
        Vector::create_from_entity(self.entity.add(rhs.entity))
    }

    /// Vector − vector; closed under the w = 0 discipline by construction.
    pub fn sub(self, rhs: Vector) -> (r: Vector)
        requires
            entity_fits(sub_model(self@, rhs@)),
        ensures
            r@ == sub_model(self@, rhs@),
    {
        Vector::create_from_entity(self.entity.sub(rhs.entity))
    }
}

impl Coordinate for Vector {
    open spec fn coords(&self) -> EntityModel {
        self@
    }

    fn x(&self) -> (r: Scalar) {
        self.entity.x()
    }

    fn y(&self) -> (r: Scalar) {
        self.entity.y()
    }

    fn z(&self) -> (r: Scalar) {
        self.entity.z()
    }

    fn w(&self) -> (r: Scalar) {
        self.entity.w()
    }
}

impl PartialEq for Vector {
    /// Fuzzy equality via the wrapped tuples.
    fn eq(&self, rhs: &Vector) -> (r: bool) {
        self.entity == rhs.entity
    }
}

impl vstd::std_specs::cmp::PartialEqSpecImpl for Vector {
    open spec fn obeys_eq_spec() -> bool {
        true
    }

    open spec fn eq_spec(&self, rhs: &Vector) -> bool {
        entity_fuzzy(self@, rhs@)
    }
}

impl PartialEq<Entity> for Vector {
    /// A vector equals a raw tuple whose components are fuzzy-equal to its
    /// own, w included.
    fn eq(&self, rhs: &Entity) -> (r: bool) {
        self.entity == *rhs
    }
}

impl vstd::std_specs::cmp::PartialEqSpecImpl<Entity> for Vector {
    open spec fn obeys_eq_spec() -> bool {
        true
    }

    open spec fn eq_spec(&self, rhs: &Entity) -> bool {
        entity_fuzzy(self@, rhs@)
    }
}

/// The vector's Euclidean length, delegated to the wrapped tuple's norm;
/// it is the 3D length whenever w is 0.
pub fn magnitude(v: &Vector) -> (r: Scalar)
    requires
        mag_model(v@) <= i64::MAX,
    ensures
        r@ == mag_model(v@),
{
    v.entity.magnitude()
}

/// The tuple's normalized form, rewrapped as a vector. The zero vector is
/// excluded: it has no direction to keep.
pub fn normalize(v: &Vector) -> (r: Vector)
    requires
        mag_sq(v@) > 0,
        mag_model(v@) <= i64::MAX,
    ensures
        r@ == normalize_model(v@),
{
    Vector::create_from_entity(v.entity.normalize())
}

/// The dot product, delegated to the tuple-level sum of products; it is the
/// conventional 3D dot product whenever both operands keep w at 0.
pub fn dot(a: &Vector, b: &Vector) -> (r: Scalar)
    requires
        fits_i128(a@.x * b@.x + a@.y * b@.y),
        fits_i128(a@.x * b@.x + a@.y * b@.y + a@.z * b@.z),
        fits_i128(dot_wide(a@, b@)),
        fits_i64(dot_model(a@, b@)),
    ensures
        r@ == dot_model(a@, b@),
{
    entity_dot(&a.entity, &b.entity)
}

/// The standard 3D cross product, computed from the x, y and z components
/// alone (w is ignored); the result is always a proper vector with w = 0.
pub fn cross(a: &Vector, b: &Vector) -> (r: Vector)
    requires
        entity_fits(cross_model(a@, b@)),
    ensures
        r@ == cross_model(a@, b@),
{
    let ax = a.x().units();
    let ay = a.y().units();
    let az = a.z().units();
    let bx = b.x().units();
    let by = b.y().units();
    let bz = b.z().units();
    proof {
        lemma_mul_i64_bounds(ay as int, bz as int);
        lemma_mul_i64_bounds(az as int, by as int);
        lemma_mul_i64_bounds(az as int, bx as int);
        lemma_mul_i64_bounds(ax as int, bz as int);
        lemma_mul_i64_bounds(ax as int, by as int);
        lemma_mul_i64_bounds(ay as int, bx as int);
    }
    let cx = div_trunc_i128((ay as i128) * (bz as i128) - (az as i128) * (by as i128),
        SCALE as i128);
    let cy = div_trunc_i128((az as i128) * (bx as i128) - (ax as i128) * (bz as i128),
        SCALE as i128);
    let cz = div_trunc_i128((ax as i128) * (by as i128) - (ay as i128) * (bx as i128),
        SCALE as i128);
    Vector::create(
        Scalar::from_units(cx as i64),
        Scalar::from_units(cy as i64),
        Scalar::from_units(cz as i64),
    )
}

} // verus!
