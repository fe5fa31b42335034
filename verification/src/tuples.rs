//! The raw 4-tuple form: a plain (x, y, z, w) record with point/vector
//! constructors and component-wise operators, kept alongside the wrapped
//! types. Its equality compares x, y and z fuzzily but w exactly, so a point
//! never equals a vector under it.

use vstd::prelude::*;
use crate::arith::mul_div_trunc;
use crate::model::{EntityModel, add_model, div_model, entity_fits, neg_model, scale_model,
    sub_model};
use crate::scalar::{SCALE, Scalar, fuzzy_equal, fuzzy_units};

verus! {

/// A plain 4-tuple of fixed-point coordinates.
#[derive(Clone, Copy, Debug)]
pub struct ImageTuple {
    pub coords: (Scalar, Scalar, Scalar, Scalar),
}

impl View for ImageTuple {
    type V = EntityModel;

    open spec fn view(&self) -> EntityModel {
        EntityModel {
            x: self.coords.0@,
            y: self.coords.1@,
            z: self.coords.2@,
            w: self.coords.3@,
        }
    }
}

/// Raw-tuple equality: x, y and z within the tolerance, w exactly equal.
pub open spec fn tuple_eq_model(a: EntityModel, b: EntityModel) -> bool {
    &&& fuzzy_units(a.x, b.x)
    &&& fuzzy_units(a.y, b.y)
    &&& fuzzy_units(a.z, b.z)
    &&& a.w == b.w
}

impl ImageTuple {
    /// The tuple (x, y, z, 1): a point.
    pub fn point(x: Scalar, y: Scalar, z: Scalar) -> (t: ImageTuple)
        ensures
            t@ == (EntityModel { x: x@, y: y@, z: z@, w: SCALE as int }),
    {
        ImageTuple { coords: (x, y, z, Scalar::from_int(1)) }
    }

    /// The tuple (x, y, z, 0): a vector.
    pub fn vector(x: Scalar, y: Scalar, z: Scalar) -> (t: ImageTuple)
        ensures
            t@ == (EntityModel { x: x@, y: y@, z: z@, w: 0 }),
    {
        ImageTuple { coords: (x, y, z, Scalar::from_units(0)) }
    }

    /// An arbitrary tuple: any four scalars, w included.
    pub fn tuple(x: Scalar, y: Scalar, z: Scalar, w: Scalar) -> (t: ImageTuple)
        ensures
            t@ == (EntityModel { x: x@, y: y@, z: z@, w: w@ }),
    {
        ImageTuple { coords: (x, y, z, w) }
    }

    /// Whether w is exactly 1.
    pub fn is_point(&self) -> (r: bool)
        ensures
            r == (self@.w == SCALE as int),
    {
        self.coords.3.units() == SCALE
    }

    /// Whether w is exactly 0.
    pub fn is_vector(&self) -> (r: bool)
        ensures
            r == (self@.w == 0),
    {
        self.coords.3.units() == 0
    }

    /// Component-wise sum.
    pub fn add(self, rhs: ImageTuple) -> (r: ImageTuple)
        requires
            entity_fits(add_model(self@, rhs@)),
        ensures
            r@ == add_model(self@, rhs@),
    {
        ImageTuple {
            coords: (
                Scalar::from_units(self.coords.0.units() + rhs.coords.0.units()),
                Scalar::from_units(self.coords.1.units() + rhs.coords.1.units()),
                Scalar::from_units(self.coords.2.units() + rhs.coords.2.units()),
                Scalar::from_units(self.coords.3.units() + rhs.coords.3.units()),
            ),
        }
    }

    /// Component-wise difference.
    pub fn sub(self, rhs: ImageTuple) -> (r: ImageTuple)
        requires
            entity_fits(sub_model(self@, rhs@)),
        ensures
            r@ == sub_model(self@, rhs@),
    {
        ImageTuple {
            coords: (
                Scalar::from_units(self.coords.0.units() - rhs.coords.0.units()),
                Scalar::from_units(self.coords.1.units() - rhs.coords.1.units()),
                Scalar::from_units(self.coords.2.units() - rhs.coords.2.units()),
                Scalar::from_units(self.coords.3.units() - rhs.coords.3.units()),
            ),
        }
    }

    /// Component-wise negation.
    pub fn neg(self) -> (r: ImageTuple)
        requires
            entity_fits(neg_model(self@)),
        ensures
            r@ == neg_model(self@),
    {
        ImageTuple {
            coords: (
                Scalar::from_units(-self.coords.0.units()),
                Scalar::from_units(-self.coords.1.units()),
                Scalar::from_units(-self.coords.2.units()),
                Scalar::from_units(-self.coords.3.units()),
            ),
        }
    }

    /// Component-wise scaling by a scalar, each product rounded toward zero.
    pub fn mul(self, rhs: Scalar) -> (r: ImageTuple)
        requires
            entity_fits(scale_model(self@, rhs@)),
        ensures
            r@ == scale_model(self@, rhs@),
    {
        let s = rhs.units();
        ImageTuple {
            coords: (
                Scalar::from_units(mul_div_trunc(self.coords.0.units(), s, SCALE as i128)),
                Scalar::from_units(mul_div_trunc(self.coords.1.units(), s, SCALE as i128)),
                Scalar::from_units(mul_div_trunc(self.coords.2.units(), s, SCALE as i128)),
                Scalar::from_units(mul_div_trunc(self.coords.3.units(), s, SCALE as i128)),
            ),
        }
    }

    /// Component-wise division by a nonzero scalar, each quotient rounded
    /// toward zero.
    pub fn div(self, rhs: Scalar) -> (r: ImageTuple)
        requires
            rhs@ != 0,
            entity_fits(div_model(self@, rhs@)),
        ensures
            r@ == div_model(self@, rhs@),
    {
        let s = rhs.units();
        ImageTuple {
            coords: (
                Scalar::from_units(mul_div_trunc(self.coords.0.units(), SCALE, s as i128)),
                Scalar::from_units(mul_div_trunc(self.coords.1.units(), SCALE, s as i128)),
                Scalar::from_units(mul_div_trunc(self.coords.2.units(), SCALE, s as i128)),
                Scalar::from_units(mul_div_trunc(self.coords.3.units(), SCALE, s as i128)),
            ),
        }
    }
}

/// Scalar × tuple, delegating to tuple × scalar: scaling commutes, and both
/// orders promise the same scaled model.
pub fn scalar_mul(lhs: Scalar, rhs: ImageTuple) -> (r: ImageTuple)
    requires
        entity_fits(scale_model(rhs@, lhs@)),
    ensures
        r@ == scale_model(rhs@, lhs@),
{
    rhs.mul(lhs)
}

impl PartialEq for ImageTuple {
    /// x, y and z fuzzy-equal and w exactly equal.
    fn eq(&self, rhs: &ImageTuple) -> (r: bool) {
        fuzzy_equal(self.coords.0, rhs.coords.0) && fuzzy_equal(self.coords.1, rhs.coords.1)
            && fuzzy_equal(self.coords.2, rhs.coords.2) && self.coords.3.units()
            == rhs.coords.3.units()
    }
}

impl vstd::std_specs::cmp::PartialEqSpecImpl for ImageTuple {
    open spec fn obeys_eq_spec() -> bool {
        true
    }

    open spec fn eq_spec(&self, rhs: &ImageTuple) -> bool {
        tuple_eq_model(self@, rhs@)
    }
}

} // verus!
