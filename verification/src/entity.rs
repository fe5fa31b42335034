//! The core 4-tuple value type: the sole storage representation that points
//! and vectors wrap, with component-wise arithmetic, fuzzy equality, and the
//! Euclidean norm.

use vstd::prelude::*;
use crate::arith::{div_trunc_i128, fits_i128, fits_i64, lemma_div_trunc_le, lemma_isqrt_bounds,
    lemma_mul_i64_bounds, mul_div_trunc};
use crate::model::{EntityModel, add_model, div_model, dot_model, dot_wide, entity_fits,
    entity_fuzzy, lemma_component_in_magnitude, mag_model, mag_sq, neg_model, normalize_model,
    scale_model, sub_model};
use crate::point::Point;
use crate::scalar::{SCALE, Scalar, fuzzy_equal};
use crate::traits::Coordinate;
use crate::vector::Vector;

verus! {

broadcast use crate::scalar::lemma_scalar_view_bounds;

/// An immutable 4-tuple of fixed-point components (x, y, z, w). Any four
/// scalars are accepted; the w discipline is the wrappers' concern.
#[derive(Clone, Copy, Debug)]
pub struct Entity {
    values: (Scalar, Scalar, Scalar, Scalar),
}

impl View for Entity {
    type V = EntityModel;

    closed spec fn view(&self) -> EntityModel {
        EntityModel {
            x: self.values.0@,
            y: self.values.1@,
            z: self.values.2@,
            w: self.values.3@,
        }
    }
}

impl Coordinate for Entity {
    open spec fn coords(&self) -> EntityModel {
        self@
    }

    fn x(&self) -> (r: Scalar) {
        self.values.0
    }

    fn y(&self) -> (r: Scalar) {
        self.values.1
    }

    fn z(&self) -> (r: Scalar) {
        self.values.2
    }

    fn w(&self) -> (r: Scalar) {
        self.values.3
    }
}

impl Entity {
    /// Pure constructor: any four scalars are accepted, including values
    /// that would be nonsensical as w.
    pub fn create(x: Scalar, y: Scalar, z: Scalar, w: Scalar) -> (e: Entity)
        ensures
            e@ == (EntityModel { x: x@, y: y@, z: z@, w: w@ }),
    {
        Entity { values: (x, y, z, w) }
    }

    /// The Euclidean norm over all four components, within one unit below
    /// the exact square root. The w component participates; callers wanting
    /// a 3D length must keep w at zero.
    pub fn magnitude(&self) -> (r: Scalar)
        requires
            mag_model(self@) <= i64::MAX,
        ensures
            r@ == mag_model(self@),
    {
        let xu = self.values.0.units();
        let yu = self.values.1.units();
        let zu = self.values.2.units();
        let wu = self.values.3.units();
        proof {
            lemma_mul_i64_bounds(xu as int, xu as int);
            lemma_mul_i64_bounds(yu as int, yu as int);
            lemma_mul_i64_bounds(zu as int, zu as int);
            lemma_mul_i64_bounds(wu as int, wu as int);
            assert(xu as int * xu as int >= 0 && yu as int * yu as int >= 0
                && zu as int * zu as int >= 0 && wu as int * wu as int >= 0) by (nonlinear_arith);
            lemma_isqrt_bounds(mag_sq(self@) as nat);
            assert(mag_sq(self@) < 0x4000_0000_0000_0000_0000_0000_0000_0000) by (nonlinear_arith)
                requires
                    mag_sq(self@) < (mag_model(self@) + 1) * (mag_model(self@) + 1),
                    0 <= mag_model(self@) <= 0x7fff_ffff_ffff_ffff,
            ;
        }
        let xx = ((xu as i128) * (xu as i128)) as u128;
        let yy = ((yu as i128) * (yu as i128)) as u128;
        let zz = ((zu as i128) * (zu as i128)) as u128;
        let ww = ((wu as i128) * (wu as i128)) as u128;
        proof {
            assert(xx as int + yy as int + zz as int + ww as int == mag_sq(self@));
        }
        let sum = xx + yy + zz + ww;
        let m = crate::arith::isqrt_u128(sum);
        proof {
            assert(sum as nat == mag_sq(self@) as nat);
            assert(m as int == mag_model(self@));
        }
        Scalar::from_units(m as i64)
    }

    /// Component-wise division by the magnitude, each quotient rounded
    /// toward zero. The zero tuple has no normal form and is excluded:
    /// an integer kernel cannot hand back the quiet non-numbers that
    /// floating-point division by zero would produce.
    pub fn normalize(&self) -> (r: Entity)
        requires
            mag_sq(self@) > 0,
            mag_model(self@) <= i64::MAX,
        ensures
            r@ == normalize_model(self@),
    {
        let m = self.magnitude();
        let mu = m.units();
        proof {
            lemma_isqrt_bounds(mag_sq(self@) as nat);
            assert(mu >= 1) by (nonlinear_arith)
                requires
                    mag_sq(self@) >= 1,
                    mag_sq(self@) < (mu as int + 1) * (mu as int + 1),
                    mu as int >= 0,
            ;
            lemma_component_in_magnitude(self@, mu as int);
            lemma_div_trunc_le(self@.x * SCALE, mu as int, SCALE as int);
            lemma_div_trunc_le(self@.y * SCALE, mu as int, SCALE as int);
            lemma_div_trunc_le(self@.z * SCALE, mu as int, SCALE as int);
            lemma_div_trunc_le(self@.w * SCALE, mu as int, SCALE as int);
        }
        let x = mul_div_trunc(self.values.0.units(), SCALE, mu as i128);
        let y = mul_div_trunc(self.values.1.units(), SCALE, mu as i128);
        let z = mul_div_trunc(self.values.2.units(), SCALE, mu as i128);
        let w = mul_div_trunc(self.values.3.units(), SCALE, mu as i128);
        Entity {
            values: (
                Scalar::from_units(x),
                Scalar::from_units(y),
                Scalar::from_units(z),
                Scalar::from_units(w),
            ),
        }
    }

    /// Component-wise sum.
    pub fn add(self, rhs: Entity) -> (r: Entity)
        requires
            entity_fits(add_model(self@, rhs@)),
        ensures
            r@ == add_model(self@, rhs@),
    {
        Entity {
            values: (
                Scalar::from_units(self.values.0.units() + rhs.values.0.units()),
                Scalar::from_units(self.values.1.units() + rhs.values.1.units()),
                Scalar::from_units(self.values.2.units() + rhs.values.2.units()),
                Scalar::from_units(self.values.3.units() + rhs.values.3.units()),
            ),
        }
    }

    /// Component-wise difference.
    pub fn sub(self, rhs: Entity) -> (r: Entity)
        requires
            entity_fits(sub_model(self@, rhs@)),
        ensures
            r@ == sub_model(self@, rhs@),
    {
        Entity {
            values: (
                Scalar::from_units(self.values.0.units() - rhs.values.0.units()),
                Scalar::from_units(self.values.1.units() - rhs.values.1.units()),
                Scalar::from_units(self.values.2.units() - rhs.values.2.units()),
                Scalar::from_units(self.values.3.units() - rhs.values.3.units()),
            ),
        }
    }

    /// Component-wise negation.
    pub fn neg(self) -> (r: Entity)
        requires
            entity_fits(neg_model(self@)),
        ensures
            r@ == neg_model(self@),
    {
        Entity {
            values: (
                Scalar::from_units(-self.values.0.units()),
                Scalar::from_units(-self.values.1.units()),
                Scalar::from_units(-self.values.2.units()),
                Scalar::from_units(-self.values.3.units()),
            ),
        }
    }

    /// Component-wise scaling by a scalar, each product rounded toward zero.
    pub fn mul(self, rhs: Scalar) -> (r: Entity)
        requires
            entity_fits(scale_model(self@, rhs@)),
        ensures
            r@ == scale_model(self@, rhs@),
    {
        let s = rhs.units();
        Entity {
            values: (
                Scalar::from_units(mul_div_trunc(self.values.0.units(), s, SCALE as i128)),
                Scalar::from_units(mul_div_trunc(self.values.1.units(), s, SCALE as i128)),
                Scalar::from_units(mul_div_trunc(self.values.2.units(), s, SCALE as i128)),
                Scalar::from_units(mul_div_trunc(self.values.3.units(), s, SCALE as i128)),
            ),
        }
    }

    /// Component-wise division by a scalar, each quotient rounded toward
    /// zero. Division by the zero scalar is excluded: an integer kernel
    /// cannot hand back the quiet non-numbers that floating-point division
    /// by zero would produce.
    pub fn div(self, rhs: Scalar) -> (r: Entity)
        requires
            rhs@ != 0,
            entity_fits(div_model(self@, rhs@)),
        ensures
            r@ == div_model(self@, rhs@),
    {
        let s = rhs.units();
        Entity {
            values: (
                Scalar::from_units(mul_div_trunc(self.values.0.units(), SCALE, s as i128)),
                Scalar::from_units(mul_div_trunc(self.values.1.units(), SCALE, s as i128)),
                Scalar::from_units(mul_div_trunc(self.values.2.units(), SCALE, s as i128)),
                Scalar::from_units(mul_div_trunc(self.values.3.units(), SCALE, s as i128)),
            ),
        }
    }
}

/// The dot product over all four components: the sum of the pairwise
/// products, rescaled to units with rounding toward zero. The conventional
/// 3D dot product needs both operands to keep w at zero.
pub fn entity_dot(a: &Entity, b: &Entity) -> (r: Scalar)
    requires
        fits_i128(a@.x * b@.x + a@.y * b@.y),
        fits_i128(a@.x * b@.x + a@.y * b@.y + a@.z * b@.z),
        fits_i128(dot_wide(a@, b@)),
        fits_i64(dot_model(a@, b@)),
    ensures
        r@ == dot_model(a@, b@),
{
    proof {
        lemma_mul_i64_bounds(a@.x, b@.x);
        lemma_mul_i64_bounds(a@.y, b@.y);
        lemma_mul_i64_bounds(a@.z, b@.z);
        lemma_mul_i64_bounds(a@.w, b@.w);
    }
    let px = (a.values.0.units() as i128) * (b.values.0.units() as i128);
    let py = (a.values.1.units() as i128) * (b.values.1.units() as i128);
    let pz = (a.values.2.units() as i128) * (b.values.2.units() as i128);
    let pw = (a.values.3.units() as i128) * (b.values.3.units() as i128);
    let wide = px + py + pz + pw;
    let q = div_trunc_i128(wide, SCALE as i128);
    Scalar::from_units(q as i64)
}

impl PartialEq for Entity {
    /// Two tuples are equal iff all four components are pairwise
    /// fuzzy-equal.
    fn eq(&self, rhs: &Entity) -> (r: bool) {
        fuzzy_equal(self.values.0, rhs.values.0) && fuzzy_equal(self.values.1, rhs.values.1)
            && fuzzy_equal(self.values.2, rhs.values.2) && fuzzy_equal(
            self.values.3,
            rhs.values.3,
        )
    }
}

impl vstd::std_specs::cmp::PartialEqSpecImpl for Entity {
    open spec fn obeys_eq_spec() -> bool {
        true
    }

    open spec fn eq_spec(&self, rhs: &Entity) -> bool {
        entity_fuzzy(self@, rhs@)
    }
}

impl PartialEq<Point> for Entity {
    /// A raw tuple equals a point whose wrapped components are fuzzy-equal
    /// to its own, w included: a tuple with w = 1 equals the constructed
    /// point without an explicit conversion.
    fn eq(&self, rhs: &Point) -> (r: bool) {
        *self == rhs.entity
    }
}

impl vstd::std_specs::cmp::PartialEqSpecImpl<Point> for Entity {
    open spec fn obeys_eq_spec() -> bool {
        true
    }

    open spec fn eq_spec(&self, rhs: &Point) -> bool {
        entity_fuzzy(self@, rhs@)
    }
}

impl PartialEq<Vector> for Entity {
    /// A raw tuple equals a vector whose wrapped components are fuzzy-equal
    /// to its own, w included.
    fn eq(&self, rhs: &Vector) -> (r: bool) {
        *self == rhs.entity
    }
}

impl vstd::std_specs::cmp::PartialEqSpecImpl<Vector> for Entity {
    open spec fn obeys_eq_spec() -> bool {
        true
    }

    open spec fn eq_spec(&self, rhs: &Vector) -> bool {
        entity_fuzzy(self@, rhs@)
    }
}

} // verus!
