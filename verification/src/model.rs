//! The mathematical model of a 4-tuple: each coordinate as its exact unit
//! count, and the arithmetic the kernel promises, stated over unbounded
//! integers.

use vstd::prelude::*;
use crate::arith::div_trunc;
use crate::arith::fits_i64;
use crate::arith::isqrt;
use crate::scalar::SCALE;
use crate::scalar::fuzzy_units;

verus! {

/// The value of a 4-tuple: the unit counts of x, y, z and w.
pub ghost struct EntityModel {
    pub x: int,
    pub y: int,
    pub z: int,
    pub w: int,
}

/// The tuple with all four components zero.
pub open spec fn zero_model() -> EntityModel {
    EntityModel { x: 0, y: 0, z: 0, w: 0 }
}

/// Component-wise sum.
pub open spec fn add_model(a: EntityModel, b: EntityModel) -> EntityModel {
    EntityModel { x: a.x + b.x, y: a.y + b.y, z: a.z + b.z, w: a.w + b.w }
}

/// Component-wise difference.
pub open spec fn sub_model(a: EntityModel, b: EntityModel) -> EntityModel {
    EntityModel { x: a.x - b.x, y: a.y - b.y, z: a.z - b.z, w: a.w - b.w }
}

/// Component-wise negation.
pub open spec fn neg_model(a: EntityModel) -> EntityModel {
    EntityModel { x: -a.x, y: -a.y, z: -a.z, w: -a.w }
}

/// One component scaled by `s` units: the product of the two values, rounded
/// toward zero to the nearest unit.
pub open spec fn scale_units(a: int, s: int) -> int {
    div_trunc(a * s, SCALE as int)
}

/// Component-wise scaling by the scalar worth `s` units.
pub open spec fn scale_model(a: EntityModel, s: int) -> EntityModel {
    EntityModel {
        x: scale_units(a.x, s),
        y: scale_units(a.y, s),
        z: scale_units(a.z, s),
        w: scale_units(a.w, s),
    }
}

/// One component divided by `s` units: the quotient of the two values,
/// rounded toward zero to the nearest unit. Unspecified for `s == 0`.
pub open spec fn div_units(a: int, s: int) -> int {
    div_trunc(a * SCALE, s)
}

/// Component-wise division by the scalar worth `s` units.
pub open spec fn div_model(a: EntityModel, s: int) -> EntityModel {
    EntityModel {
        x: div_units(a.x, s),
        y: div_units(a.y, s),
        z: div_units(a.z, s),
        w: div_units(a.w, s),
    }
}

/// The squared Euclidean norm over all four components, in squared units.
pub open spec fn mag_sq(a: EntityModel) -> int {
    a.x * a.x + a.y * a.y + a.z * a.z + a.w * a.w
}

/// The magnitude in units: the integer square root of the squared norm, so
/// within one unit of the exact Euclidean norm.
pub open spec fn mag_model(a: EntityModel) -> int {
    isqrt(mag_sq(a) as nat) as int
}

/// Component-wise division by the magnitude. Unspecified for the zero tuple.
pub open spec fn normalize_model(a: EntityModel) -> EntityModel {
    div_model(a, mag_model(a))
}

/// The four-component sum of products, in squared units (not yet rescaled).
pub open spec fn dot_wide(a: EntityModel, b: EntityModel) -> int {
    a.x * b.x + a.y * b.y + a.z * b.z + a.w * b.w
}

/// The dot product over all four components, in units.
pub open spec fn dot_model(a: EntityModel, b: EntityModel) -> int {
    div_trunc(dot_wide(a, b), SCALE as int)
}

/// The 3D cross product: computed from x, y and z alone, with w always 0.
pub open spec fn cross_model(a: EntityModel, b: EntityModel) -> EntityModel {
    EntityModel {
        x: div_trunc(a.y * b.z - a.z * b.y, SCALE as int),
        y: div_trunc(a.z * b.x - a.x * b.z, SCALE as int),
        z: div_trunc(a.x * b.y - a.y * b.x, SCALE as int),
        w: 0,
    }
}

/// Fuzzy tuple equality: all four components pairwise within the tolerance.
pub open spec fn entity_fuzzy(a: EntityModel, b: EntityModel) -> bool {
    &&& fuzzy_units(a.x, b.x)
    &&& fuzzy_units(a.y, b.y)
    &&& fuzzy_units(a.z, b.z)
    &&& fuzzy_units(a.w, b.w)
}

/// Each component of a tuple is bounded by any `m` whose square the squared
/// norm does not reach, plainly and after scaling.
pub proof fn lemma_component_in_magnitude(a: EntityModel, m: int)
    requires
        m >= 0,
        mag_sq(a) < (m + 1) * (m + 1),
    ensures
        -m <= a.x <= m && -m <= a.y <= m && -m <= a.z <= m && -m <= a.w <= m,
        -(m * SCALE) <= a.x * SCALE <= m * SCALE,
        -(m * SCALE) <= a.y * SCALE <= m * SCALE,
        -(m * SCALE) <= a.z * SCALE <= m * SCALE,
        -(m * SCALE) <= a.w * SCALE <= m * SCALE,
{
    assert(-m <= a.x <= m && -m <= a.y <= m && -m <= a.z <= m && -m <= a.w <= m)
        by (nonlinear_arith)
        requires
            m >= 0,
            a.x * a.x + a.y * a.y + a.z * a.z + a.w * a.w < (m + 1) * (m + 1),
    ;
    assert(-(m * SCALE) <= a.x * SCALE <= m * SCALE && -(m * SCALE) <= a.y * SCALE <= m * SCALE
        && -(m * SCALE) <= a.z * SCALE <= m * SCALE && -(m * SCALE) <= a.w * SCALE <= m * SCALE)
        by (nonlinear_arith)
        requires
            -m <= a.x <= m && -m <= a.y <= m && -m <= a.z <= m && -m <= a.w <= m,
            SCALE > 0,
    ;
}

/// All four components representable by an `i64`.
pub open spec fn entity_fits(a: EntityModel) -> bool {
    &&& fits_i64(a.x)
    &&& fits_i64(a.y)
    &&& fits_i64(a.z)
    &&& fits_i64(a.w)
}

} // verus!
