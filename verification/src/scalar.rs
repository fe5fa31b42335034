//! The fixed-point coordinate scalar and the epsilon-tolerant comparison
//! that backs every equality in the kernel.

use vstd::prelude::*;
use crate::arith::div_trunc;
use crate::arith::div_trunc_i128;

verus! {

/// Units per 1.0: a `Scalar` holding `n` units has the value `n / SCALE`.
pub const SCALE: i64 = 100_000_000;

/// The comparison tolerance, in units: `EPSILON / SCALE` is the 1e-5
/// tolerance that every fuzzy comparison uses.
pub const EPSILON: i64 = 1_000;

/// A coordinate value: a signed count of `1 / SCALE` units.
#[derive(Clone, Copy, Debug, PartialEq, Eq, Structural)]
pub struct Scalar {
    units: i64,
}

impl View for Scalar {
    type V = int;

    closed spec fn view(&self) -> int {
        self.units as int
    }
}

/// Every scalar's unit count lies in the `i64` range.
pub broadcast proof fn lemma_scalar_view_bounds(s: Scalar)
    ensures
        i64::MIN <= #[trigger] s@ <= i64::MAX,
{
}

/// Two scalars are the same value exactly when they hold the same unit count.
pub proof fn lemma_scalar_eq_view(a: Scalar, b: Scalar)
    ensures
        (a == b) <==> (a@ == b@),
{
}

impl Scalar {
    /// The scalar worth `units / SCALE`.
    pub fn from_units(units: i64) -> (s: Scalar)
        ensures
            s@ == units,
    {
        Scalar { units }
    }

    /// The scalar worth exactly the integer `n`.
    pub fn from_int(n: i64) -> (s: Scalar)
        requires
            -92_233_720_368 <= n <= 92_233_720_368,
        ensures
            s@ == n * SCALE,
    {
        Scalar { units: n * SCALE }
    }

    /// The scalar worth `num / den`, rounded toward zero to the nearest unit.
    pub fn from_ratio(num: i64, den: i64) -> (s: Scalar)
        requires
            den > 0,
            i64::MIN <= div_trunc(num * SCALE, den as int) <= i64::MAX,
        ensures
            s@ == div_trunc(num * SCALE, den as int),
    {
        let q = div_trunc_i128((num as i128) * (SCALE as i128), den as i128);
        Scalar { units: q as i64 }
    }

    /// The unit count this scalar holds.
    pub fn units(&self) -> (u: i64)
        ensures
            u as int == self@,
    {
        self.units
    }
}

/// Two unit counts within the tolerance of one another.
pub open spec fn fuzzy_units(a: int, b: int) -> bool {
    -(EPSILON as int) < a - b < EPSILON as int
}

/// Epsilon-tolerant equality: true exactly when the two values lie strictly
/// within `EPSILON / SCALE` (that is, 1e-5) of each other.
pub fn fuzzy_equal(first: Scalar, second: Scalar) -> (r: bool)
    ensures
        r == fuzzy_units(first@, second@),
{
    let diff: i128 = first.units as i128 - second.units as i128;
    if -(EPSILON as i128) < diff && diff < EPSILON as i128 {
        return true;
    }
    false
}

} // verus!
