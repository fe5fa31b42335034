//! Laws of the kernel that span several operations, stated over the models
//! that every operation's contract speaks of.

use vstd::prelude::*;
use crate::arith::{div_trunc, lemma_div_trunc_bound, lemma_div_trunc_le, lemma_div_trunc_neg,
    lemma_isqrt_bounds};
use crate::model::{EntityModel, add_model, cross_model, entity_fuzzy,
    lemma_component_in_magnitude, mag_model, mag_sq, neg_model, normalize_model, zero_model};
use crate::scalar::{SCALE, fuzzy_units};
use crate::trajectory::{EnvironmentModel, ProjectileModel, iter_tick};

verus! {

/// Additive inverse: a tuple plus its negation is the zero tuple — exactly,
/// and so also under fuzzy equality.
pub proof fn lemma_add_neg_is_zero(a: EntityModel)
    ensures
        add_model(a, neg_model(a)) == zero_model(),
        entity_fuzzy(add_model(a, neg_model(a)), zero_model()),
{
}

/// The cross product is anti-commutative: swapping the operands negates
/// every component.
pub proof fn lemma_cross_anti_commutes(a: EntityModel, b: EntityModel)
    ensures
        cross_model(a, b) == neg_model(cross_model(b, a)),
{
    assert(b.y * a.z - b.z * a.y == -(a.y * b.z - a.z * b.y)) by (nonlinear_arith);
    assert(b.z * a.x - b.x * a.z == -(a.z * b.x - a.x * b.z)) by (nonlinear_arith);
    assert(b.x * a.y - b.y * a.x == -(a.x * b.y - a.y * b.x)) by (nonlinear_arith);
    lemma_div_trunc_neg(a.y * b.z - a.z * b.y, SCALE as int);
    lemma_div_trunc_neg(a.z * b.x - a.x * b.z, SCALE as int);
    lemma_div_trunc_neg(a.x * b.y - a.y * b.x, SCALE as int);
}

/// The squared rescaling error of one normalized component: with `q` the
/// truncated quotient of `v * s` by `m`, the square `q^2 m^2` stays within a
/// few `s m^2` of `(v s)^2`.
proof fn lemma_scaled_square_error(v: int, q: int, m: int, s: int)
    by (nonlinear_arith)
    requires
        m >= 1,
        s >= 1,
        -m <= v <= m,
        -s <= q <= s,
        -m < q * m - v * s < m,
    ensures
        (v * s) * (v * s) - 2 * s * (m * m) <= (q * q) * (m * m) <= (v * s) * (v * s) + 3 * s * (
        m * m),
{
}

/// The error interval of one component, packaged for the round-trip proof.
proof fn lemma_normalized_component(v: int, m: int, s: int)
    requires
        m >= 1,
        s >= 1,
        -m <= v <= m,
    ensures
        -s <= div_trunc(v * s, m) <= s,
        (v * s) * (v * s) - 2 * s * (m * m) <= (div_trunc(v * s, m) * div_trunc(v * s, m)) * (m
            * m) <= (v * s) * (v * s) + 3 * s * (m * m),
{
    assert(-(m * s) <= v * s <= m * s) by (nonlinear_arith)
        requires
            -m <= v <= m,
            s >= 1,
    ;
    assert(s * m == m * s) by (nonlinear_arith);
    lemma_div_trunc_le(v * s, m, s);
    lemma_div_trunc_bound(v * s, m);
    let q = div_trunc(v * s, m);
    assert(-m < q * m - v * s < m);
    lemma_scaled_square_error(v, q, m, s);
}

/// Magnitude/normalization round trip: normalizing a tuple whose magnitude
/// is at least 0.01 yields a tuple of magnitude fuzzy-equal to 1. (Much
/// shorter tuples are excluded: rounding each component to a whole unit can
/// overwhelm them — normalizing the tuple of a single unit in x and one in
/// y yields a tuple of magnitude near the square root of 2.)
pub proof fn lemma_normalize_magnitude(a: EntityModel)
    requires
        mag_model(a) >= 1_000_000,
    ensures
        fuzzy_units(mag_model(normalize_model(a)), SCALE as int),
{
    let s = SCALE as int;
    let m = mag_model(a);
    let msq = mag_sq(a);
    assert(a.x * a.x + a.y * a.y + a.z * a.z + a.w * a.w >= 0) by (nonlinear_arith);
    lemma_isqrt_bounds(msq as nat);
    assert(m * m <= msq < (m + 1) * (m + 1));
    assert(msq <= m * m + 2 * m) by (nonlinear_arith)
        requires
            msq < (m + 1) * (m + 1),
    ;
    lemma_component_in_magnitude(a, m);
    let n = normalize_model(a);
    let qx = div_trunc(a.x * s, m);
    let qy = div_trunc(a.y * s, m);
    let qz = div_trunc(a.z * s, m);
    let qw = div_trunc(a.w * s, m);
    lemma_normalized_component(a.x, m, s);
    lemma_normalized_component(a.y, m, s);
    lemma_normalized_component(a.z, m, s);
    lemma_normalized_component(a.w, m, s);
    let t = mag_sq(n);
    assert(t == qx * qx + qy * qy + qz * qz + qw * qw);
    // Sum the four component error intervals and factor both sides.
    assert((qx * qx) * (m * m) + (qy * qy) * (m * m) + (qz * qz) * (m * m) + (qw * qw) * (m * m)
        == t * (m * m)) by (nonlinear_arith)
        requires
            t == qx * qx + qy * qy + qz * qz + qw * qw,
    ;
    assert((a.x * s) * (a.x * s) == (a.x * a.x) * (s * s)) by (nonlinear_arith);
    assert((a.y * s) * (a.y * s) == (a.y * a.y) * (s * s)) by (nonlinear_arith);
    assert((a.z * s) * (a.z * s) == (a.z * a.z) * (s * s)) by (nonlinear_arith);
    assert((a.w * s) * (a.w * s) == (a.w * a.w) * (s * s)) by (nonlinear_arith);
    assert((a.x * a.x) * (s * s) + (a.y * a.y) * (s * s) + (a.z * a.z) * (s * s) + (a.w * a.w) * (
    s * s) == msq * (s * s)) by (nonlinear_arith)
        requires
            msq == a.x * a.x + a.y * a.y + a.z * a.z + a.w * a.w,
    ;
    assert(4 * (2 * s * (m * m)) == 8 * s * (m * m)) by (nonlinear_arith);
    assert(4 * (3 * s * (m * m)) == 12 * s * (m * m)) by (nonlinear_arith);
    assert(msq * (s * s) - 8 * s * (m * m) <= t * (m * m) <= msq * (s * s) + 12 * s * (m * m));
    // Replace msq by its magnitude bounds and divide out m * m.
    assert((s * s - 8 * s) * (m * m) <= t * (m * m)) by (nonlinear_arith)
        requires
            t * (m * m) >= msq * (s * s) - 8 * s * (m * m),
            msq >= m * m,
            s >= 1,
    ;
    assert(t * (m * m) < (s * s + 312 * s) * (m * m)) by (nonlinear_arith)
        requires
            t * (m * m) <= msq * (s * s) + 12 * s * (m * m),
            msq <= m * m + 2 * m,
            m >= 1_000_000,
            s == 100_000_000,
    ;
    assert(s * s - 8 * s <= t < s * s + 312 * s) by (nonlinear_arith)
        requires
            (s * s - 8 * s) * (m * m) <= t * (m * m) < (s * s + 312 * s) * (m * m),
            m >= 1,
    ;
    // Bracket the integer square root of t between s - 5 and s + 155.
    assert(t >= 0);
    lemma_isqrt_bounds(t as nat);
    let r = mag_model(n);
    assert(r * r <= t < (r + 1) * (r + 1));
    assert(99_999_995 <= r <= 100_000_155) by (nonlinear_arith)
        requires
            r >= 0,
            r * r <= t < (r + 1) * (r + 1),
            s * s - 8 * s <= t < s * s + 312 * s,
            s == 100_000_000,
    ;
    assert(fuzzy_units(r, s));
}

/// The exact multiple of a tuple: every component times `k`, with no
/// fixed-point rescaling.
pub open spec fn repeat_model(a: EntityModel, k: int) -> EntityModel {
    EntityModel { x: k * a.x, y: k * a.y, z: k * a.z, w: k * a.w }
}

/// The sum 0 + 1 + ... + (k - 1) that `k` ticks of gravity accumulate into
/// the position.
pub open spec fn steps_sum(k: nat) -> nat
    decreases k,
{
    if k == 0 {
        0
    } else {
        steps_sum((k - 1) as nat) + ((k - 1) as nat)
    }
}

proof fn lemma_coeff_step(k: int, c: int)
    by (nonlinear_arith)
    requires
        k >= 1,
    ensures
        (k - 1) * c + c == k * c,
{
}

proof fn lemma_coeff_merge(g: int, k: int, c: int)
    by (nonlinear_arith)
    ensures
        g * c + k * c == (g + k) * c,
{
}

/// The closed form of the trajectory: after `k` ticks the velocity has
/// gained `k` pulls of gravity-plus-wind, and the position is the start
/// plus `k` velocities plus `0 + 1 + ... + (k - 1)` pulls.
pub proof fn lemma_tick_closed_form(e: EnvironmentModel, p: ProjectileModel, k: nat)
    ensures
        iter_tick(e, p, k).velocity == add_model(
            p.velocity,
            repeat_model(add_model(e.gravity, e.wind), k as int),
        ),
        iter_tick(e, p, k).position == add_model(
            add_model(p.position, repeat_model(p.velocity, k as int)),
            repeat_model(add_model(e.gravity, e.wind), steps_sum(k) as int),
        ),
    decreases k,
{
    let pull = add_model(e.gravity, e.wind);
    if k == 0 {
        assert(repeat_model(pull, 0) == zero_model()) by (nonlinear_arith);
        assert(repeat_model(p.velocity, 0) == zero_model()) by (nonlinear_arith);
    } else {
        let j = (k - 1) as nat;
        lemma_tick_closed_form(e, p, j);
        let prev = iter_tick(e, p, j);
        lemma_coeff_step(k as int, pull.x);
        lemma_coeff_step(k as int, pull.y);
        lemma_coeff_step(k as int, pull.z);
        lemma_coeff_step(k as int, pull.w);
        lemma_coeff_step(k as int, p.velocity.x);
        lemma_coeff_step(k as int, p.velocity.y);
        lemma_coeff_step(k as int, p.velocity.z);
        lemma_coeff_step(k as int, p.velocity.w);
        lemma_coeff_merge(steps_sum(j) as int, j as int, pull.x);
        lemma_coeff_merge(steps_sum(j) as int, j as int, pull.y);
        lemma_coeff_merge(steps_sum(j) as int, j as int, pull.z);
        lemma_coeff_merge(steps_sum(j) as int, j as int, pull.w);
        assert(steps_sum(k) == steps_sum(j) + j);
    }
}

} // verus!
