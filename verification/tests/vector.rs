use rust_raytracer::entity::Entity;
use rust_raytracer::scalar::{Scalar, fuzzy_equal};
use rust_raytracer::traits::Coordinate;
use rust_raytracer::vector::{Vector, cross, dot, magnitude, normalize};

fn sc(n: i64, d: i64) -> Scalar {
    Scalar::from_ratio(n, d)
}

fn si(n: i64) -> Scalar {
    Scalar::from_int(n)
}

/// The fixed-point representation of an `f64`, rounded down to the unit, as
/// the magnitude functions compute it.
fn from_f64_floor(v: f64) -> Scalar {
    Scalar::from_units((v * 100_000_000.0).floor() as i64)
}

#[test]
fn vector_creates_tuple_with_w_0() {
    let v: Vector = Vector::create(si(4), si(-4), si(3));
    assert_eq!(v, Entity::create(si(4), si(-4), si(3), si(0)))
}

#[test]
fn adding_two_vectors() {
    let v1: Vector = Vector::create(si(5), si(6), si(7));
    let v2: Vector = Vector::create(si(-2), si(-4), si(-6));
    assert_eq!(v1.add(v2), Vector::create(si(3), si(2), si(1)));
}

#[test]
fn vector_subtracting_two_vectors() {
    let v1: Vector = Vector::create(si(3), si(2), si(1));
    let v2: Vector = Vector::create(si(5), si(6), si(7));
    assert_eq!(v1.sub(v2), Vector::create(si(-2), si(-4), si(-6)));
}

#[test]
fn vector_subtracting_vector_from_zero_vector() {
    let zero: Vector = Vector::create(si(0), si(0), si(0));
    let v: Vector = Vector::create(si(1), si(-2), si(3));
    assert_eq!(zero.sub(v), Vector::create(si(-1), si(2), si(-3)));
}

#[test]
fn magnitude_of_100_vector() {
    let v = Vector::create(si(1), si(0), si(0));
    assert_eq!(magnitude(&v), si(1));
}

#[test]
fn magnitude_of_010_vector() {
    let v = Vector::create(si(0), si(1), si(0));
    assert_eq!(magnitude(&v), si(1));
}

#[test]
fn magnitude_of_001_vector() {
    let v = Vector::create(si(0), si(0), si(1));
    assert_eq!(magnitude(&v), si(1));
}

#[test]
fn magnitude_of_123_vector() {
    let v = Vector::create(si(1), si(2), si(3));
    assert_eq!(magnitude(&v), from_f64_floor(14_f64.sqrt()));
}

#[test]
fn magnitude_of_negated_123_vector() {
    let v = Vector::create(si(-1), si(-2), si(-3));
    assert_eq!(magnitude(&v), from_f64_floor(14_f64.sqrt()));
}

#[test]
fn normalize_vector_400_gives_100() {
    let v = Vector::create(si(4), si(0), si(0));
    assert_eq!(normalize(&v), Vector::create(si(1), si(0), si(0)));
}

#[test]
fn normalize_vector_123() {
    let v = Vector::create(si(1), si(2), si(3));
    assert_eq!(
        normalize(&v),
        Vector::create(sc(26726, 100_000), sc(53452, 100_000), sc(80178, 100_000))
    );
}

#[test]
fn magnitude_of_normalized_vector_is_1() {
    let v = Vector::create(si(1), si(2), si(3));
    let norm = normalize(&v);
    assert!(fuzzy_equal(magnitude(&norm), si(1)));
}

#[test]
fn vector_dot_product_of_two_tuples() {
    let a: Vector = Vector::create(si(1), si(2), si(3));
    let b: Vector = Vector::create(si(2), si(3), si(4));
    assert_eq!(dot(&a, &b), si(20));
}

#[test]
fn cross_product_of_two_vectors() {
    let a: Vector = Vector::create(si(1), si(2), si(3));
    let b: Vector = Vector::create(si(2), si(3), si(4));
    assert_eq!(cross(&a, &b), Vector::create(si(-1), si(2), si(-1)));
    assert_eq!(cross(&b, &a), Vector::create(si(1), si(-2), si(1)));
}

#[test]
fn cross_of_fractional_vectors_swaps_sign() {
    let a: Vector = Vector::create(sc(13, 10), sc(-7, 10), sc(21, 10));
    let b: Vector = Vector::create(sc(-3, 10), sc(11, 10), sc(5, 10));
    let ab = cross(&a, &b);
    let ba = cross(&b, &a);
    assert_eq!(ab.entity.x().units(), -ba.entity.x().units());
    assert_eq!(ab.entity.y().units(), -ba.entity.y().units());
    assert_eq!(ab.entity.z().units(), -ba.entity.z().units());
}
