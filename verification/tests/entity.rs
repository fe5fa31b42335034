use rust_raytracer::entity::{Entity, entity_dot};
use rust_raytracer::point::Point;
use rust_raytracer::scalar::Scalar;
use rust_raytracer::traits::Coordinate;
use rust_raytracer::vector::Vector;

fn sc(n: i64, d: i64) -> Scalar {
    Scalar::from_ratio(n, d)
}

fn si(n: i64) -> Scalar {
    Scalar::from_int(n)
}

#[test]
fn entity_tuple_is_a_point() {
    let a: Entity = Entity::create(sc(43, 10), sc(-42, 10), sc(31, 10), si(1));
    assert_eq!(a.x(), sc(43, 10));
    assert_eq!(a.y(), sc(-42, 10));
    assert_eq!(a.z(), sc(31, 10));
    assert_eq!(a.w(), si(1));
    assert_eq!(Point::create(sc(43, 10), sc(-42, 10), sc(31, 10)), a)
}

#[test]
fn entity_tuples_is_a_vector() {
    let a: Entity = Entity::create(sc(43, 10), sc(-42, 10), sc(31, 10), si(0));
    assert_eq!(a.x(), sc(43, 10));
    assert_eq!(a.y(), sc(-42, 10));
    assert_eq!(a.z(), sc(31, 10));
    assert_eq!(a.w(), si(0));
    assert_eq!(Vector::create(sc(43, 10), sc(-42, 10), sc(31, 10)), a)
}

#[test]
fn entity_adding_two_tuples() {
    let e1: Entity = Entity::create(si(3), si(-2), si(5), si(1));
    let e2: Entity = Entity::create(si(-2), si(3), si(1), si(0));
    assert_eq!(e1.add(e2), Entity::create(si(1), si(1), si(6), si(1)));
}

#[test]
fn entity_negating_a_tuple() {
    let e: Entity = Entity::create(si(1), si(2), si(3), si(4));
    assert_eq!(e.neg(), Entity::create(si(-1), si(-2), si(-3), si(-4)));
}

#[test]
fn entity_multiplying_a_tuple_by_a_scalar() {
    let a: Entity = Entity::create(si(1), si(-2), si(3), si(-4));
    assert_eq!(
        a.mul(sc(7, 2)),
        Entity::create(sc(35, 10), si(-7), sc(105, 10), si(-14))
    );
}

#[test]
fn entity_multiplying_a_tuple_by_a_fraction() {
    let a: Entity = Entity::create(si(1), si(-2), si(3), si(-4));
    assert_eq!(
        a.mul(sc(1, 2)),
        Entity::create(sc(1, 2), si(-1), sc(15, 10), si(-2))
    );
}

#[test]
fn entity_dividing_a_tuple_by_a_scalar() {
    let a: Entity = Entity::create(si(1), si(-2), si(3), si(-4));
    assert_eq!(
        a.div(si(2)),
        Entity::create(sc(1, 2), si(-1), sc(15, 10), si(-2))
    );
}

#[test]
fn entity_dot_product_of_two_tuples() {
    let a: Entity = Entity::create(si(1), si(2), si(3), si(0));
    let b: Entity = Entity::create(si(2), si(3), si(4), si(0));
    assert_eq!(entity_dot(&a, &b), si(20));
}

#[test]
fn entity_plus_its_negation_is_the_zero_tuple() {
    let e: Entity = Entity::create(sc(43, 10), sc(-42, 10), sc(31, 10), si(1));
    assert_eq!(e.add(e.neg()), Entity::create(si(0), si(0), si(0), si(0)));
}

#[test]
fn entity_dividing_by_a_negative_scalar() {
    let a: Entity = Entity::create(si(1), si(-2), si(3), si(-4));
    assert_eq!(
        a.div(si(-2)),
        Entity::create(sc(-1, 2), si(1), sc(-15, 10), si(2))
    );
}
