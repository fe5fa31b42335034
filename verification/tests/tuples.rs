use rust_raytracer::scalar::Scalar;
use rust_raytracer::tuples::{ImageTuple, scalar_mul};

fn sc(n: i64, d: i64) -> Scalar {
    Scalar::from_ratio(n, d)
}

fn si(n: i64) -> Scalar {
    Scalar::from_int(n)
}

#[test]
fn tuples_tuple_is_a_point() {
    let a: ImageTuple = ImageTuple::tuple(sc(43, 10), sc(-42, 10), sc(31, 10), si(1));
    assert_eq!(a.coords.0, sc(43, 10));
    assert_eq!(a.coords.1, sc(-42, 10));
    assert_eq!(a.coords.2, sc(31, 10));
    assert_eq!(a.is_point(), true);
    assert_eq!(a.is_vector(), false);
}

#[test]
fn tuples_tuples_is_a_vector() {
    let a: ImageTuple = ImageTuple::tuple(sc(43, 10), sc(-42, 10), sc(31, 10), si(0));
    assert_eq!(a.coords.0, sc(43, 10));
    assert_eq!(a.coords.1, sc(-42, 10));
    assert_eq!(a.coords.2, sc(31, 10));
    assert_eq!(a.is_point(), false);
    assert_eq!(a.is_vector(), true);
}

#[test]
fn tuples_point_creates_tuple_with_w_1() {
    let p = ImageTuple::point(si(4), si(-4), si(3));
    assert_eq!(p, ImageTuple::tuple(si(4), si(-4), si(3), si(1)));
}

#[test]
fn vector_creates_tuple_with_w_1() {
    let p = ImageTuple::vector(si(4), si(-4), si(3));
    assert_eq!(p, ImageTuple::tuple(si(4), si(-4), si(3), si(0)));
}

#[test]
fn tuples_adding_two_tuples() {
    let a1 = ImageTuple::tuple(si(3), si(-2), si(5), si(1));
    let a2 = ImageTuple::tuple(si(-2), si(3), si(1), si(0));
    assert_eq!(a1.add(a2), ImageTuple::tuple(si(1), si(1), si(6), si(1)));
}

#[test]
fn subtracting_two_points() {
    let p1: ImageTuple = ImageTuple::point(si(3), si(2), si(1));
    let p2: ImageTuple = ImageTuple::point(si(5), si(6), si(7));
    assert_eq!(p1.sub(p2), ImageTuple::vector(si(-2), si(-4), si(-6)));
}

#[test]
fn tuples_subtracting_vector_from_point() {
    let p1: ImageTuple = ImageTuple::point(si(3), si(2), si(1));
    let p2: ImageTuple = ImageTuple::vector(si(5), si(6), si(7));
    assert_eq!(p1.sub(p2), ImageTuple::point(si(-2), si(-4), si(-6)));
}

#[test]
fn tuples_subtracting_two_vectors() {
    let p1: ImageTuple = ImageTuple::vector(si(3), si(2), si(1));
    let p2: ImageTuple = ImageTuple::vector(si(5), si(6), si(7));
    assert_eq!(p1.sub(p2), ImageTuple::vector(si(-2), si(-4), si(-6)));
}

#[test]
fn tuples_subtracting_vector_from_zero_vector() {
    let zero = ImageTuple::vector(si(0), si(0), si(0));
    let v = ImageTuple::vector(si(1), si(-2), si(3));
    assert_eq!(zero.sub(v), ImageTuple::vector(si(-1), si(2), si(-3)));
}

#[test]
fn tuples_negating_a_tuple() {
    let a = ImageTuple::tuple(si(1), si(2), si(3), si(4));
    assert_eq!(a.neg(), ImageTuple::tuple(si(-1), si(-2), si(-3), si(-4)));
}

#[test]
fn tuples_multiplying_a_tuple_by_a_scalar() {
    let a: ImageTuple = ImageTuple::tuple(si(1), si(-2), si(3), si(-4));
    assert_eq!(
        a.mul(sc(7, 2)),
        ImageTuple::tuple(sc(35, 10), si(-7), sc(105, 10), si(-14))
    );
}

#[test]
fn multiplying_a_scalar_by_a_tuple() {
    let a: ImageTuple = ImageTuple::tuple(si(1), si(-2), si(3), si(-4));
    assert_eq!(
        scalar_mul(sc(7, 2), a),
        ImageTuple::tuple(sc(35, 10), si(-7), sc(105, 10), si(-14))
    );
}

#[test]
fn tuples_multiplying_a_tuple_by_a_fraction() {
    let a: ImageTuple = ImageTuple::tuple(si(1), si(-2), si(3), si(-4));
    assert_eq!(
        a.mul(sc(1, 2)),
        ImageTuple::tuple(sc(1, 2), si(-1), sc(15, 10), si(-2))
    );
}

#[test]
fn tuples_dividing_a_tuple_by_a_scalar() {
    let a: ImageTuple = ImageTuple::tuple(si(1), si(-2), si(3), si(-4));
    assert_eq!(
        a.div(si(2)),
        ImageTuple::tuple(sc(1, 2), si(-1), sc(15, 10), si(-2))
    );
}

#[test]
fn scaling_commutes_for_every_order() {
    // Tuple-times-scalar and scalar-times-tuple promise the same model.
    let a: ImageTuple = ImageTuple::tuple(sc(43, 10), sc(-42, 10), sc(31, 10), si(1));
    let s = sc(-7, 3);
    assert_eq!(scalar_mul(s, a), a.mul(s));
    assert_eq!(
        scalar_mul(s, a).coords.0.units(),
        a.mul(s).coords.0.units()
    );
}
