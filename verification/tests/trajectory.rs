use rust_raytracer::point::Point;
use rust_raytracer::scalar::Scalar;
use rust_raytracer::traits::Coordinate;
use rust_raytracer::trajectory::{Environment, Projectile, simulate, tick};
use rust_raytracer::vector::{Vector, normalize};

fn sc(n: i64, d: i64) -> Scalar {
    Scalar::from_ratio(n, d)
}

fn si(n: i64) -> Scalar {
    Scalar::from_int(n)
}

fn start() -> Projectile {
    Projectile {
        position: Point::create(si(0), si(1), si(0)),
        velocity: normalize(&Vector::create(si(1), si(1), si(0))),
    }
}

fn env() -> Environment {
    Environment {
        gravity: Vector::create(si(0), sc(-1, 10), si(0)),
        wind: Vector::create(sc(-1, 100), si(0), si(0)),
    }
}

#[test]
fn tick_moves_position_and_pulls_velocity() {
    let p = Projectile {
        position: Point::create(si(0), si(1), si(0)),
        velocity: Vector::create(si(1), si(2), si(3)),
    };
    let stepped = tick(&env(), &p);
    assert_eq!(
        stepped.position,
        Point::create(si(1), si(3), si(3))
    );
    assert_eq!(
        stepped.velocity,
        Vector::create(sc(99, 100), sc(19, 10), si(3))
    );
}

#[test]
fn projectile_comes_down_in_finite_steps() {
    let states = simulate(&start(), &env());
    // The run is deterministic: 17 ticks bring the projectile to the ground.
    assert_eq!(states.len(), 18);
    let last = &states[states.len() - 1];
    assert!(last.position.y().units() <= 0);
    for (i, st) in states.iter().enumerate() {
        if i + 1 < states.len() {
            assert!(st.position.y().units() > 0);
        }
    }
    // Every step is exactly one tick of the one before it.
    for i in 0..states.len() - 1 {
        let next = tick(&env(), &states[i]);
        assert_eq!(next.position.x().units(), states[i + 1].position.x().units());
        assert_eq!(next.position.y().units(), states[i + 1].position.y().units());
        assert_eq!(next.position.z().units(), states[i + 1].position.z().units());
        assert_eq!(next.velocity.y().units(), states[i + 1].velocity.y().units());
    }
}

#[test]
fn trajectory_matches_the_closed_form() {
    // After k ticks: position = start + k * velocity + (0 + 1 + ... + k-1)
    // pulls of gravity-plus-wind, exactly, component by component.
    let p = start();
    let e = env();
    let states = simulate(&p, &e);
    let p0 = [
        p.position.x().units(),
        p.position.y().units(),
        p.position.z().units(),
        p.position.w().units(),
    ];
    let v0 = [
        p.velocity.x().units(),
        p.velocity.y().units(),
        p.velocity.z().units(),
        p.velocity.w().units(),
    ];
    let pull = [
        e.gravity.x().units() + e.wind.x().units(),
        e.gravity.y().units() + e.wind.y().units(),
        e.gravity.z().units() + e.wind.z().units(),
        e.gravity.w().units() + e.wind.w().units(),
    ];
    for (k, st) in states.iter().enumerate() {
        let k = k as i64;
        let steps = k * (k - 1) / 2;
        let got = [
            st.position.x().units(),
            st.position.y().units(),
            st.position.z().units(),
            st.position.w().units(),
        ];
        for c in 0..4 {
            assert_eq!(got[c], p0[c] + k * v0[c] + steps * pull[c]);
        }
    }
}

#[test]
fn the_final_position_is_the_expected_one() {
    let states = simulate(&start(), &env());
    let last = &states[states.len() - 1];
    // 17 ticks of 0.70710678 up, minus the accumulated pull of 0.1 down:
    // y = 1 + 17 * 0.70710678 - 136 * 0.1, in exact units.
    assert_eq!(last.position.x().units(), 1_066_081_526);
    assert_eq!(last.position.y().units(), -57_918_474);
    assert_eq!(last.position.z().units(), 0);
}
