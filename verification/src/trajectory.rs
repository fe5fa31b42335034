//! The ballistic demo the kernel exists to serve: a projectile carried by
//! its velocity, an environment pulling the velocity by gravity and wind,
//! one step per tick, run until the projectile reaches the ground.

use vstd::prelude::*;
use crate::arith::fits_i64;
use crate::entity::Entity;
use crate::model::{EntityModel, add_model, entity_fits};
use crate::point::Point;
use crate::scalar::Scalar;
use crate::traits::Coordinate;
use crate::vector::Vector;

verus! {

/// A projectile: where it is and where it is headed.
#[derive(Clone, Copy, Debug)]
pub struct Projectile {
    pub position: Point,
    pub velocity: Vector,
}

/// The value of a projectile: the models of its position and velocity.
pub ghost struct ProjectileModel {
    pub position: EntityModel,
    pub velocity: EntityModel,
}

impl View for Projectile {
    type V = ProjectileModel;

    open spec fn view(&self) -> ProjectileModel {
        ProjectileModel { position: self.position@, velocity: self.velocity@ }
    }
}

/// The environment a projectile flies through: gravity and wind, both
/// applied to the velocity once per tick.
#[derive(Clone, Copy, Debug)]
pub struct Environment {
    pub gravity: Vector,
    pub wind: Vector,
}

/// The value of an environment: the models of gravity and wind.
pub ghost struct EnvironmentModel {
    pub gravity: EntityModel,
    pub wind: EntityModel,
}

impl View for Environment {
    type V = EnvironmentModel;

    open spec fn view(&self) -> EnvironmentModel {
        EnvironmentModel { gravity: self.gravity@, wind: self.wind@ }
    }
}

/// One step: the position moves by the velocity, the velocity gains gravity
/// and wind.
pub open spec fn tick_model(e: EnvironmentModel, p: ProjectileModel) -> ProjectileModel {
    ProjectileModel {
        position: add_model(p.position, p.velocity),
        velocity: add_model(add_model(p.velocity, e.gravity), e.wind),
    }
}

/// Whether every sum a tick takes stays in the `i64` range.
pub open spec fn tick_fits(e: EnvironmentModel, p: ProjectileModel) -> bool {
    &&& entity_fits(add_model(p.position, p.velocity))
    &&& entity_fits(add_model(p.velocity, e.gravity))
    &&& entity_fits(add_model(add_model(p.velocity, e.gravity), e.wind))
}

/// The projectile after `k` ticks.
pub open spec fn iter_tick(e: EnvironmentModel, p: ProjectileModel, k: nat) -> ProjectileModel
    decreases k,
{
    if k == 0 {
        p
    } else {
        tick_model(e, iter_tick(e, p, (k - 1) as nat))
    }
}

/// One simulation step: `position' = position + velocity`,
/// `velocity' = velocity + gravity + wind`.
pub fn tick(e: &Environment, p: &Projectile) -> (r: Projectile)
    requires
        tick_fits(e@, p@),
    ensures
        r@ == tick_model(e@, p@),
{
    let pos: Point = p.position.add_vector(p.velocity);
    let vel: Vector = p.velocity.add(e.gravity).add(e.wind);
    Projectile { position: pos, velocity: vel }
}

/// The sum of two scalars, or `None` where it leaves the `i64` range.
fn add_units_checked(a: Scalar, b: Scalar) -> (r: Option<Scalar>)
    ensures
        r is Some <==> fits_i64(a@ + b@),
        r matches Some(s) ==> s@ == a@ + b@,
{
    match a.units().checked_add(b.units()) {
        Some(u) => Some(Scalar::from_units(u)),
        None => None,
    }
}

/// A tick that reports instead of overflowing: `Some` exactly when every
/// sum fits, and then the stepped projectile.
fn tick_checked(e: &Environment, p: &Projectile) -> (r: Option<Projectile>)
    ensures
        r is Some <==> tick_fits(e@, p@),
        r matches Some(q) ==> q@ == tick_model(e@, p@),
{
    let px = add_units_checked(p.position.x(), p.velocity.x());
    let py = add_units_checked(p.position.y(), p.velocity.y());
    let pz = add_units_checked(p.position.z(), p.velocity.z());
    let pw = add_units_checked(p.position.w(), p.velocity.w());
    let gx = add_units_checked(p.velocity.x(), e.gravity.x());
    let gy = add_units_checked(p.velocity.y(), e.gravity.y());
    let gz = add_units_checked(p.velocity.z(), e.gravity.z());
    let gw = add_units_checked(p.velocity.w(), e.gravity.w());
    let vx = match gx {
        Some(s) => add_units_checked(s, e.wind.x()),
        None => None,
    };
    let vy = match gy {
        Some(s) => add_units_checked(s, e.wind.y()),
        None => None,
    };
    let vz = match gz {
        Some(s) => add_units_checked(s, e.wind.z()),
        None => None,
    };
    let vw = match gw {
        Some(s) => add_units_checked(s, e.wind.w()),
        None => None,
    };
    match (px, py, pz, pw, vx, vy, vz, vw) {
        (Some(a), Some(b), Some(c), Some(d), Some(f), Some(g), Some(h), Some(k)) => Some(
            Projectile {
                position: Point::create_from_entity(Entity::create(a, b, c, d)),
                velocity: Vector::create_from_entity(Entity::create(f, g, h, k)),
            },
        ),
        _ => None,
    }
}

/// Runs the simulation from `p` and returns every state it passes through,
/// the starting one first. Each next state is one tick of the last; the run
/// stops at the first state whose y-coordinate has reached the ground
/// (`y <= 0`), or just before the first tick whose sums would leave the
/// `i64` range. Gravity and wind must pull downward in sum: that is what
/// brings every run to the ground.
pub fn simulate(p: &Projectile, e: &Environment) -> (states: Vec<Projectile>)
    requires
        e@.gravity.y + e@.wind.y < 0,
    ensures
        states@.len() >= 1,
        forall|i: int|
            0 <= i < states@.len() ==> (#[trigger] states@[i])@ == iter_tick(e@, p@, i as nat),
        forall|i: int| 0 <= i < states@.len() - 1 ==> (#[trigger] states@[i])@.position.y > 0,
        (states@[states@.len() - 1])@.position.y <= 0 || !tick_fits(
            e@,
            (states@[states@.len() - 1])@,
        ),
{
    let mut states: Vec<Projectile> = Vec::new();
    let mut cur: Projectile = *p;
    states.push(cur);
    while cur.position.y().units() > 0
        invariant_except_break
            states@.len() >= 1,
            states@[states@.len() - 1] == cur,
            forall|i: int|
                0 <= i < states@.len() ==> (#[trigger] states@[i])@ == iter_tick(
                    e@,
                    p@,
                    i as nat,
                ),
            forall|i: int| 0 <= i < states@.len() - 1 ==> (#[trigger] states@[i])@.position.y > 0,
            e@.gravity.y + e@.wind.y < 0,
        ensures
            states@.len() >= 1,
            states@[states@.len() - 1] == cur,
            forall|i: int|
                0 <= i < states@.len() ==> (#[trigger] states@[i])@ == iter_tick(
                    e@,
                    p@,
                    i as nat,
                ),
            forall|i: int| 0 <= i < states@.len() - 1 ==> (#[trigger] states@[i])@.position.y > 0,
            cur@.position.y <= 0 || !tick_fits(e@, cur@),
        decreases
            (if cur@.velocity.y > 0 { cur@.velocity.y } else { 0int }),
            (if cur@.velocity.y == 0 { 1int } else { 0int }),
            (if cur@.position.y > 0 { cur@.position.y } else { 0int }),
    {
        match tick_checked(e, &cur) {
            Some(q) => {
                proof {
                    assert(q@ == iter_tick(e@, p@, states@.len() as nat));
                }
                cur = q;
                states.push(q);
            },
            None => {
                break;
            },
        }
    }
    states
}

} // verus!
