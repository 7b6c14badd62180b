//! The step driver: one simulation tick over the whole particle set.
//!
//! Every pair interaction of a tick reads the other particle's state from a
//! snapshot taken at tick start, so results do not depend on iteration
//! order; each ordered pair (a, b) is visited once with `a` mutable, so a
//! symmetric pair of calls happens within every tick. A particle is
//! integrated once all its pair interactions have been accumulated.

use vstd::prelude::*;
use crate::fixed::{fp_add, fp_mul, sat, mul_fp, SCALE};
use crate::particle::{Particle, ParticleModel, mass_of, default_particle, lemma_mass_of_nonneg};
use crate::physics::{
    is_intersecting, resolve_intersection, resolve_collision, attract, update_particle,
    orbital_velocity, is_intersecting_spec, resolve_intersection_spec, resolve_collision_spec,
    attract_spec, update_particle_spec, orbital_velocity_spec,
};
use crate::vec2::{Vec2, V2, v_zero, v_sub};

verus! {

/// Radius shared by the initially spawned bodies: 5.0.
pub const RAD: i64 = 5_000_000;

/// Density of the central body: 1e4, extremely dense, simulating a sun.
pub const BIG_DENSITY: i64 = 10_000_000_000;

/// Density of a drag-spawned body: 0.1.
pub const SMALL_DENSITY: i64 = 100_000;

/// Density of an initially orbiting body: 1.0.
pub const MED_DENSITY: i64 = 1_000_000;

/// Gap between successive initial orbits: 50.0.
pub const ORBIT_SPACING: i64 = 50_000_000;

/// Distance of the first initial orbit: 150.0.
pub const ORBIT_START: i64 = 150_000_000;

/// Number of initially orbiting bodies.
pub const NUM_ORBITS: usize = 2;

/// The spec-level image of a particle sequence.
pub open spec fn models(s: Seq<Particle>) -> Seq<ParticleModel> {
    s.map_values(|p: Particle| p@)
}

/// One full interaction of `a` with snapshot particle `b`: collision
/// resolution when intersecting, then gravitational attraction.
pub open spec fn pair_interact(a: ParticleModel, b: ParticleModel, g: int, e: int) -> ParticleModel {
    let a1 = if is_intersecting_spec(a, b) {
        resolve_collision_spec(resolve_intersection_spec(a, b), b, e)
    } else {
        a
    };
    attract_spec(a1, b, g)
}

/// Particle `i` after interacting with the first `j` snapshot particles,
/// skipping itself.
pub open spec fn interact_upto(snap: Seq<ParticleModel>, i: int, j: int, g: int, e: int) -> ParticleModel
    recommends
        0 <= i < snap.len(),
        0 <= j <= snap.len(),
    decreases j,
{
    if j <= 0 {
        snap[i]
    } else {
        let prev = interact_upto(snap, i, j - 1, g, e);
        if j - 1 == i {
            prev
        } else {
            pair_interact(prev, snap[j - 1], g, e)
        }
    }
}

/// Particle `i` after one whole tick: all pair interactions against the
/// snapshot, then one integration step.
pub open spec fn tick_particle(snap: Seq<ParticleModel>, i: int, dt: int, g: int, e: int) -> ParticleModel
    recommends
        0 <= i < snap.len(),
{
    update_particle_spec(interact_upto(snap, i, snap.len() as int, g, e), dt)
}

/// Advance the whole particle set by one tick of `dt`, under gravitational
/// constant `g` and coefficient of restitution `restitution`. Degenerate
/// pairs (coincident centers) are skipped for the tick.
pub fn update(particles: &mut Vec<Particle>, dt: i64, g: i64, restitution: i64)
    ensures
        final(particles)@.len() == old(particles)@.len(),
        forall|i: int| 0 <= i < old(particles)@.len()
            ==> #[trigger] final(particles)@[i]@ == tick_particle(
                models(old(particles)@), i, dt as int, g as int, restitution as int,
            ),
{
    let ghost snap = models(particles@);
    let n = particles.len();
    let mut result: Vec<Particle> = Vec::new();
    let mut i: usize = 0;
    while i < n
        invariant
            i <= n,
            n == particles@.len(),
            particles@ == old(particles)@,
            snap == models(old(particles)@),
            result@.len() == i as int,
            forall|k: int| 0 <= k < i as int
                ==> #[trigger] result@[k]@ == tick_particle(
                    snap, k, dt as int, g as int, restitution as int,
                ),
        decreases n - i,
    {
        let a_ref = &particles[i];
        let mut a = a_ref.clone();
        let mut j: usize = 0;
        while j < n
            invariant
                i < n,
                j <= n,
                n == particles@.len(),
                particles@ == old(particles)@,
                snap == models(old(particles)@),
                a@ == interact_upto(snap, i as int, j as int, g as int, restitution as int),
            decreases n - j,
        {
            if j != i {
                let b = &particles[j];
                proof {
                    assert(b@ == snap[j as int]);
                }
                if is_intersecting(&a, b) {
                    let _ = resolve_intersection(&mut a, b);
                    let _ = resolve_collision(&mut a, b, restitution);
                }
                let _ = attract(&mut a, b, g);
            }
            j = j + 1;
        }
        update_particle(&mut a, dt);
        result.push(a);
        i = i + 1;
    }
    *particles = result;
}

/// The central body spawned at startup: at rest at the origin, small but
/// extremely dense.
pub open spec fn initial_big() -> ParticleModel {
    ParticleModel {
        radius: RAD as int,
        density: BIG_DENSITY as int,
        ..default_particle()
    }
}

/// The `i`-th initially orbiting body, counted from 1: placed on the x axis
/// on alternating sides, with the tangential velocity of a circular orbit
/// around the central body under gravitational constant `g`.
pub open spec fn initial_orbiter(i: int, g: int) -> ParticleModel {
    let side = if i % 2 == 1 { SCALE as int } else { -(SCALE as int) };
    let x = sat(mul_fp(ORBIT_START as int, side)
        + mul_fp(mul_fp(ORBIT_SPACING as int, i * (SCALE as int)), side));
    let pos = V2 { x: x, y: 0 };
    let vel = orbital_velocity_spec(pos, v_zero(), mass_of(RAD as int, BIG_DENSITY as int), g);
    ParticleModel {
        pos: pos,
        vel: vel,
        radius: RAD as int,
        density: MED_DENSITY as int,
        ..default_particle()
    }
}

/// Build the initial particle set: the orbiting bodies first, each with its
/// circular orbital velocity, then the central body.
pub fn spawn_initial(g: i64) -> (r: Vec<Particle>)
    requires
        0 <= g,
    ensures
        r@.len() == NUM_ORBITS as int + 1,
        forall|k: int| 0 <= k < NUM_ORBITS as int
            ==> #[trigger] r@[k]@ == initial_orbiter(k + 1, g as int),
        r@[NUM_ORBITS as int]@ == initial_big(),
{
    let mut big = Particle::default();
    big.set_radius(RAD).unwrap();
    big.set_density(BIG_DENSITY).unwrap();
    let mut r: Vec<Particle> = Vec::new();
    let mut side: i64 = SCALE;
    let mut i: usize = 1;
    while i < NUM_ORBITS + 1
        invariant
            1 <= i <= NUM_ORBITS + 1,
            0 <= g,
            big@ == initial_big(),
            side as int == (if (i as int) % 2 == 1 { SCALE as int } else { -(SCALE as int) }),
            r@.len() == i as int - 1,
            forall|k: int| 0 <= k < i as int - 1
                ==> #[trigger] r@[k]@ == initial_orbiter(k + 1, g as int),
        decreases NUM_ORBITS + 1 - i,
    {
        let mut p = Particle::default();
        p.set_radius(RAD).unwrap();
        p.set_density(MED_DENSITY).unwrap();
        let ifp: i64 = (i as i64) * 1_000_000;
        proof {
            assert(ifp as int == (i as int) * (SCALE as int));
        }
        let x = fp_add(fp_mul(ORBIT_START, side), fp_mul(fp_mul(ORBIT_SPACING, ifp), side));
        let pos = Vec2::new(x, 0);
        proof {
            lemma_mass_of_nonneg(RAD as int, BIG_DENSITY as int);
        }
        let vel = orbital_velocity(pos, big.position(), big.mass(), g);
        p.set_pos(pos);
        p.set_vel(vel);
        if side == SCALE {
            side = -SCALE;
        } else {
            side = SCALE;
        }
        r.push(p);
        i = i + 1;
    }
    r.push(big);
    r
}

/// The particle launched by a drag gesture: spawned where the drag began,
/// with a velocity given by the drag vector back toward its start.
pub fn spawn_input(clicked: Vec2, released: Vec2) -> (p: Particle)
    ensures
        p@ == (ParticleModel {
            pos: clicked@,
            vel: v_sub(clicked@, released@),
            radius: RAD as int,
            density: SMALL_DENSITY as int,
            ..default_particle()
        }),
{
    let mut p = Particle::default();
    p.set_radius(RAD).unwrap();
    p.set_density(SMALL_DENSITY).unwrap();
    p.set_pos(clicked);
    p.set_vel(clicked.sub(released));
    p
}

} // verus!
