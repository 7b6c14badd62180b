//! Pairwise physics: integration, intersection, collision response and
//! Newtonian attraction.
//!
//! All operations are pure in the sense that they take particle references
//! and mutate only their first argument; each is pinned to a spec function
//! over [`ParticleModel`]. Where two centers coincide no interaction axis
//! exists: those pairs are reported as [`SimError::DegenerateGeometry`] and
//! the particle is left unchanged, so the caller can skip the pair for the
//! tick instead of dividing by zero.

use vstd::prelude::*;
use crate::error::SimError;
use crate::fixed::{fp_add, fp_sub, fp_mul, fp_div, fp_sqrt};
use crate::fixed::{sat, mul_fp, div_fp, sqrt_fp, HALF, SCALE, FP_MAX};
use crate::particle::{Particle, ParticleModel, mass_of, add_force_spec, default_particle};
use crate::vec2::{Vec2, V2, v_zero, v_add, v_sub, v_scale, v_div_scalar, v_dot, v_len_sq, v_len};

verus! {

/// Fixed-point representation of 2.0.
pub const TWO: i64 = 2_000_000;

/// Semi-implicit Euler step of one vector: `v + dv * dt`.
pub open spec fn integrate_spec(v: V2, dv: V2, dt: int) -> V2 {
    v_add(v, v_scale(dv, dt))
}

/// One integration step of a particle: the velocity is advanced from the
/// current acceleration first, the position from the already-updated
/// velocity, and the per-tick accumulator is cleared.
pub open spec fn update_particle_spec(p: ParticleModel, dt: int) -> ParticleModel {
    let vel = integrate_spec(p.vel, p.acc, dt);
    let pos = integrate_spec(p.pos, vel, dt);
    ParticleModel { vel: vel, pos: pos, acc: v_zero(), ..p }
}

/// True iff the squared center distance is below the squared sum of radii.
pub open spec fn is_intersecting_spec(a: ParticleModel, b: ParticleModel) -> bool {
    let dist_sq = v_len_sq(v_sub(a.pos, b.pos));
    let combined = sat(a.radius + b.radius);
    dist_sq < mul_fp(combined, combined)
}

/// Displacement of `a` away from `b` by half the penetration depth, along
/// the center-to-center axis; identity when the centers coincide.
pub open spec fn resolve_intersection_spec(a: ParticleModel, b: ParticleModel) -> ParticleModel {
    let d = v_sub(a.pos, b.pos);
    let dist = v_len(d);
    if dist == 0 {
        a
    } else {
        let combined = sat(a.radius + b.radius);
        let overlap = mul_fp(HALF as int, sat(combined - dist));
        let normal = v_div_scalar(d, dist);
        ParticleModel { pos: v_add(a.pos, v_scale(normal, overlap)), ..a }
    }
}

/// Impulse response of `a` to a collision with `b` under restitution `r`:
/// only applied while the bodies approach along the collision normal, and
/// only when both masses and the combined inverse mass are nonzero.
pub open spec fn resolve_collision_spec(a: ParticleModel, b: ParticleModel, r: int) -> ParticleModel {
    let d = v_sub(a.pos, b.pos);
    let dist = v_len(d);
    if dist == 0 {
        a
    } else {
        let normal = v_div_scalar(d, dist);
        let closing = v_dot(v_sub(a.vel, b.vel), normal);
        if closing >= 0 {
            a
        } else {
            let ma = mass_of(a.radius, a.density);
            let mb = mass_of(b.radius, b.density);
            if ma == 0 || mb == 0 {
                a
            } else {
                let inv_a = div_fp(SCALE as int, ma);
                let inv_b = div_fp(SCALE as int, mb);
                let denom = sat(inv_a + inv_b);
                if denom == 0 {
                    a
                } else {
                    let j = div_fp(sat(-mul_fp(sat((SCALE as int) + r), closing)), denom);
                    let delta = v_scale(v_scale(normal, j), inv_a);
                    ParticleModel { vel: v_add(a.vel, delta), ..a }
                }
            }
        }
    }
}

/// Gravitational pull of `b` on `a`: a force of magnitude
/// `g * mass(a) * mass(b) / dist^2` toward `b`, fed through the
/// acceleration accumulator; identity when the squared distance vanishes
/// on the fixed-point grid.
pub open spec fn attract_spec(a: ParticleModel, b: ParticleModel, g: int) -> ParticleModel {
    let d = v_sub(b.pos, a.pos);
    let dist = v_len(d);
    let dist2 = mul_fp(dist, dist);
    if dist2 == 0 {
        a
    } else {
        let ma = mass_of(a.radius, a.density);
        let mb = mass_of(b.radius, b.density);
        let mag = div_fp(mul_fp(mul_fp(g, ma), mb), dist2);
        let f = v_scale(v_div_scalar(d, dist), mag);
        add_force_spec(a, f)
    }
}

/// Integrate a vector with respect to time given its first derivative,
/// using semi-implicit Euler integration.
pub fn integrate(v: Vec2, dv: Vec2, dt: i64) -> (r: Vec2)
    ensures
        r@ == integrate_spec(v@, dv@, dt as int),
{
    v.add(dv.scale(dt))
}

/// Update a particle's physics with semi-implicit Euler integration.
pub fn update_particle(p: &mut Particle, dt: i64)
    ensures
        final(p)@ == update_particle_spec(old(p)@, dt as int),
{
    p.set_vel(integrate(p.velocity(), p.acceleration(), dt));
    p.set_pos(integrate(p.position(), p.velocity(), dt));
    p.set_acc(Vec2::zero());
}

/// Check whether two particles are intersecting.
pub fn is_intersecting(a: &Particle, b: &Particle) -> (r: bool)
    ensures
        r == is_intersecting_spec(a@, b@),
{
    let dist_sq = a.position().sub(b.position()).length_squared();
    let combined = fp_add(a.radius(), b.radius());
    dist_sq < fp_mul(combined, combined)
}

/// Resolve the position of a particle to remove an intersection, pushing
/// `a` away from `b` by half the penetration depth. Does not check for
/// intersection; reports the pair as degenerate when the centers coincide
/// and leaves `a` unchanged then.
pub fn resolve_intersection(a: &mut Particle, b: &Particle) -> (res: Result<(), SimError>)
    ensures
        final(a)@ == resolve_intersection_spec(old(a)@, b@),
        res is Ok <==> v_len(v_sub(old(a)@.pos, b@.pos)) != 0,
        res is Err ==> res == Err::<(), SimError>(SimError::DegenerateGeometry),
{
    let d = a.position().sub(b.position());
    let dist = d.length();
    if dist == 0 {
        return Err(SimError::DegenerateGeometry);
    }
    let combined = fp_add(a.radius(), b.radius());
    let overlap = fp_mul(HALF, fp_sub(combined, dist));
    let normal = d.div_scalar(dist);
    let prev = a.position();
    a.set_pos(prev.add(normal.scale(overlap)));
    Ok(())
}

/// Resolve the velocity of `a` after an elastic collision with `b` under
/// the coefficient of restitution `r`; expected in `[0, 1]`, values outside
/// that range are accepted but physically meaningless. Does not check for
/// intersection; reports the pair as degenerate when the centers coincide
/// and leaves `a` unchanged then.
pub fn resolve_collision(a: &mut Particle, b: &Particle, r: i64) -> (res: Result<(), SimError>)
    ensures
        final(a)@ == resolve_collision_spec(old(a)@, b@, r as int),
        res is Ok <==> v_len(v_sub(old(a)@.pos, b@.pos)) != 0,
        res is Err ==> res == Err::<(), SimError>(SimError::DegenerateGeometry),
{
    let d = a.position().sub(b.position());
    let dist = d.length();
    if dist == 0 {
        return Err(SimError::DegenerateGeometry);
    }
    let normal = d.div_scalar(dist);
    let rel_vel = a.velocity().sub(b.velocity());
    let closing = rel_vel.dot(normal);
    if closing < 0 {
        let ma = a.mass();
        let mb = b.mass();
        if ma != 0 && mb != 0 {
            let a_inv_mass = fp_div(SCALE, ma);
            let b_inv_mass = fp_div(SCALE, mb);
            let denom = fp_add(a_inv_mass, b_inv_mass);
            if denom != 0 {
                let num = fp_mul(fp_add(SCALE, r), closing);
                proof {
                    assert(-(FP_MAX as int) <= num as int <= FP_MAX as int);
                }
                let impulse_mag = fp_div(-num, denom);
                let impulse = normal.scale(impulse_mag);
                let prev = a.velocity();
                a.set_vel(prev.add(impulse.scale(a_inv_mass)));
            }
        }
    }
    Ok(())
}

/// Attract `a` toward `b` through the gravitational force. Reports the pair
/// as degenerate, leaving `a` unchanged, when the squared center distance
/// vanishes on the fixed-point grid.
pub fn attract(a: &mut Particle, b: &Particle, g: i64) -> (res: Result<(), SimError>)
    ensures
        final(a)@ == attract_spec(old(a)@, b@, g as int),
        res is Ok <==> mul_fp(v_len(v_sub(b@.pos, old(a)@.pos)), v_len(v_sub(b@.pos, old(a)@.pos))) != 0,
        res is Err ==> res == Err::<(), SimError>(SimError::DegenerateGeometry),
{
    let d = b.position().sub(a.position());
    let dist = d.length();
    let dist2 = fp_mul(dist, dist);
    if dist2 == 0 {
        return Err(SimError::DegenerateGeometry);
    }
    let mag = fp_div(fp_mul(fp_mul(g, a.mass()), b.mass()), dist2);
    let f = d.div_scalar(dist).scale(mag);
    a.add_force(f);
    Ok(())
}

/// The particle at row `i`, column `j` of a square grid of `n * n` bodies
/// of the given radius and density, spaced two radii apart; the starting
/// corner derives both of its components from the center's x coordinate.
pub open spec fn grid_particle(
    center: V2,
    n: int,
    radius: int,
    density: int,
    i: int,
    j: int,
) -> ParticleModel {
    let nf = n * (SCALE as int);
    let total = sat(mul_fp(mul_fp(nf, TWO as int), radius) + mul_fp(TWO as int, radius));
    let corner = sat(sat(center.x - div_fp(total, TWO as int)) + radius);
    let x = sat(corner + mul_fp(mul_fp(TWO as int, radius), j * (SCALE as int)));
    let y = sat(corner + mul_fp(mul_fp(TWO as int, radius), i * (SCALE as int)));
    ParticleModel {
        pos: V2 { x: x, y: y },
        radius: radius,
        density: density,
        ..default_particle()
    }
}

/// Build a square grid of `n * n` particles of equal radius and density
/// around `center`, row by row.
pub fn generate_particle_grid(center: Vec2, n: usize, radius: i64, density: i64)
    -> (particles: Vec<Particle>)
    requires
        0 <= radius,
        0 <= density,
        (n as int) * (n as int) <= usize::MAX as int,
        (n as int) * (SCALE as int) <= FP_MAX as int,
    ensures
        particles@.len() == (n as int) * (n as int),
        forall|k: int| 0 <= k < particles@.len()
            ==> #[trigger] particles@[k]@ == grid_particle(
                center@, n as int, radius as int, density as int,
                k / (n as int), k % (n as int),
            ),
{
    let mut particles: Vec<Particle> = Vec::new();
    let nf: i64 = (n as i64) * 1_000_000;
    proof {
        assert(nf as int == (n as int) * (SCALE as int));
    }
    let t1 = fp_mul(fp_mul(nf, TWO), radius);
    let t2 = fp_mul(TWO, radius);
    let total = fp_add(t1, t2);
    let corner = fp_add(fp_sub(center.x, fp_div(total, TWO)), radius);
    let start = Vec2::new(corner, corner);
    let mut i: usize = 0;
    while i < n
        invariant
            i <= n,
            (n as int) * (n as int) <= usize::MAX as int,
            (n as int) * (SCALE as int) <= FP_MAX as int,
            0 <= radius,
            0 <= density,
            nf as int == (n as int) * (SCALE as int),
            start@ == (V2 {
                x: sat(sat(center@.x - div_fp(
                    sat(mul_fp(mul_fp(nf as int, TWO as int), radius as int)
                        + mul_fp(TWO as int, radius as int)),
                    TWO as int,
                )) + radius),
                y: sat(sat(center@.x - div_fp(
                    sat(mul_fp(mul_fp(nf as int, TWO as int), radius as int)
                        + mul_fp(TWO as int, radius as int)),
                    TWO as int,
                )) + radius),
            }),
            particles@.len() == (i as int) * (n as int),
            forall|k: int| 0 <= k < particles@.len()
                ==> #[trigger] particles@[k]@ == grid_particle(
                    center@, n as int, radius as int, density as int,
                    k / (n as int), k % (n as int),
                ),
        decreases n - i,
    {
        let mut j: usize = 0;
        while j < n
            invariant
                i < n,
                j <= n,
                (n as int) * (n as int) <= usize::MAX as int,
                (n as int) * (SCALE as int) <= FP_MAX as int,
                0 <= radius,
                0 <= density,
                nf as int == (n as int) * (SCALE as int),
                start@ == (V2 {
                    x: sat(sat(center@.x - div_fp(
                        sat(mul_fp(mul_fp(nf as int, TWO as int), radius as int)
                            + mul_fp(TWO as int, radius as int)),
                        TWO as int,
                    )) + radius),
                    y: sat(sat(center@.x - div_fp(
                        sat(mul_fp(mul_fp(nf as int, TWO as int), radius as int)
                            + mul_fp(TWO as int, radius as int)),
                        TWO as int,
                    )) + radius),
                }),
                particles@.len() == (i as int) * (n as int) + j as int,
                forall|k: int| 0 <= k < particles@.len()
                    ==> #[trigger] particles@[k]@ == grid_particle(
                        center@, n as int, radius as int, density as int,
                        k / (n as int), k % (n as int),
                    ),
            decreases n - j,
        {
            proof {
                assert((i as int) * (n as int) + j < (n as int) * (n as int))
                    by (nonlinear_arith)
                    requires
                        0 <= i < n,
                        0 <= j < n,
                ;
            }
            let jf: i64 = (j as i64) * 1_000_000;
            let fi: i64 = (i as i64) * 1_000_000;
            proof {
                assert(jf as int == (j as int) * (SCALE as int));
                assert(fi as int == (i as int) * (SCALE as int));
            }
            let x = fp_add(start.x, fp_mul(fp_mul(TWO, radius), jf));
            let y = fp_add(start.y, fp_mul(fp_mul(TWO, radius), fi));
            let mut p = Particle::default();
            p.set_radius(radius).unwrap();
            p.set_density(density).unwrap();
            p.set_pos(Vec2::new(x, y));
            particles.push(p);
            proof {
                let k = (i as int) * (n as int) + j as int;
                vstd::arithmetic::div_mod::lemma_fundamental_div_mod_converse(
                    k, n as int, i as int, j as int,
                );
                assert(particles@[k]@ == grid_particle(
                    center@, n as int, radius as int, density as int, i as int, j as int,
                ));
            }
            j = j + 1;
        }
        i = i + 1;
        proof {
            assert((i as int) * (n as int) == (i as int - 1) * (n as int) + (n as int))
                by (nonlinear_arith);
        }
    }
    proof {
        assert((i as int) * (n as int) == (n as int) * (n as int));
    }
    particles
}

/// The tangential velocity of a circular orbit of `satellite` around a
/// body of mass `planet_mass` at `planet`: magnitude `sqrt(g * M / dist)`,
/// perpendicular to the separation. Zero when the two points coincide.
pub fn orbital_velocity(satellite: Vec2, planet: Vec2, planet_mass: i64, g: i64) -> (r: Vec2)
    requires
        0 <= planet_mass,
        0 <= g,
    ensures
        r@ == orbital_velocity_spec(satellite@, planet@, planet_mass as int, g as int),
{
    let rel = satellite.sub(planet);
    let dist = rel.length();
    if dist == 0 {
        return Vec2::zero();
    }
    let gm = fp_mul(g, planet_mass);
    proof {
        crate::fixed::lemma_mul_fp_nonneg(g as int, planet_mass as int);
        crate::fixed::lemma_div_fp_nonneg(gm as int, dist as int);
    }
    let mag = fp_sqrt(fp_div(gm, dist));
    let perp = Vec2::new(-rel.y, rel.x);
    perp.div_scalar(dist).scale(mag)
}

/// Spec of [`orbital_velocity`]: the perpendicular of the separation has the
/// same length as the separation itself, so it is normalized by `dist`.
pub open spec fn orbital_velocity_spec(satellite: V2, planet: V2, planet_mass: int, g: int) -> V2 {
    let rel = v_sub(satellite, planet);
    let dist = v_len(rel);
    if dist == 0 {
        v_zero()
    } else {
        let mag = sqrt_fp(div_fp(mul_fp(g, planet_mass), dist));
        let perp = V2 { x: -rel.y, y: rel.x };
        v_scale(v_div_scalar(perp, dist), mag)
    }
}

} // verus!
