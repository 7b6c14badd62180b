use n_body::error::SimError;
use n_body::fixed::SCALE;
use n_body::particle::Particle;
use n_body::physics::{
    attract, integrate, is_intersecting, orbital_velocity, resolve_collision,
    resolve_intersection, update_particle,
};
use n_body::vec2::Vec2;

fn particle(x: i64, y: i64, vx: i64, vy: i64, radius: i64, density: i64) -> Particle {
    let mut p = Particle::default();
    p.set_radius(radius).unwrap();
    p.set_density(density).unwrap();
    p.set_pos(Vec2::new(x, y));
    p.set_vel(Vec2::new(vx, vy));
    p
}

#[test]
fn integrate_is_exact() {
    let r = integrate(Vec2::new(SCALE, 2 * SCALE), Vec2::new(3 * SCALE, 4 * SCALE), 500_000);
    assert_eq!(r, Vec2::new(2_500_000, 4_000_000)); // v + dv * 0.5
}

#[test]
fn update_particle_is_semi_implicit() {
    // Velocity is advanced first; the position then moves with the new
    // velocity, not the old one.
    let mut p = particle(0, 0, SCALE, 0, SCALE, SCALE);
    p.set_acc(Vec2::new(SCALE, 0));
    update_particle(&mut p, SCALE); // dt = 1.0
    assert_eq!(p.velocity(), Vec2::new(2 * SCALE, 0));
    assert_eq!(p.position(), Vec2::new(2 * SCALE, 0)); // moved by the new velocity
    assert_eq!(p.acceleration(), Vec2::new(0, 0)); // accumulator cleared
}

#[test]
fn zero_dt_moves_nothing_but_clears_acceleration() {
    let mut p = particle(7, 8, 9, 10, 100 * SCALE, 10_000);
    p.add_force(Vec2::new(5 * SCALE, 0));
    assert_ne!(p.acceleration(), Vec2::new(0, 0));
    update_particle(&mut p, 0);
    assert_eq!(p.position(), Vec2::new(7, 8));
    assert_eq!(p.velocity(), Vec2::new(9, 10));
    assert_eq!(p.acceleration(), Vec2::new(0, 0));
}

#[test]
fn intersection_uses_squared_distance() {
    let a = particle(0, 0, 0, 0, 10 * SCALE, SCALE);
    let overlapping = particle(15 * SCALE, 0, 0, 0, 10 * SCALE, SCALE);
    let touching = particle(20 * SCALE, 0, 0, 0, 10 * SCALE, SCALE);
    let apart = particle(25 * SCALE, 0, 0, 0, 10 * SCALE, SCALE);
    assert!(is_intersecting(&a, &overlapping));
    assert!(!is_intersecting(&a, &touching)); // exact touch is not intersecting
    assert!(!is_intersecting(&a, &apart));
}

#[test]
fn resolve_intersection_separates_an_axis_pair() {
    // Radii 10 + 10, centers 15 apart: penetration 5, half of it each side.
    let mut a = particle(0, 0, 0, 0, 10 * SCALE, SCALE);
    let mut b = particle(15 * SCALE, 0, 0, 0, 10 * SCALE, SCALE);
    let snap_a = particle(0, 0, 0, 0, 10 * SCALE, SCALE);
    let snap_b = particle(15 * SCALE, 0, 0, 0, 10 * SCALE, SCALE);
    assert!(is_intersecting(&a, &b));
    resolve_intersection(&mut a, &snap_b).unwrap();
    resolve_intersection(&mut b, &snap_a).unwrap();
    assert_eq!(a.position(), Vec2::new(-2_500_000, 0)); // pushed away from b
    assert_eq!(b.position(), Vec2::new(17_500_000, 0)); // pushed away from a
    assert!(!is_intersecting(&a, &b)); // they now touch exactly
}

#[test]
fn resolve_intersection_rejects_coincident_centers() {
    let mut a = particle(3, 4, 0, 0, SCALE, SCALE);
    let b = particle(3, 4, 0, 0, SCALE, SCALE);
    let res = resolve_intersection(&mut a, &b);
    assert_eq!(res, Err(SimError::DegenerateGeometry));
    assert_eq!(a.position(), Vec2::new(3, 4)); // unchanged
}

#[test]
fn elastic_collision_of_equal_masses_swaps_velocities() {
    // Equal masses, opposite closing velocities, restitution 1: velocities
    // exchange, and kinetic energy is conserved within tolerance.
    let mut a = particle(0, 0, 50 * SCALE, 0, 100 * SCALE, 10_000);
    let mut b = particle(210 * SCALE, 0, -50 * SCALE, 0, 100 * SCALE, 10_000);
    let snap_a = particle(0, 0, 50 * SCALE, 0, 100 * SCALE, 10_000);
    let snap_b = particle(210 * SCALE, 0, -50 * SCALE, 0, 100 * SCALE, 10_000);
    resolve_collision(&mut a, &snap_b, SCALE).unwrap();
    resolve_collision(&mut b, &snap_a, SCALE).unwrap();
    assert_eq!(a.velocity(), Vec2::new(-49_999_999, 0));
    assert_eq!(b.velocity(), Vec2::new(49_999_999, 0));

    // Kinetic energy m*v^2 (the common factor 1/2 cancels), in i128.
    let ke = |m: i64, v: Vec2| -> i128 {
        (m as i128) * ((v.x as i128) * (v.x as i128) + (v.y as i128) * (v.y as i128))
    };
    let before = ke(snap_a.mass(), snap_a.velocity()) + ke(snap_b.mass(), snap_b.velocity());
    let after = ke(a.mass(), a.velocity()) + ke(b.mass(), b.velocity());
    let diff = (before - after).abs();
    // within 1e-6 of the initial energy
    assert!(diff * 1_000_000 < before);
}

#[test]
fn inelastic_collision_kills_the_separating_velocity() {
    let mut a = particle(0, 0, 50 * SCALE, 0, 100 * SCALE, 10_000);
    let mut b = particle(210 * SCALE, 0, -50 * SCALE, 0, 100 * SCALE, 10_000);
    let snap_a = particle(0, 0, 50 * SCALE, 0, 100 * SCALE, 10_000);
    let snap_b = particle(210 * SCALE, 0, -50 * SCALE, 0, 100 * SCALE, 10_000);
    resolve_collision(&mut a, &snap_b, 0).unwrap();
    resolve_collision(&mut b, &snap_a, 0).unwrap();
    // With restitution 0 the pair stops dead along the normal, up to the
    // fixed-point grid: one millionth of a unit each.
    assert_eq!(a.velocity(), Vec2::new(1, 0));
    assert_eq!(b.velocity(), Vec2::new(-1, 0));
}

#[test]
fn receding_bodies_are_not_impulsed() {
    let mut a = particle(0, 0, -5 * SCALE, 0, 100 * SCALE, 10_000);
    let b = particle(210 * SCALE, 0, 5 * SCALE, 0, 100 * SCALE, 10_000);
    resolve_collision(&mut a, &b, SCALE).unwrap();
    assert_eq!(a.velocity(), Vec2::new(-5 * SCALE, 0)); // already separating
}

#[test]
fn resolve_collision_rejects_coincident_centers() {
    let mut a = particle(1, 1, 2, 2, SCALE, SCALE);
    let b = particle(1, 1, -2, -2, SCALE, SCALE);
    let res = resolve_collision(&mut a, &b, SCALE);
    assert_eq!(res, Err(SimError::DegenerateGeometry));
    assert_eq!(a.velocity(), Vec2::new(2, 2));
}

#[test]
fn attract_accumulates_the_gravitational_acceleration() {
    // g * mA * mB / d^2 = 66.7 * 41887.9 * 0.418879 / 200^2, then a = F/m.
    let mut b = particle(-200 * SCALE, 0, 0, 110 * SCALE, 10 * SCALE, 100);
    let a = particle(0, 0, 0, 0, 100 * SCALE, 10_000);
    attract(&mut b, &a, 66_700_000).unwrap();
    assert_eq!(b.acceleration(), Vec2::new(69_848_070, 0)); // toward a, ~69.85
    assert_eq!(b.velocity(), Vec2::new(0, 110 * SCALE)); // force only touches acc
}

#[test]
fn attract_rejects_coincident_centers() {
    let mut a = particle(5, 6, 0, 0, SCALE, SCALE);
    let b = particle(5, 6, 0, 0, SCALE, SCALE);
    let res = attract(&mut a, &b, 66_700_000);
    assert_eq!(res, Err(SimError::DegenerateGeometry));
    assert_eq!(a.acceleration(), Vec2::new(0, 0));
}

#[test]
fn orbital_velocity_is_tangential() {
    // sqrt(g * M / r) with M = 41887.9, r = 200: ~118.19, perpendicular to
    // the +x separation, so along +y.
    let big = particle(0, 0, 0, 0, 100 * SCALE, 10_000);
    let v = orbital_velocity(Vec2::new(200 * SCALE, 0), Vec2::new(0, 0), big.mass(), 66_700_000);
    assert_eq!(v, Vec2::new(0, 118_193_124));
}

#[test]
fn orbital_velocity_of_coincident_points_is_zero() {
    let v = orbital_velocity(Vec2::new(9, 9), Vec2::new(9, 9), 5 * SCALE, 66_700_000);
    assert_eq!(v, Vec2::new(0, 0));
}
