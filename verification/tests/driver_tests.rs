use n_body::driver::{spawn_initial, spawn_input, update};
use n_body::fixed::SCALE;
use n_body::particle::Particle;
use n_body::physics::orbital_velocity;
use n_body::vec2::Vec2;

fn particle(x: i64, y: i64, vx: i64, vy: i64, radius: i64, density: i64) -> Particle {
    let mut p = Particle::default();
    p.set_radius(radius).unwrap();
    p.set_density(density).unwrap();
    p.set_pos(Vec2::new(x, y));
    p.set_vel(Vec2::new(vx, vy));
    p
}

/// Fixed-point distance between two particles' centers.
fn dist(a: &Particle, b: &Particle) -> i64 {
    let d = a.position().sub(b.position());
    d.length()
}

const DT_60: i64 = 16_666; // 1/60 s, truncated to the fixed-point grid
const G_DEFAULT: i64 = 66_700_000; // 66.7

#[test]
fn one_tick_of_the_two_body_example() {
    // A at the origin, radius 100, density 0.01, stationary; B at (-200, 0),
    // radius 10, density 0.0001, moving (0, 110). After one tick of 1/60,
    // B moves by velocity * dt plus a small gravitational pull toward A.
    let a = particle(0, 0, 0, 0, 100 * SCALE, 10_000);
    let b = particle(-200 * SCALE, 0, 0, 110 * SCALE, 10 * SCALE, 100);
    let mut ps = vec![a, b];
    update(&mut ps, DT_60, G_DEFAULT, 800_000);
    assert_eq!(ps.len(), 2);

    // B: y advanced by exactly vy * dt; x nudged toward A by gravity.
    assert_eq!(ps[1].position(), Vec2::new(-199_980_600, 1_833_260));
    assert_eq!(ps[1].velocity(), Vec2::new(1_164_087, 110 * SCALE));
    let dy = ps[1].position().y;
    assert_eq!(dy, 1_833_260); // == 110 * dt exactly
    let dx = ps[1].position().x + 200 * SCALE;
    assert!(dx > 0 && dx < 100_000); // small correction, toward A

    // A barely moves: it is 100000 times heavier.
    assert_eq!(ps[0].position(), Vec2::new(0, 0));
    assert_eq!(ps[0].velocity(), Vec2::new(-11, 0));
}

#[test]
fn update_keeps_the_particle_count() {
    let mut ps = vec![
        particle(0, 0, 0, 0, SCALE, SCALE),
        particle(10 * SCALE, 0, 0, 0, SCALE, SCALE),
        particle(0, 10 * SCALE, 0, 0, SCALE, SCALE),
    ];
    for _ in 0..10 {
        update(&mut ps, DT_60, G_DEFAULT, 800_000);
        assert_eq!(ps.len(), 3);
    }
}

#[test]
fn update_skips_coincident_pairs() {
    // Two particles spawned at the same point: the pair is degenerate and
    // skipped, so the tick leaves both of them where they are.
    let mut ps = vec![
        particle(5 * SCALE, 5 * SCALE, 0, 0, SCALE, SCALE),
        particle(5 * SCALE, 5 * SCALE, 0, 0, SCALE, SCALE),
    ];
    update(&mut ps, DT_60, G_DEFAULT, 800_000);
    assert_eq!(ps[0].position(), Vec2::new(5 * SCALE, 5 * SCALE));
    assert_eq!(ps[1].position(), Vec2::new(5 * SCALE, 5 * SCALE));
    assert_eq!(ps[0].velocity(), Vec2::new(0, 0));
    assert_eq!(ps[1].velocity(), Vec2::new(0, 0));
}

#[test]
fn a_small_body_in_circular_orbit_keeps_its_distance() {
    // A heavy body at rest and a tiny satellite 200 away with circular
    // orbital velocity: over two orbits the separation stays within a
    // few percent of the initial radius.
    let big = particle(0, 0, 0, 0, 100 * SCALE, 10_000);
    let mut sat = particle(200 * SCALE, 0, 0, 0, SCALE, 1_000);
    let v = orbital_velocity(sat.position(), big.position(), big.mass(), G_DEFAULT);
    assert_eq!(v, Vec2::new(0, 118_193_124)); // sqrt(g * M / r)
    sat.set_vel(v);
    let mut ps = vec![big, sat];
    // ~638 ticks per orbit at dt = 1/60; run two orbits.
    for _ in 0..1300 {
        update(&mut ps, DT_60, G_DEFAULT, 800_000);
        let d = dist(&ps[1], &ps[0]);
        assert!(d > 195 * SCALE && d < 205 * SCALE);
    }
}

#[test]
fn spawn_initial_builds_two_orbiters_and_a_sun() {
    let ps = spawn_initial(G_DEFAULT);
    assert_eq!(ps.len(), 3);

    // The sun: radius 5, density 1e4, at rest at the origin.
    assert_eq!(ps[2].position(), Vec2::new(0, 0));
    assert_eq!(ps[2].velocity(), Vec2::new(0, 0));
    assert_eq!(ps[2].radius(), 5 * SCALE);
    assert_eq!(ps[2].mass(), 5_235_987_500_000);

    // First orbiter at +200 on the x axis, orbiting counter-clockwise.
    assert_eq!(ps[0].position(), Vec2::new(200 * SCALE, 0));
    assert_eq!(ps[0].velocity(), Vec2::new(0, 1_321_439_302));
    assert_eq!(ps[0].radius(), 5 * SCALE);

    // Second orbiter mirrored at -250, orbiting the other way.
    assert_eq!(ps[1].position(), Vec2::new(-250 * SCALE, 0));
    assert_eq!(ps[1].velocity(), Vec2::new(0, -1_181_931_243));
}

#[test]
fn spawn_input_launches_against_the_drag() {
    let p = spawn_input(Vec2::new(10 * SCALE, 20 * SCALE), Vec2::new(4 * SCALE, 26 * SCALE));
    assert_eq!(p.position(), Vec2::new(10 * SCALE, 20 * SCALE));
    assert_eq!(p.velocity(), Vec2::new(6 * SCALE, -6 * SCALE)); // click - release
    assert_eq!(p.radius(), 5 * SCALE);
}
