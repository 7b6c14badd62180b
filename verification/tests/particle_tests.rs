use n_body::error::SimError;
use n_body::fixed::SCALE;
use n_body::particle::Particle;
use n_body::vec2::Vec2;

#[test]
fn default_particle_is_at_rest() {
    let p = Particle::default();
    assert_eq!(p.position(), Vec2::new(0, 0));
    assert_eq!(p.velocity(), Vec2::new(0, 0));
    assert_eq!(p.acceleration(), Vec2::new(0, 0));
    assert_eq!(p.radius(), 0);
    assert_eq!(p.mass(), 0);
}

#[test]
fn mass_formula_exact_values() {
    // radius 100, density 0.01: mass = 0.01 * (4/3)*pi * 100^3 = 41887.9
    let mut p = Particle::default();
    p.set_radius(100 * SCALE).unwrap();
    p.set_density(10_000).unwrap();
    assert_eq!(p.mass(), 41_887_900_000);

    // radius 10, density 0.0001: mass = 0.418879
    let mut q = Particle::default();
    q.set_radius(10 * SCALE).unwrap();
    q.set_density(100).unwrap();
    assert_eq!(q.mass(), 418_879);

    // radius 5, density 1e4: mass = 5235987.5
    let mut r = Particle::default();
    r.set_radius(5 * SCALE).unwrap();
    r.set_density(10_000 * SCALE).unwrap();
    assert_eq!(r.mass(), 5_235_987_500_000);
}

#[test]
fn mass_grows_with_radius_and_density() {
    let mut small = Particle::default();
    small.set_radius(2 * SCALE).unwrap();
    small.set_density(SCALE).unwrap();
    let mut bigger_radius = Particle::default();
    bigger_radius.set_radius(3 * SCALE).unwrap();
    bigger_radius.set_density(SCALE).unwrap();
    let mut denser = Particle::default();
    denser.set_radius(2 * SCALE).unwrap();
    denser.set_density(2 * SCALE).unwrap();
    assert!(small.mass() > 0);
    assert!(bigger_radius.mass() > small.mass());
    assert!(denser.mass() > small.mass());
}

#[test]
fn negative_radius_is_rejected_and_value_retained() {
    let mut p = Particle::default();
    p.set_radius(7 * SCALE).unwrap();
    let res = p.set_radius(-1);
    assert_eq!(res, Err(SimError::InvalidParameter));
    assert_eq!(p.radius(), 7 * SCALE);
}

#[test]
fn negative_density_is_rejected_and_value_retained() {
    let mut p = Particle::default();
    p.set_density(3 * SCALE).unwrap();
    let res = p.set_density(-5);
    assert_eq!(res, Err(SimError::InvalidParameter));
    p.set_radius(SCALE).unwrap();
    assert_eq!(p.mass(), 12_566_370); // density still 3.0: 3 * (4/3)*pi
}

#[test]
fn zero_radius_is_accepted() {
    let mut p = Particle::default();
    assert_eq!(p.set_radius(0), Ok(()));
    assert_eq!(p.mass(), 0);
}

#[test]
fn add_force_divides_by_mass() {
    let mut p = Particle::default();
    p.set_radius(100 * SCALE).unwrap();
    p.set_density(10_000).unwrap();
    let m = p.mass();
    p.add_force(Vec2::new(m, 0));
    assert_eq!(p.acceleration(), Vec2::new(SCALE, 0)); // a = F/m = 1.0
    p.add_force(Vec2::new(m, 0));
    assert_eq!(p.acceleration(), Vec2::new(2 * SCALE, 0)); // accumulates
}

#[test]
fn add_force_on_massless_particle_is_a_no_op() {
    let mut p = Particle::default(); // radius 0 -> mass 0
    p.add_force(Vec2::new(123, 456));
    assert_eq!(p.acceleration(), Vec2::new(0, 0));
}

#[test]
fn set_mass_with_density_hits_requested_mass() {
    let mut p = Particle::default();
    p.set_radius(SCALE).unwrap();
    p.set_mass_with_density(4_188_790); // (4/3)*pi, the mass of a unit sphere at density 1
    assert_eq!(p.mass(), 4_188_790);
}

#[test]
fn set_mass_with_radius_hits_requested_mass() {
    let mut p = Particle::default();
    p.set_density(SCALE).unwrap();
    p.set_mass_with_radius(4_188_790);
    assert_eq!(p.radius(), SCALE); // unit sphere
}

#[test]
fn setters_update_kinematic_state() {
    let mut p = Particle::default();
    p.set_pos(Vec2::new(1, 2));
    p.set_vel(Vec2::new(3, 4));
    p.set_acc(Vec2::new(5, 6));
    assert_eq!(p.position(), Vec2::new(1, 2));
    assert_eq!(p.velocity(), Vec2::new(3, 4));
    assert_eq!(p.acceleration(), Vec2::new(5, 6));
}

#[test]
fn particle_trail_keeps_the_most_recent_hundred_points() {
    let mut p = Particle::default(); // trail capacity 100
    for i in 0..103i64 {
        p.add_point(Vec2::new(i, -i));
    }
    let pts = p.points();
    assert_eq!(pts.len(), 100);
    assert_eq!(pts[0], Vec2::new(3, -3)); // the three oldest were evicted
    assert_eq!(pts[99], Vec2::new(102, -102));
    for (k, v) in pts.iter().enumerate() {
        assert_eq!(*v, Vec2::new(k as i64 + 3, -(k as i64 + 3)));
    }
}
