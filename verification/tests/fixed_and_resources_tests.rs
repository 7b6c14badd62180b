use n_body::fixed::{fp_add, fp_cbrt, fp_div, fp_mul, fp_sqrt, fp_sub, FP_MAX, SCALE};
use n_body::math::normalize;
use n_body::resources::{Controls, MouseState, NumericConstants, SimulationState};
use n_body::vec2::Vec2;

#[test]
fn fixed_point_products_rescale_and_truncate() {
    assert_eq!(fp_mul(2 * SCALE, 3 * SCALE), 6 * SCALE);
    assert_eq!(fp_mul(SCALE / 2, SCALE / 2), SCALE / 4);
    assert_eq!(fp_mul(1, 1), 0); // underflows the grid
    assert_eq!(fp_mul(-3 * SCALE, 2 * SCALE), -6 * SCALE);
    assert_eq!(fp_mul(7, -500_000), -3); // truncates toward zero
}

#[test]
fn fixed_point_quotients_rescale_and_truncate() {
    assert_eq!(fp_div(SCALE, 3 * SCALE), 333_333);
    assert_eq!(fp_div(-SCALE, 3 * SCALE), -333_333); // toward zero, not down
    assert_eq!(fp_div(6 * SCALE, 2 * SCALE), 3 * SCALE);
}

#[test]
fn sums_saturate_at_the_range_ends() {
    assert_eq!(fp_add(FP_MAX, FP_MAX), FP_MAX);
    assert_eq!(fp_sub(-FP_MAX, FP_MAX), -FP_MAX);
    assert_eq!(fp_add(1, 2), 3);
}

#[test]
fn square_root_is_exact_on_squares_and_rounds_down() {
    assert_eq!(fp_sqrt(4 * SCALE), 2 * SCALE);
    assert_eq!(fp_sqrt(2 * SCALE), 1_414_213); // sqrt(2), rounded down
    assert_eq!(fp_sqrt(0), 0);
}

#[test]
fn cube_root_is_exact_on_cubes() {
    assert_eq!(fp_cbrt(8 * SCALE), 2 * SCALE);
    assert_eq!(fp_cbrt(SCALE), SCALE);
}

#[test]
fn vector_length_is_euclidean() {
    assert_eq!(Vec2::new(3 * SCALE, 4 * SCALE).length(), 5 * SCALE);
    assert_eq!(Vec2::new(0, -7 * SCALE).length(), 7 * SCALE);
    assert_eq!(Vec2::new(3 * SCALE, 4 * SCALE).length_squared(), 25 * SCALE);
    assert_eq!(Vec2::new(2 * SCALE, 2 * SCALE).dot(Vec2::new(3 * SCALE, 9)), 6_000_018);
}

#[test]
fn normalize_maps_between_ranges() {
    // 50 in [0, 100] is 0.5 in [0, 1].
    assert_eq!(normalize(50 * SCALE, 0, 100 * SCALE, 0, SCALE), 500_000);
    // 0 maps to the low end, 100 to the high end.
    assert_eq!(normalize(0, 0, 100 * SCALE, 3 * SCALE, 5 * SCALE), 3 * SCALE);
    assert_eq!(normalize(100 * SCALE, 0, 100 * SCALE, 3 * SCALE, 5 * SCALE), 5 * SCALE);
    // A reversed target range interpolates downward.
    assert_eq!(normalize(25 * SCALE, 0, 100 * SCALE, SCALE, 0), 750_000);
}

#[test]
fn default_tunables_match_the_documented_values() {
    let s = SimulationState::new();
    assert_eq!(s.numeric_constants.g.value, 66_700_000); // 66.7
    assert_eq!(s.numeric_constants.g.min, 0);
    assert_eq!(s.numeric_constants.g.max, 100 * SCALE);
    assert_eq!(s.numeric_constants.g.label, "Gravitational Force Constant");
    assert_eq!(s.numeric_constants.restitution.value, 800_000); // 0.8
    assert_eq!(s.numeric_constants.restitution.min, 0);
    assert_eq!(s.numeric_constants.restitution.max, SCALE);
    assert_eq!(s.numeric_constants.restitution.label, "Elastic Restitution");
    assert!(!s.controls.show_path);
}

#[test]
fn fresh_input_state_is_idle() {
    let m = MouseState::default();
    assert!(m.click.is_none());
    assert!(m.release.is_none());
    assert!(m.dragging.is_none());
    assert!(!m.is_held);
    assert_eq!(m.hold_dur, 0);
    let c = Controls::default();
    assert!(!c.show_path);
    let s: SimulationState = Default::default();
    assert_eq!(s.numeric_constants.restitution.speed, 10_000);
    assert_eq!(s.numeric_constants.g.speed, 100_000);
}
