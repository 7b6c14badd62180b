//! Shared simulation state: tunable parameters and input bookkeeping.
//!
//! The tunables are plain fixed-point scalars carried in an explicit state
//! struct that the host passes into the tick, not ambient globals.

use vstd::prelude::*;
use crate::fixed::SCALE;
use crate::vec2::Vec2;

verus! {

/// A tunable scalar with its allowed range, adjustment step and label.
pub struct NumericConstant {
    pub value: i64,
    pub min: i64,
    pub max: i64,
    pub speed: i64,
    pub label: String,
}

impl NumericConstant {
    /// Bundle a value with its range, step and label.
    pub fn new(value: i64, min: i64, max: i64, speed: i64, label: &str) -> (r: Self)
        ensures
            r.value == value,
            r.min == min,
            r.max == max,
            r.speed == speed,
            r.label@ == label@,
    {
        NumericConstant { value, min, max, speed, label: label.to_owned() }
    }
}

/// The two tunables of the simulation.
pub struct NumericConstants {
    pub g: NumericConstant,
    pub restitution: NumericConstant,
}

impl NumericConstants {
    /// The default tunables: gravitational constant 66.7 adjustable in
    /// [0, 100], restitution 0.8 adjustable in [0, 1].
    pub fn new() -> (r: Self)
        ensures
            r.g.value == 66_700_000,
            r.g.min == 0,
            r.g.max == 100 * SCALE,
            r.g.speed == 100_000,
            r.g.label@ == "Gravitational Force Constant"@,
            r.restitution.value == 800_000,
            r.restitution.min == 0,
            r.restitution.max == SCALE,
            r.restitution.speed == 10_000,
            r.restitution.label@ == "Elastic Restitution"@,
    {
        NumericConstants {
            g: NumericConstant::new(66_700_000, 0, 100_000_000, 100_000,
                "Gravitational Force Constant"),
            restitution: NumericConstant::new(800_000, 0, 1_000_000, 10_000,
                "Elastic Restitution"),
        }
    }
}

/// Display toggles chosen by the host.
pub struct Controls {
    pub show_path: bool,
}

impl Default for Controls {
    fn default() -> (r: Self)
        ensures
            !r.show_path,
    {
        Controls { show_path: false }
    }
}

/// Mouse bookkeeping for drag-to-launch gestures, in world coordinates.
#[derive(Debug)]
pub struct MouseState {
    pub click: Option<Vec2>,
    pub release: Option<Vec2>,
    pub dragging: Option<Vec2>,
    pub is_held: bool,
    pub hold_dur: i64,
}

impl Default for MouseState {
    fn default() -> (r: Self)
        ensures
            r.click is None,
            r.release is None,
            r.dragging is None,
            !r.is_held,
            r.hold_dur == 0,
    {
        MouseState { click: None, release: None, dragging: None, is_held: false, hold_dur: 0 }
    }
}

/// All shared state of one simulation run.
pub struct SimulationState {
    pub numeric_constants: NumericConstants,
    pub controls: Controls,
}

impl SimulationState {
    /// A fresh state with default tunables and controls.
    pub fn new() -> (r: Self)
        ensures
            r.numeric_constants.g.value == 66_700_000,
            r.numeric_constants.restitution.value == 800_000,
            !r.controls.show_path,
    {
        SimulationState {
            numeric_constants: NumericConstants::new(),
            controls: Default::default(),
        }
    }
}

impl Default for SimulationState {
    fn default() -> (r: Self)
        ensures
            r.numeric_constants.g.value == 66_700_000,
            r.numeric_constants.restitution.value == 800_000,
            !r.controls.show_path,
    {
        Self::new()
    }
}

} // verus!
