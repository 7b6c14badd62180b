//! A small 2-D n-body simulation core: particles with position, velocity and
//! an acceleration accumulator interact through pairwise Newtonian gravity and
//! elastic collision response, advanced by a semi-implicit Euler integrator.
//!
//! All physical quantities are fixed-point numbers: a signed 64-bit integer
//! counts millionths of a unit (see [`fixed::SCALE`]). Every operation is
//! specified exactly over that representation, so the whole engine is
//! deterministic and verified end to end.

pub mod driver;
pub mod error;
pub mod laws;
pub mod fixed;
pub mod math;
pub mod particle;
pub mod path;
pub mod physics;
pub mod resources;
pub mod vec2;
