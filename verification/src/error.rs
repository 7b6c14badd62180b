//! Errors surfaced at the simulation's API boundary.

use vstd::prelude::*;

verus! {

/// What can go wrong when driving the simulation core.
#[derive(Clone, Copy, PartialEq, Eq, Structural, Debug)]
pub enum SimError {
    /// A radius or density was set to a negative value; the previous value
    /// is retained.
    InvalidParameter,
    /// Two particle centers coincide, so no interaction axis exists; the
    /// pair is skipped for the tick.
    DegenerateGeometry,
}

} // verus!
