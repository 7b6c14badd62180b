//! Small numeric utilities.

use vstd::prelude::*;
use crate::fixed::{fp_add, fp_sub, fp_mul, fp_div, sat, mul_fp, div_fp};

verus! {

/// A value mapped linearly from the range `[min, max]` to the range
/// `[map_min, map_max]`, in fixed point.
pub open spec fn normalize_spec(value: int, min: int, max: int, map_min: int, map_max: int) -> int
    recommends
        max != min,
{
    let normalized = div_fp(sat(value - min), sat(max - min));
    sat(map_min + mul_fp(normalized, sat(map_max - map_min)))
}

/// Normalize a value from one range to another.
pub fn normalize(value: i64, min: i64, max: i64, map_min: i64, map_max: i64) -> (r: i64)
    requires
        max != min,
    ensures
        r as int == normalize_spec(value as int, min as int, max as int, map_min as int,
            map_max as int),
{
    let span = fp_sub(max, min);
    let normalized = fp_div(fp_sub(value, min), span);
    fp_add(map_min, fp_mul(normalized, fp_sub(map_max, map_min)))
}

} // verus!
