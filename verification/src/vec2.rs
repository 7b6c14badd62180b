//! 2-D fixed-point vectors.
//!
//! [`Vec2`] is the executable vector of two fixed-point scalars; [`V2`] is its
//! spec-level image over unbounded integers. Every executable operation is
//! pinned to a spec function over `V2`, so contracts elsewhere can speak of
//! vector arithmetic directly.

use vstd::prelude::*;
use crate::fixed::{fp_add, fp_sub, fp_mul, fp_div, sat_i128, tdiv_i128};
use crate::fixed::{sat, tdiv, mul_fp, div_fp, sqrt_down, is_sqrt_down};
use crate::fixed::{lemma_sqrt_down_unique, SCALE, FP_MAX};

verus! {

/// Spec-level 2-D vector over unbounded integers.
pub ghost struct V2 {
    pub x: int,
    pub y: int,
}

/// An executable 2-D vector of fixed-point scalars.
#[derive(Clone, Copy, PartialEq, Eq, Structural, Debug)]
pub struct Vec2 {
    pub x: i64,
    pub y: i64,
}

impl View for Vec2 {
    type V = V2;

    open spec fn view(&self) -> V2 {
        V2 { x: self.x as int, y: self.y as int }
    }
}

/// The zero vector.
pub open spec fn v_zero() -> V2 {
    V2 { x: 0, y: 0 }
}

/// Both components lie in the saturated fixed-point range.
pub open spec fn v_in_range(a: V2) -> bool {
    &&& -(FP_MAX as int) <= a.x <= FP_MAX as int
    &&& -(FP_MAX as int) <= a.y <= FP_MAX as int
}

/// Componentwise saturating sum.
pub open spec fn v_add(a: V2, b: V2) -> V2 {
    V2 { x: sat(a.x + b.x), y: sat(a.y + b.y) }
}

/// Componentwise saturating difference.
pub open spec fn v_sub(a: V2, b: V2) -> V2 {
    V2 { x: sat(a.x - b.x), y: sat(a.y - b.y) }
}

/// Vector scaled by a fixed-point scalar.
pub open spec fn v_scale(a: V2, s: int) -> V2 {
    V2 { x: mul_fp(a.x, s), y: mul_fp(a.y, s) }
}

/// Vector divided by a fixed-point scalar.
pub open spec fn v_div_scalar(a: V2, s: int) -> V2
    recommends
        s != 0,
{
    V2 { x: div_fp(a.x, s), y: div_fp(a.y, s) }
}

/// Fixed-point dot product: rescaled once after summing the raw products.
pub open spec fn v_dot(a: V2, b: V2) -> int {
    sat(tdiv(a.x * b.x + a.y * b.y, SCALE as int))
}

/// Squared length as a fixed-point scalar.
pub open spec fn v_len_sq(a: V2) -> int {
    v_dot(a, a)
}

/// Length: the rounded-down square root of the raw sum of squares. The raw
/// sum carries the square of the scale, so its integer root is already a
/// fixed-point scalar.
pub open spec fn v_len(a: V2) -> int {
    sat(sqrt_down(a.x * a.x + a.y * a.y))
}

impl Vec2 {
    /// Build a vector from its fixed-point components.
    pub fn new(x: i64, y: i64) -> (r: Vec2)
        ensures
            r@ == (V2 { x: x as int, y: y as int }),
    {
        Vec2 { x, y }
    }

    /// The zero vector.
    pub fn zero() -> (r: Vec2)
        ensures
            r@ == v_zero(),
    {
        Vec2 { x: 0, y: 0 }
    }

    /// Componentwise saturating sum.
    pub fn add(self, o: Vec2) -> (r: Vec2)
        ensures
            r@ == v_add(self@, o@),
    {
        Vec2 { x: fp_add(self.x, o.x), y: fp_add(self.y, o.y) }
    }

    /// Componentwise saturating difference.
    pub fn sub(self, o: Vec2) -> (r: Vec2)
        ensures
            r@ == v_sub(self@, o@),
    {
        Vec2 { x: fp_sub(self.x, o.x), y: fp_sub(self.y, o.y) }
    }

    /// Scale by a fixed-point scalar.
    pub fn scale(self, s: i64) -> (r: Vec2)
        ensures
            r@ == v_scale(self@, s as int),
    {
        Vec2 { x: fp_mul(self.x, s), y: fp_mul(self.y, s) }
    }

    /// Divide by a nonzero fixed-point scalar.
    pub fn div_scalar(self, s: i64) -> (r: Vec2)
        requires
            s != 0,
        ensures
            r@ == v_div_scalar(self@, s as int),
    {
        Vec2 { x: fp_div(self.x, s), y: fp_div(self.y, s) }
    }

    /// Fixed-point dot product.
    pub fn dot(self, o: Vec2) -> (r: i64)
        ensures
            r as int == v_dot(self@, o@),
    {
        proof {
            assert(-0x4000_0000_0000_0000_0000_0000_0000_0000 <= (self.x as int) * (o.x as int)
                <= 0x4000_0000_0000_0000_0000_0000_0000_0000
                && -0x4000_0000_0000_0000_0000_0000_0000_0000 <= (self.y as int) * (o.y as int)
                <= 0x4000_0000_0000_0000_0000_0000_0000_0000) by (nonlinear_arith)
                requires
                    i64::MIN <= self.x <= i64::MAX,
                    i64::MIN <= o.x <= i64::MAX,
                    i64::MIN <= self.y <= i64::MAX,
                    i64::MIN <= o.y <= i64::MAX,
            ;
        }
        let px: i128 = (self.x as i128) * (o.x as i128);
        let py: i128 = (self.y as i128) * (o.y as i128);
        if self.x == i64::MIN && o.x == i64::MIN && self.y == i64::MIN && o.y == i64::MIN {
            // The raw sum is exactly 2^127, one past i128::MAX; the rescaled
            // result saturates either way.
            proof {
                assert(px == 0x4000_0000_0000_0000_0000_0000_0000_0000) by (nonlinear_arith)
                    requires
                        px == (i64::MIN as int) * (i64::MIN as int),
                ;
                assert(sat(tdiv(px as int + py as int, SCALE as int)) == FP_MAX as int);
            }
            FP_MAX
        } else {
            proof {
                assert(px + py < 0x8000_0000_0000_0000_0000_0000_0000_0000
                    && -0x8000_0000_0000_0000_0000_0000_0000_0000 < px + py) by (nonlinear_arith)
                    requires
                        px == (self.x as int) * (o.x as int),
                        py == (self.y as int) * (o.y as int),
                        i64::MIN <= self.x <= i64::MAX,
                        i64::MIN <= o.x <= i64::MAX,
                        i64::MIN <= self.y <= i64::MAX,
                        i64::MIN <= o.y <= i64::MAX,
                        !(self.x == i64::MIN && o.x == i64::MIN && self.y == i64::MIN
                            && o.y == i64::MIN),
                ;
            }
            let s: i128 = px + py;
            let q = tdiv_i128(s, 1_000_000);
            proof {
                assert(q as int == tdiv(s as int, SCALE as int));
            }
            sat_i128(q)
        }
    }

    /// Squared length as a fixed-point scalar.
    pub fn length_squared(self) -> (r: i64)
        ensures
            r as int == v_len_sq(self@),
            0 <= r,
    {
        let r = self.dot(self);
        proof {
            assert(0 <= v_dot(self@, self@)) by (nonlinear_arith)
                requires
                    v_dot(self@, self@) == sat(tdiv(
                        (self.x as int) * (self.x as int) + (self.y as int) * (self.y as int),
                        SCALE as int,
                    )),
            ;
        }
        r
    }

    /// Length, rounded down to the fixed-point grid.
    pub fn length(self) -> (r: i64)
        ensures
            r as int == v_len(self@),
            0 <= r,
    {
        let mx: u128 = if self.x < 0 {
            (-(self.x as i128)) as u128
        } else {
            self.x as u128
        };
        let my: u128 = if self.y < 0 {
            (-(self.y as i128)) as u128
        } else {
            self.y as u128
        };
        proof {
            assert(mx * mx == (self.x as int) * (self.x as int)
                && my * my == (self.y as int) * (self.y as int)
                && mx * mx + my * my <= 0x8000_0000_0000_0000_0000_0000_0000_0000)
                by (nonlinear_arith)
                requires
                    mx == (if self.x < 0 { -(self.x as int) } else { self.x as int }),
                    my == (if self.y < 0 { -(self.y as int) } else { self.y as int }),
                    i64::MIN <= self.x <= i64::MAX,
                    i64::MIN <= self.y <= i64::MAX,
            ;
        }
        let sum: u128 = mx * mx + my * my;
        let s = crate::fixed::isqrt_u128(sum);
        proof {
            lemma_sqrt_down_unique(sum as int, s as int);
        }
        if s > FP_MAX as u128 {
            FP_MAX
        } else {
            s as i64
        }
    }
}

} // verus!
