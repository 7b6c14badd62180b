//! Saturating fixed-point scalar arithmetic.
//!
//! A scalar is an `i64` counting millionths: the value `v` stands for the
//! real number `v / SCALE`. Multiplication and division rescale their result
//! and truncate toward zero, as the corresponding machine division does, and
//! every operation saturates to the symmetric range `[-FP_MAX, FP_MAX]`, so
//! all operations are total and the spec-level model below describes each of
//! them exactly.

use vstd::prelude::*;
use vstd::arithmetic::div_mod::{lemma_div_nonincreasing, lemma_div_pos_is_pos,
    lemma_div_is_ordered};

verus! {

/// Number of fixed-point units in 1.0.
pub const SCALE: i64 = 1_000_000;

/// Fixed-point representation of 0.5.
pub const HALF: i64 = 500_000;

/// Fixed-point representation of (4/3)*pi, truncated.
pub const FOUR_THIRDS_PI: i64 = 4_188_790;

/// Largest magnitude a fixed-point scalar may take; results saturate here.
pub const FP_MAX: i64 = 0x7fff_ffff_ffff_ffff;

/// Saturate an unbounded integer to the symmetric fixed-point range.
pub open spec fn sat(x: int) -> int {
    if x > FP_MAX as int {
        FP_MAX as int
    } else if x < -(FP_MAX as int) {
        -(FP_MAX as int)
    } else {
        x
    }
}

/// Quotient truncated toward zero, the rounding of machine division.
pub open spec fn tdiv(n: int, d: int) -> int
    recommends
        d != 0,
{
    let na = if n < 0 { -n } else { n };
    let da = if d < 0 { -d } else { d };
    let q = na / da;
    if (n < 0) != (d < 0) {
        -q
    } else {
        q
    }
}

/// Fixed-point product: rescaled, truncated toward zero, saturated.
pub open spec fn mul_fp(a: int, b: int) -> int {
    sat(tdiv(a * b, SCALE as int))
}

/// Fixed-point quotient: rescaled, truncated toward zero, saturated.
pub open spec fn div_fp(a: int, b: int) -> int
    recommends
        b != 0,
{
    sat(tdiv(a * (SCALE as int), b))
}

/// `r` is the integer square root of `n`, rounded down.
pub open spec fn is_sqrt_down(n: int, r: int) -> bool {
    0 <= r && r * r <= n && n < (r + 1) * (r + 1)
}

/// The integer square root of `n`, rounded down.
pub open spec fn sqrt_down(n: int) -> int {
    choose|r: int| is_sqrt_down(n, r)
}

/// Square root of a nonnegative fixed-point scalar, in fixed point:
/// `sqrt(v/SCALE)` scaled back up is the integer root of `v * SCALE`.
pub open spec fn sqrt_fp(a: int) -> int
    recommends
        0 <= a,
{
    sqrt_down(a * (SCALE as int))
}

/// Every nonnegative integer has a rounded-down square root.
pub proof fn lemma_sqrt_down_exists(n: int)
    requires
        0 <= n,
    ensures
        is_sqrt_down(n, sqrt_down(n)),
    decreases n,
{
    if n == 0 {
        assert(is_sqrt_down(0, 0));
    } else {
        lemma_sqrt_down_exists(n - 1);
        let r = sqrt_down(n - 1);
        if n < (r + 1) * (r + 1) {
            assert(is_sqrt_down(n, r));
        } else {
            assert(is_sqrt_down(n, r + 1)) by (nonlinear_arith)
                requires
                    is_sqrt_down(n - 1, r),
                    n >= (r + 1) * (r + 1),
            ;
        }
        assert(exists|r2: int| is_sqrt_down(n, r2));
    }
}

/// The rounded-down square root is unique.
pub proof fn lemma_sqrt_down_unique(n: int, r: int)
    requires
        is_sqrt_down(n, r),
    ensures
        r == sqrt_down(n),
{
    assert(exists|r2: int| is_sqrt_down(n, r2));
    let s = sqrt_down(n);
    assert(is_sqrt_down(n, s));
    assert(r == s) by (nonlinear_arith)
        requires
            0 <= r,
            r * r <= n,
            n < (r + 1) * (r + 1),
            0 <= s,
            s * s <= n,
            n < (s + 1) * (s + 1),
    ;
}

/// A product of nonnegative scalars stays nonnegative through rescaling
/// and saturation.
pub proof fn lemma_mul_fp_nonneg(a: int, b: int)
    requires
        0 <= a,
        0 <= b,
    ensures
        0 <= mul_fp(a, b),
{
    assert(0 <= a * b) by (nonlinear_arith)
        requires
            0 <= a,
            0 <= b,
    ;
    lemma_div_pos_is_pos(a * b, SCALE as int);
}

/// A quotient of a nonnegative scalar by a positive one stays nonnegative.
pub proof fn lemma_div_fp_nonneg(a: int, b: int)
    requires
        0 <= a,
        0 < b,
    ensures
        0 <= div_fp(a, b),
{
    assert(a * (SCALE as int) == a * 1_000_000);
    lemma_div_pos_is_pos(a * (SCALE as int), b);
}

/// Over nonnegative scalars the fixed-point product grows with either
/// factor: truncation and saturation both preserve order.
pub proof fn lemma_mul_fp_monotonic(a1: int, b1: int, a2: int, b2: int)
    requires
        0 <= a1 <= a2,
        0 <= b1 <= b2,
    ensures
        0 <= mul_fp(a1, b1) <= mul_fp(a2, b2),
{
    assert(0 <= a1 * b1 && a1 * b1 <= a2 * b2) by (nonlinear_arith)
        requires
            0 <= a1 <= a2,
            0 <= b1 <= b2,
    ;
    lemma_div_pos_is_pos(a1 * b1, SCALE as int);
    lemma_div_is_ordered(a1 * b1, a2 * b2, SCALE as int);
}

/// `r` is the integer cube root of `n`, rounded down.
pub open spec fn is_cbrt_down(n: int, r: int) -> bool {
    0 <= r && r * r * r <= n && n < (r + 1) * (r + 1) * (r + 1)
}

/// The integer cube root of `n`, rounded down.
pub open spec fn cbrt_down(n: int) -> int {
    choose|r: int| is_cbrt_down(n, r)
}

/// Cube root of a nonnegative fixed-point scalar, in fixed point: the scale
/// has to be squared before the root so that the result carries it once.
pub open spec fn cbrt_fp(a: int) -> int
    recommends
        0 <= a,
{
    cbrt_down(a * (SCALE as int) * (SCALE as int))
}

/// Every nonnegative integer has a rounded-down cube root.
pub proof fn lemma_cbrt_down_exists(n: int)
    requires
        0 <= n,
    ensures
        is_cbrt_down(n, cbrt_down(n)),
    decreases n,
{
    if n == 0 {
        assert(is_cbrt_down(0, 0));
    } else {
        lemma_cbrt_down_exists(n - 1);
        let r = cbrt_down(n - 1);
        if n < (r + 1) * (r + 1) * (r + 1) {
            assert(is_cbrt_down(n, r));
        } else {
            assert(is_cbrt_down(n, r + 1)) by (nonlinear_arith)
                requires
                    is_cbrt_down(n - 1, r),
                    n >= (r + 1) * (r + 1) * (r + 1),
            ;
        }
        assert(exists|r2: int| is_cbrt_down(n, r2));
    }
}

/// The rounded-down cube root is unique.
pub proof fn lemma_cbrt_down_unique(n: int, r: int)
    requires
        is_cbrt_down(n, r),
    ensures
        r == cbrt_down(n),
{
    assert(exists|r2: int| is_cbrt_down(n, r2));
    let s = cbrt_down(n);
    assert(is_cbrt_down(n, s));
    assert(r == s) by (nonlinear_arith)
        requires
            0 <= r,
            r * r * r <= n,
            n < (r + 1) * (r + 1) * (r + 1),
            0 <= s,
            s * s * s <= n,
            n < (s + 1) * (s + 1) * (s + 1),
    ;
}

/// Saturate a wide intermediate back to a fixed-point scalar.
pub(crate) fn sat_i128(x: i128) -> (r: i64)
    ensures
        r as int == sat(x as int),
{
    if x > FP_MAX as i128 {
        FP_MAX
    } else if x < -(FP_MAX as i128) {
        -FP_MAX
    } else {
        x as i64
    }
}

/// Machine division on wide intermediates: truncated toward zero.
pub(crate) fn tdiv_i128(n: i128, d: i128) -> (q: i128)
    requires
        d != 0,
        i128::MIN < n,
        i128::MIN < d,
    ensures
        q as int == tdiv(n as int, d as int),
{
    let nn: u128 = if n < 0 { (-n) as u128 } else { n as u128 };
    let dd: u128 = if d < 0 { (-d) as u128 } else { d as u128 };
    let qq: u128 = nn / dd;
    proof {
        lemma_div_nonincreasing(nn as int, dd as int);
    }
    if (n < 0) != (d < 0) {
        -(qq as i128)
    } else {
        qq as i128
    }
}

/// Saturating fixed-point addition.
pub fn fp_add(a: i64, b: i64) -> (r: i64)
    ensures
        r as int == sat(a + b),
{
    sat_i128(a as i128 + b as i128)
}

/// Saturating fixed-point subtraction.
pub fn fp_sub(a: i64, b: i64) -> (r: i64)
    ensures
        r as int == sat(a - b),
{
    sat_i128(a as i128 - b as i128)
}

/// Fixed-point multiplication.
pub fn fp_mul(a: i64, b: i64) -> (r: i64)
    ensures
        r as int == mul_fp(a as int, b as int),
{
    proof {
        assert(-0x4000_0000_0000_0000_0000_0000_0000_0000 <= (a as int) * (b as int)
            <= 0x4000_0000_0000_0000_0000_0000_0000_0000) by (nonlinear_arith)
            requires
                i64::MIN <= a <= i64::MAX,
                i64::MIN <= b <= i64::MAX,
        ;
    }
    let p: i128 = (a as i128) * (b as i128);
    let q = tdiv_i128(p, SCALE as i128);
    sat_i128(q)
}

/// Fixed-point division.
pub fn fp_div(a: i64, b: i64) -> (r: i64)
    requires
        b != 0,
    ensures
        r as int == div_fp(a as int, b as int),
{
    let p: i128 = (a as i128) * 1_000_000;
    proof {
        assert(p as int == (a as int) * (SCALE as int));
    }
    let q = tdiv_i128(p, b as i128);
    sat_i128(q)
}

/// Integer square root by bisection.
pub(crate) fn isqrt_u128(x: u128) -> (r: u128)
    ensures
        is_sqrt_down(x as int, r as int),
        r < 0x1_0000_0000_0000_0000,
{
    let mut lo: u128 = 0;
    let mut hi: u128 = 0x1_0000_0000_0000_0000;
    while hi - lo > 1
        invariant
            lo < hi <= 0x1_0000_0000_0000_0000,
            (lo as int) * (lo as int) <= x as int,
            (x as int) < (hi as int) * (hi as int),
        decreases hi - lo,
    {
        let mid = lo + (hi - lo) / 2;
        proof {
            assert((mid as int) * (mid as int) < 0x1_0000_0000_0000_0000_0000_0000_0000_0000)
                by (nonlinear_arith)
                requires
                    mid < 0x1_0000_0000_0000_0000,
            ;
        }
        if mid * mid <= x {
            lo = mid;
        } else {
            hi = mid;
        }
    }
    lo
}

/// Integer cube root by bisection, for intermediates below 2^105.
fn icbrt_u128(x: u128) -> (r: u128)
    requires
        x < 0x200_0000_0000_0000_0000_0000_0000,
    ensures
        is_cbrt_down(x as int, r as int),
        r < 0x8_0000_0000,
{
    let mut lo: u128 = 0;
    let mut hi: u128 = 0x8_0000_0000;
    proof {
        assert((0x8_0000_0000 as int) * (0x8_0000_0000 as int) * (0x8_0000_0000 as int)
            == 0x200_0000_0000_0000_0000_0000_0000);
    }
    while hi - lo > 1
        invariant
            lo < hi <= 0x8_0000_0000,
            (lo as int) * (lo as int) * (lo as int) <= x as int,
            (x as int) < (hi as int) * (hi as int) * (hi as int),
        decreases hi - lo,
    {
        let mid = lo + (hi - lo) / 2;
        proof {
            assert((mid as int) * (mid as int) <= 0x40_0000_0000_0000_0000
                && (mid as int) * (mid as int) * (mid as int)
                    <= 0x200_0000_0000_0000_0000_0000_0000) by (nonlinear_arith)
                requires
                    mid <= 0x8_0000_0000,
            ;
        }
        if mid * mid * mid <= x {
            lo = mid;
        } else {
            hi = mid;
        }
    }
    lo
}

/// Fixed-point cube root of a nonnegative scalar.
pub fn fp_cbrt(a: i64) -> (r: i64)
    requires
        0 <= a,
    ensures
        r as int == cbrt_fp(a as int),
        0 <= r,
{
    let x: u128 = (a as u128) * 1_000_000 * 1_000_000;
    proof {
        assert(x as int == (a as int) * (SCALE as int) * (SCALE as int));
        assert(x < 0x200_0000_0000_0000_0000_0000_0000);
    }
    let s = icbrt_u128(x);
    proof {
        lemma_cbrt_down_unique(x as int, s as int);
    }
    s as i64
}

/// Fixed-point square root of a nonnegative scalar.
pub fn fp_sqrt(a: i64) -> (r: i64)
    requires
        0 <= a,
    ensures
        r as int == sqrt_fp(a as int),
        0 <= r,
{
    let x: u128 = (a as u128) * 1_000_000;
    proof {
        assert(x as int == (a as int) * (SCALE as int));
    }
    let s = isqrt_u128(x);
    proof {
        assert(s < 0x1_0000_0000_0000 && s as int <= FP_MAX as int) by (nonlinear_arith)
            requires
                is_sqrt_down(x as int, s as int),
                x as int <= 9_223_372_036_854_775_807_000_000,
        ;
        lemma_sqrt_down_unique(x as int, s as int);
    }
    s as i64
}

} // verus!
