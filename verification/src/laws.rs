//! General laws of the simulation core, stated over the spec-level models
//! and proved once and for all.

use vstd::prelude::*;
use vstd::arithmetic::div_mod::{lemma_div_multiples_vanish, lemma_div_of0};
use crate::fixed::{sat, tdiv, mul_fp, div_fp, is_sqrt_down, lemma_sqrt_down_unique,
    lemma_mul_fp_monotonic, FOUR_THIRDS_PI, HALF, SCALE, FP_MAX};
use crate::particle::{ParticleModel, mass_of, add_force_spec};
use crate::path::trail_add;
use crate::physics::{update_particle_spec, is_intersecting_spec, resolve_intersection_spec};
use crate::vec2::{V2, v_zero, v_in_range, v_len, v_sub};

verus! {

/// Mass is monotonic: growing the radius or the density of a valid
/// particle never shrinks its mass.
pub proof fn lemma_mass_monotonic(r1: int, d1: int, r2: int, d2: int)
    requires
        0 <= r1 <= r2,
        0 <= d1 <= d2,
    ensures
        0 <= mass_of(r1, d1) <= mass_of(r2, d2),
{
    lemma_mul_fp_monotonic(r1, r1, r2, r2);
    lemma_mul_fp_monotonic(mul_fp(r1, r1), r1, mul_fp(r2, r2), r2);
    lemma_mul_fp_monotonic(
        FOUR_THIRDS_PI as int,
        mul_fp(mul_fp(r1, r1), r1),
        FOUR_THIRDS_PI as int,
        mul_fp(mul_fp(r2, r2), r2),
    );
    lemma_mul_fp_monotonic(
        d1,
        mul_fp(FOUR_THIRDS_PI as int, mul_fp(mul_fp(r1, r1), r1)),
        d2,
        mul_fp(FOUR_THIRDS_PI as int, mul_fp(mul_fp(r2, r2), r2)),
    );
}

/// Mass is strictly positive for every particle whose radius is at least
/// one whole unit and whose density is at least one fixed-point step.
/// (Below that, truncation can round the tiny volume term to zero.)
pub proof fn lemma_mass_positive(radius: int, density: int)
    requires
        SCALE as int <= radius,
        1 <= density,
    ensures
        0 < mass_of(radius, density),
{
    assert(mass_of(SCALE as int, 1) == 4);
    lemma_mass_monotonic(SCALE as int, 1, radius, density);
}

/// Accumulating a force and then integrating over a zero time delta leaves
/// position and velocity unchanged but always clears the acceleration
/// accumulator.
pub proof fn lemma_zero_dt_freezes(p: ParticleModel, f: V2)
    requires
        v_in_range(p.pos),
        v_in_range(p.vel),
    ensures
        add_force_spec(p, f).pos == p.pos,
        add_force_spec(p, f).vel == p.vel,
        update_particle_spec(add_force_spec(p, f), 0).pos == p.pos,
        update_particle_spec(add_force_spec(p, f), 0).vel == p.vel,
        update_particle_spec(add_force_spec(p, f), 0).acc == v_zero(),
{
}

/// Scaling by plus or minus one (in fixed point) is exact on the whole
/// saturated range.
proof fn lemma_mul_fp_by_scale(v: int)
    requires
        -(FP_MAX as int) <= v <= FP_MAX as int,
    ensures
        mul_fp(SCALE as int, v) == v,
        mul_fp(-(SCALE as int), v) == -v,
{
    if v >= 0 {
        assert((SCALE as int) * v >= 0) by (nonlinear_arith)
            requires
                v >= 0,
        ;
        lemma_div_multiples_vanish(v, SCALE as int);
        assert(-((SCALE as int) * v) <= 0);
        assert(tdiv(-((SCALE as int) * v), SCALE as int) == -v);
    } else {
        assert((SCALE as int) * v < 0 && (SCALE as int) * (-v) == -((SCALE as int) * v))
            by (nonlinear_arith)
            requires
                v < 0,
        ;
        lemma_div_multiples_vanish(-v, SCALE as int);
        assert(tdiv((SCALE as int) * v, SCALE as int) == v);
        assert(tdiv(-((SCALE as int) * v), SCALE as int) == -v);
    }
}

/// Dividing a scalar by its own magnitude yields plus or minus one
/// exactly.
proof fn lemma_div_fp_self(g: int)
    requires
        0 < g <= FP_MAX as int,
    ensures
        div_fp(g, g) == SCALE as int,
        div_fp(-g, g) == -(SCALE as int),
{
    assert(g * (SCALE as int) > 0) by (nonlinear_arith)
        requires
            g > 0,
    ;
    lemma_div_multiples_vanish(SCALE as int, g);
    assert(tdiv(g * (SCALE as int), g) == SCALE as int);
    assert(-g * (SCALE as int) == -(g * (SCALE as int))) by (nonlinear_arith);
    assert(tdiv(-g * (SCALE as int), g) == -(SCALE as int));
}

/// The length of a vector on the x axis is the magnitude of its x
/// component.
proof fn lemma_v_len_axis(dx: int)
    requires
        -(FP_MAX as int) <= dx <= FP_MAX as int,
    ensures
        v_len(V2 { x: dx, y: 0 }) == (if dx >= 0 { dx } else { -dx }),
{
    let g = if dx >= 0 { dx } else { -dx };
    assert(is_sqrt_down(dx * dx + 0 * 0, g)) by (nonlinear_arith)
        requires
            g == (if dx >= 0 { dx } else { -dx }),
    ;
    lemma_sqrt_down_unique(dx * dx + 0 * 0, g);
}

/// Halving an even nonnegative penetration depth is exact in fixed point.
proof fn lemma_half_even(e: int)
    requires
        0 <= e <= 2 * (FP_MAX as int),
        e % 2 == 0,
    ensures
        mul_fp(HALF as int, e) == e / 2,
{
    let k = e / 2;
    assert(e == 2 * k);
    assert(e * (HALF as int) == (SCALE as int) * k) by (nonlinear_arith)
        requires
            e == 2 * k,
    ;
    assert((HALF as int) * e == e * (HALF as int)) by (nonlinear_arith);
    assert((SCALE as int) * k >= 0) by (nonlinear_arith)
        requires
            k >= 0,
    ;
    lemma_div_multiples_vanish(k, SCALE as int);
    assert(tdiv((HALF as int) * e, SCALE as int) == k);
}

/// Displacing one side of an overlapping pair: the moved particle keeps its
/// y coordinate and moves half the penetration depth away from the other
/// along x.
proof fn lemma_resolve_axis_one(a: ParticleModel, b: ParticleModel)
    requires
        a.pos.y == b.pos.y,
        a.pos.x != b.pos.x,
        -(FP_MAX as int) <= a.pos.y <= FP_MAX as int,
        0 <= a.radius,
        0 <= b.radius,
        a.radius + b.radius <= FP_MAX as int,
        axis_gap(a, b) < a.radius + b.radius,
        -(FP_MAX as int) + (a.radius + b.radius) <= a.pos.x,
        a.pos.x <= FP_MAX as int - (a.radius + b.radius),
        -(FP_MAX as int) + (a.radius + b.radius) <= b.pos.x,
        b.pos.x <= FP_MAX as int - (a.radius + b.radius),
        (a.radius + b.radius - axis_gap(a, b)) % 2 == 0,
    ensures
        resolve_intersection_spec(a, b) == (ParticleModel {
            pos: V2 {
                x: a.pos.x + (if a.pos.x >= b.pos.x { 1int } else { -1int })
                    * ((a.radius + b.radius - axis_gap(a, b)) / 2),
                y: a.pos.y,
            },
            ..a
        }),
{
    let dx = a.pos.x - b.pos.x;
    let gap = axis_gap(a, b);
    let rr = a.radius + b.radius;
    let e = rr - gap;
    let k = e / 2;
    let d = v_sub(a.pos, b.pos);
    assert(d == V2 { x: dx, y: 0 });
    lemma_v_len_axis(dx);
    let dist = v_len(d);
    assert(dist == gap);
    assert(sat(a.radius + b.radius) == rr);
    lemma_half_even(e);
    assert(mul_fp(HALF as int, sat(rr - dist)) == k);
    lemma_div_fp_self(gap);
    lemma_div_of0(gap);
    assert(tdiv(0, gap) == 0);
    assert(div_fp(0, gap) == 0);
    let sign: int = if dx >= 0 { 1 } else { -1 };
    assert(div_fp(dx, gap) == sign * (SCALE as int));
    lemma_mul_fp_by_scale(k);
    assert(mul_fp(sign * (SCALE as int), k) == sign * k);
    assert(mul_fp(0, k) == 0) by {
        assert(tdiv(0 * k, SCALE as int) == 0) by (nonlinear_arith);
    }
    assert(0 <= k && 2 * k < rr);
    assert(resolve_intersection_spec(a, b).pos.x == sat(a.pos.x + sign * k));
    assert(sat(a.pos.x + sign * k) == a.pos.x + sign * k);
    assert(resolve_intersection_spec(a, b).pos.y == sat(a.pos.y + 0));
}

/// The unsigned distance between two centers along the x axis.
pub open spec fn axis_gap(a: ParticleModel, b: ParticleModel) -> int {
    if a.pos.x >= b.pos.x {
        a.pos.x - b.pos.x
    } else {
        b.pos.x - a.pos.x
    }
}

/// Two overlapping particles at rest on a common axis, with an even
/// penetration depth: after each has been displaced against the other's
/// snapshot — as the step driver does within one tick — they touch exactly
/// and no longer intersect.
pub proof fn lemma_resolve_intersection_separates(a: ParticleModel, b: ParticleModel)
    requires
        a.pos.y == b.pos.y,
        a.pos.x != b.pos.x,
        -(FP_MAX as int) <= a.pos.y <= FP_MAX as int,
        0 <= a.radius,
        0 <= b.radius,
        a.radius + b.radius <= FP_MAX as int,
        axis_gap(a, b) < a.radius + b.radius,
        -(FP_MAX as int) + (a.radius + b.radius) <= a.pos.x,
        a.pos.x <= FP_MAX as int - (a.radius + b.radius),
        -(FP_MAX as int) + (a.radius + b.radius) <= b.pos.x,
        b.pos.x <= FP_MAX as int - (a.radius + b.radius),
        (a.radius + b.radius - axis_gap(a, b)) % 2 == 0,
    ensures
        !is_intersecting_spec(resolve_intersection_spec(a, b), resolve_intersection_spec(b, a)),
{
    let rr = a.radius + b.radius;
    let gap = axis_gap(a, b);
    let e = rr - gap;
    let k = e / 2;
    let sign: int = if a.pos.x >= b.pos.x { 1 } else { -1 };
    lemma_resolve_axis_one(a, b);
    lemma_resolve_axis_one(b, a);
    let a2 = resolve_intersection_spec(a, b);
    let b2 = resolve_intersection_spec(b, a);
    assert(a2.pos.x == a.pos.x + sign * k);
    assert(b2.pos.x == b.pos.x - sign * k);
    let dx2 = a2.pos.x - b2.pos.x;
    assert(dx2 == sign * rr) by (nonlinear_arith)
        requires
            dx2 == (a.pos.x - b.pos.x) + 2 * (sign * k),
            sign == (if a.pos.x >= b.pos.x { 1int } else { -1int }),
            a.pos.x - b.pos.x == sign * gap,
            e == 2 * k,
            rr == gap + e,
    ;
    let d2 = v_sub(a2.pos, b2.pos);
    assert(d2 == V2 { x: sign * rr, y: 0 });
    assert(sat(a2.radius + b2.radius) == rr);
    assert((sign * rr) * (sign * rr) == rr * rr) by (nonlinear_arith)
        requires
            sign == 1 || sign == -1,
    ;
    assert(crate::vec2::v_len_sq(d2) == sat(tdiv(rr * rr + 0 * 0, SCALE as int)));
    assert(mul_fp(rr, rr) == sat(tdiv(rr * rr, SCALE as int)));
}

/// All points of `ps` added to a trail in order, oldest insertion first.
pub open spec fn trail_add_all(s: Seq<V2>, cap: int, ps: Seq<V2>) -> Seq<V2>
    decreases ps.len(),
{
    if ps.len() == 0 {
        s
    } else {
        trail_add_all(trail_add(s, cap, ps[0]), cap, ps.skip(1))
    }
}

/// One bounded insertion keeps the trail within its capacity and grows it
/// by one until the capacity is reached.
pub proof fn lemma_trail_add_len(s: Seq<V2>, cap: int, p: V2)
    requires
        0 <= cap,
        s.len() <= cap,
    ensures
        trail_add(s, cap, p).len() == (if s.len() < cap { s.len() + 1 } else { cap as nat }),
        trail_add(s, cap, p).len() <= cap,
{
}

/// Adding any sequence of points to a bounded trail leaves the concatenation
/// of old and new points, truncated from the front to the capacity.
proof fn lemma_trail_add_all_general(s: Seq<V2>, cap: int, ps: Seq<V2>)
    requires
        0 <= cap,
        s.len() <= cap,
    ensures
        s.len() + ps.len() <= cap ==> trail_add_all(s, cap, ps) == s + ps,
        s.len() + ps.len() > cap ==> trail_add_all(s, cap, ps)
            == (s + ps).skip(s.len() + ps.len() - cap),
    decreases ps.len(),
{
    if ps.len() == 0 {
        assert(s + ps =~= s);
    } else {
        let t = trail_add(s, cap, ps[0]);
        lemma_trail_add_len(s, cap, ps[0]);
        lemma_trail_add_all_general(t, cap, ps.skip(1));
        if s.len() < cap {
            assert(t =~= s.push(ps[0]));
            assert(t + ps.skip(1) =~= s + ps);
        } else {
            assert(t =~= (s.push(ps[0])).skip(1));
            assert(t + ps.skip(1) =~= (s + ps).skip(1));
        }
    }
}

/// Adding `capacity + k` points to a trail that starts within its capacity
/// leaves exactly `capacity` points: the most recent `capacity` insertions,
/// in insertion order.
pub proof fn lemma_trail_capacity(s: Seq<V2>, cap: int, ps: Seq<V2>)
    requires
        0 <= cap,
        s.len() <= cap,
        ps.len() >= cap,
    ensures
        trail_add_all(s, cap, ps).len() == cap,
        trail_add_all(s, cap, ps) == ps.skip(ps.len() - cap),
{
    lemma_trail_add_all_general(s, cap, ps);
    if s.len() + ps.len() <= cap {
        assert(s.len() == 0 && ps.len() == cap);
        assert(s + ps =~= ps.skip(ps.len() - cap));
    } else {
        assert((s + ps).skip(s.len() + ps.len() - cap) =~= ps.skip(ps.len() - cap));
    }
}

} // verus!
