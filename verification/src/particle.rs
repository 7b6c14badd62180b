//! The physical entity of the simulation.
//!
//! A [`Particle`] carries position, velocity, a per-tick acceleration
//! accumulator, radius and density, plus a bounded trail of past positions.
//! Mass is never stored: it is always derived from density and radius. Every
//! method is pinned to a spec function over [`ParticleModel`], the particle's
//! spec-level image.

use vstd::prelude::*;
use crate::error::SimError;
use crate::fixed::{fp_mul, fp_div, fp_cbrt, mul_fp, div_fp, cbrt_fp, lemma_mul_fp_nonneg,
    FOUR_THIRDS_PI, SCALE};
use crate::path::trail_add;
use crate::vec2::{Vec2, V2, v_zero, v_add, v_div_scalar};

verus! {

/// Spec-level image of a particle.
pub ghost struct ParticleModel {
    pub pos: V2,
    pub vel: V2,
    pub acc: V2,
    pub radius: int,
    pub density: int,
    pub trail: Seq<V2>,
    pub trail_cap: int,
}

/// Mass derived from density and radius: `density * (4/3)*pi * radius^3`,
/// evaluated in fixed point, innermost products first.
pub open spec fn mass_of(radius: int, density: int) -> int {
    mul_fp(density, mul_fp(FOUR_THIRDS_PI as int, mul_fp(mul_fp(radius, radius), radius)))
}

/// A particle with nonnegative radius and density has nonnegative mass.
pub proof fn lemma_mass_of_nonneg(radius: int, density: int)
    requires
        0 <= radius,
        0 <= density,
    ensures
        0 <= mass_of(radius, density),
{
    lemma_mul_fp_nonneg(radius, radius);
    lemma_mul_fp_nonneg(mul_fp(radius, radius), radius);
    lemma_mul_fp_nonneg(FOUR_THIRDS_PI as int, mul_fp(mul_fp(radius, radius), radius));
    lemma_mul_fp_nonneg(
        density,
        mul_fp(FOUR_THIRDS_PI as int, mul_fp(mul_fp(radius, radius), radius)),
    );
}

/// Newton's second law applied to the accumulator: `acc += f / mass`. A
/// particle whose derived mass is zero cannot be pushed and is left as it is.
pub open spec fn add_force_spec(p: ParticleModel, f: V2) -> ParticleModel {
    let m = mass_of(p.radius, p.density);
    if m == 0 {
        p
    } else {
        ParticleModel { acc: v_add(p.acc, v_div_scalar(f, m)), ..p }
    }
}

/// Adjusting density so that the derived mass becomes `m / volume factor`;
/// skipped when the fixed-point volume factor vanishes.
pub open spec fn set_mass_with_density_spec(p: ParticleModel, m: int) -> ParticleModel {
    let vol = mul_fp(FOUR_THIRDS_PI as int, mul_fp(mul_fp(p.radius, p.radius), p.radius));
    if vol == 0 {
        p
    } else {
        ParticleModel { density: div_fp(m, vol), ..p }
    }
}

/// Adjusting radius to the cube root of `m / (density * (4/3)*pi)`; skipped
/// when the divisor vanishes or the quotient is negative, where no real
/// radius exists.
pub open spec fn set_mass_with_radius_spec(p: ParticleModel, m: int) -> ParticleModel {
    let w = mul_fp(p.density, FOUR_THIRDS_PI as int);
    if w == 0 || div_fp(m, w) < 0 {
        p
    } else {
        ParticleModel { radius: cbrt_fp(div_fp(m, w)), ..p }
    }
}

/// A circular 2-D body with derived mass and a per-tick force accumulator.
pub struct Particle {
    pos: Vec2,
    vel: Vec2,
    acc: Vec2,
    radius: i64,
    density: i64,
    points: Vec<Vec2>,
    max_points: usize,
}

impl View for Particle {
    type V = ParticleModel;

    closed spec fn view(&self) -> ParticleModel {
        ParticleModel {
            pos: self.pos@,
            vel: self.vel@,
            acc: self.acc@,
            radius: self.radius as int,
            density: self.density as int,
            trail: self.points@.map_values(|v: Vec2| v@),
            trail_cap: self.max_points as int,
        }
    }
}

/// The state a particle starts in: at rest at the origin, unit density,
/// zero radius, an empty trail bounded at 100 points.
pub open spec fn default_particle() -> ParticleModel {
    ParticleModel {
        pos: v_zero(),
        vel: v_zero(),
        acc: v_zero(),
        radius: 0,
        density: SCALE as int,
        trail: Seq::<V2>::empty(),
        trail_cap: 100,
    }
}

impl Default for Particle {
    fn default() -> (r: Self)
        ensures
            r@ == default_particle(),
    {
        let r = Particle {
            pos: Vec2::zero(),
            vel: Vec2::zero(),
            acc: Vec2::zero(),
            radius: 0,
            density: SCALE,
            points: Vec::new(),
            max_points: 100,
        };
        proof {
            assert(r@.trail =~= Seq::<V2>::empty());
        }
        r
    }
}

impl Clone for Particle {
    fn clone(&self) -> (r: Self)
        ensures
            r@ == self@,
    {
        let mut points: Vec<Vec2> = Vec::new();
        let mut i: usize = 0;
        while i < self.points.len()
            invariant
                i <= self.points.len(),
                points@.len() == i as int,
                forall|k: int| 0 <= k < i as int ==> points@[k] == self.points@[k],
            decreases self.points.len() - i,
        {
            points.push(self.points[i]);
            i = i + 1;
        }
        let r = Particle {
            pos: self.pos,
            vel: self.vel,
            acc: self.acc,
            radius: self.radius,
            density: self.density,
            points,
            max_points: self.max_points,
        };
        proof {
            assert(r@.trail =~= self@.trail);
        }
        r
    }
}

impl Particle {
    /// Set the position.
    pub fn set_pos(&mut self, pos: Vec2)
        ensures
            final(self)@ == (ParticleModel { pos: pos@, ..old(self)@ }),
    {
        self.pos = pos;
    }

    /// Set the velocity.
    pub fn set_vel(&mut self, vel: Vec2)
        ensures
            final(self)@ == (ParticleModel { vel: vel@, ..old(self)@ }),
    {
        self.vel = vel;
    }

    /// Set the acceleration accumulator.
    pub fn set_acc(&mut self, acc: Vec2)
        ensures
            final(self)@ == (ParticleModel { acc: acc@, ..old(self)@ }),
    {
        self.acc = acc;
    }

    /// Set the radius; a negative radius is rejected and the previous value
    /// retained.
    pub fn set_radius(&mut self, rad: i64) -> (res: Result<(), SimError>)
        ensures
            rad < 0 ==> res == Err::<(), SimError>(SimError::InvalidParameter)
                && final(self)@ == old(self)@,
            rad >= 0 ==> res == Ok::<(), SimError>(())
                && final(self)@ == (ParticleModel { radius: rad as int, ..old(self)@ }),
    {
        if rad < 0 {
            return Err(SimError::InvalidParameter);
        }
        self.radius = rad;
        Ok(())
    }

    /// Set the density; a negative density is rejected and the previous
    /// value retained.
    pub fn set_density(&mut self, den: i64) -> (res: Result<(), SimError>)
        ensures
            den < 0 ==> res == Err::<(), SimError>(SimError::InvalidParameter)
                && final(self)@ == old(self)@,
            den >= 0 ==> res == Ok::<(), SimError>(())
                && final(self)@ == (ParticleModel { density: den as int, ..old(self)@ }),
    {
        if den < 0 {
            return Err(SimError::InvalidParameter);
        }
        self.density = den;
        Ok(())
    }

    /// The mass derived from density and radius; no side effect.
    pub fn mass(&self) -> (m: i64)
        ensures
            m as int == mass_of(self@.radius, self@.density),
    {
        fp_mul(
            self.density,
            fp_mul(FOUR_THIRDS_PI, fp_mul(fp_mul(self.radius, self.radius), self.radius)),
        )
    }

    /// Set the mass by altering the density.
    pub fn set_mass_with_density(&mut self, mass: i64)
        ensures
            final(self)@ == set_mass_with_density_spec(old(self)@, mass as int),
    {
        let vol = fp_mul(
            FOUR_THIRDS_PI,
            fp_mul(fp_mul(self.radius, self.radius), self.radius),
        );
        if vol != 0 {
            self.density = fp_div(mass, vol);
        }
    }

    /// Set the mass by altering the radius.
    pub fn set_mass_with_radius(&mut self, mass: i64)
        ensures
            final(self)@ == set_mass_with_radius_spec(old(self)@, mass as int),
    {
        let w = fp_mul(self.density, FOUR_THIRDS_PI);
        if w != 0 {
            let t = fp_div(mass, w);
            if t >= 0 {
                self.radius = fp_cbrt(t);
            }
        }
    }

    /// Record the current position in the particle's own trail.
    pub fn add_point(&mut self, p: Vec2)
        ensures
            final(self)@ == (ParticleModel {
                trail: trail_add(old(self)@.trail, old(self)@.trail_cap, p@),
                ..old(self)@
            }),
    {
        self.points.push(p);
        proof {
            assert(self.points@.map_values(|v: Vec2| v@) =~= old(self)@.trail.push(p@));
        }
        if self.points.len() > self.max_points {
            let ghost full = self.points@.map_values(|v: Vec2| v@);
            self.points.remove(0);
            proof {
                assert(self.points@.map_values(|v: Vec2| v@)
                    =~= full.subrange(1, full.len() as int));
            }
        }
    }

    /// The position.
    pub fn position(&self) -> (r: Vec2)
        ensures
            r@ == self@.pos,
    {
        self.pos
    }

    /// The velocity.
    pub fn velocity(&self) -> (r: Vec2)
        ensures
            r@ == self@.vel,
    {
        self.vel
    }

    /// The acceleration accumulator.
    pub fn acceleration(&self) -> (r: Vec2)
        ensures
            r@ == self@.acc,
    {
        self.acc
    }

    /// The radius.
    pub fn radius(&self) -> (r: i64)
        ensures
            r as int == self@.radius,
    {
        self.radius
    }

    /// The trail recorded so far, oldest first.
    pub fn points(&self) -> (r: &Vec<Vec2>)
        ensures
            r@.map_values(|v: Vec2| v@) == self@.trail,
    {
        &self.points
    }

    /// Add a force through Newton's second law: `acc += f / mass`.
    pub fn add_force(&mut self, f: Vec2)
        ensures
            final(self)@ == add_force_spec(old(self)@, f@),
    {
        let m = self.mass();
        if m != 0 {
            self.acc = self.acc.add(f.div_scalar(m));
        }
    }
}

} // verus!
