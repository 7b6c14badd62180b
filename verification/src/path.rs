//! Bounded trail of recent positions.
//!
//! A [`Path`] is a FIFO ring of at most `capacity` points: appending to a full
//! trail evicts the oldest point. The spec function [`trail_add`] captures one
//! insertion exactly and is shared with the per-particle trail.

use vstd::prelude::*;
use crate::particle::{Particle, ParticleModel};
use crate::vec2::{Vec2, V2};

verus! {

/// Spec-level image of a trail: its points, oldest first, and its capacity.
pub ghost struct PathModel {
    pub points: Seq<V2>,
    pub cap: int,
}

/// One insertion into a bounded trail: append, then evict the oldest point
/// if the bound is now exceeded.
pub open spec fn trail_add(s: Seq<V2>, cap: int, p: V2) -> Seq<V2> {
    let t = s.push(p);
    if t.len() > cap {
        t.subrange(1, t.len() as int)
    } else {
        t
    }
}

/// A bounded ring of recent positions, used for drawing trails.
pub struct Path {
    points: Vec<Vec2>,
    max_size: usize,
}

impl View for Path {
    type V = PathModel;

    closed spec fn view(&self) -> PathModel {
        PathModel {
            points: self.points@.map_values(|v: Vec2| v@),
            cap: self.max_size as int,
        }
    }
}

impl Path {
    /// An empty trail with the given capacity.
    pub fn new(max_size: usize) -> (r: Path)
        ensures
            r@.points == Seq::<V2>::empty(),
            r@.cap == max_size as int,
    {
        let r = Path { points: Vec::new(), max_size };
        proof {
            assert(r@.points =~= Seq::<V2>::empty());
        }
        r
    }

    /// Append a point, evicting the oldest if the trail is full.
    pub fn add_point(&mut self, p: Vec2)
        ensures
            final(self)@.points == trail_add(old(self)@.points, old(self)@.cap, p@),
            final(self)@.cap == old(self)@.cap,
    {
        self.points.push(p);
        proof {
            assert(self.points@.map_values(|v: Vec2| v@)
                =~= old(self)@.points.push(p@));
        }
        if self.points.len() > self.max_size {
            let ghost full = self.points@.map_values(|v: Vec2| v@);
            self.points.remove(0);
            proof {
                assert(self.points@.map_values(|v: Vec2| v@)
                    =~= full.subrange(1, full.len() as int));
            }
        }
    }

    /// Number of points currently held.
    pub fn size(&self) -> (r: usize)
        ensures
            r as int == self@.points.len(),
    {
        self.points.len()
    }

    /// The fixed capacity.
    pub fn capacity(&self) -> (r: usize)
        ensures
            r as int == self@.cap,
    {
        self.max_size
    }

    /// Drop every point; a no-op when already empty.
    pub fn reset(&mut self)
        ensures
            final(self)@.points == Seq::<V2>::empty(),
            final(self)@.cap == old(self)@.cap,
    {
        self.points.clear();
        proof {
            assert(self@.points =~= Seq::<V2>::empty());
        }
    }

    /// The points as mesh vertices: x, y and a zero z component.
    pub fn to_vertices(&self) -> (r: Vec<(i64, i64, i64)>)
        ensures
            r@.len() == self@.points.len(),
            forall|i: int| 0 <= i < r@.len()
                ==> r@[i].0 == self@.points[i].x && r@[i].1 == self@.points[i].y
                    && r@[i].2 == 0,
    {
        let mut r: Vec<(i64, i64, i64)> = Vec::new();
        let mut i: usize = 0;
        while i < self.points.len()
            invariant
                i <= self.points.len(),
                r@.len() == i as int,
                forall|k: int| 0 <= k < i as int
                    ==> r@[k].0 == self@.points[k].x && r@[k].1 == self@.points[k].y
                        && r@[k].2 == 0,
            decreases self.points.len() - i,
        {
            let p = self.points[i];
            r.push((p.x, p.y, 0));
            i = i + 1;
        }
        r
    }

    /// Line-strip indices: each adjacent pair of points becomes one segment.
    pub fn to_indices(&self) -> (r: Vec<u32>)
        requires
            self@.points.len() < 0x1_0000_0000,
        ensures
            self@.points.len() == 0 ==> r@.len() == 0,
            self@.points.len() > 0 ==> r@.len() == 2 * (self@.points.len() - 1),
            forall|j: int| 0 <= j < r@.len()
                ==> #[trigger] r@[j] == (if j % 2 == 0 { j / 2 } else { j / 2 + 1 }) as u32,
    {
        let mut indices: Vec<u32> = Vec::new();
        let n = self.points.len();
        let mut i: usize = 0;
        while i < n
            invariant
                i <= n,
                n == self@.points.len(),
                n < 0x1_0000_0000,
                i == 0 ==> indices@.len() == 0,
                i > 0 ==> indices@.len() == 2 * (i as int - 1),
                forall|j: int| 0 <= j < indices@.len()
                    ==> #[trigger] indices@[j] == (if j % 2 == 0 { j / 2 } else { j / 2 + 1 }) as u32,
            decreases n - i,
        {
            if i > 0 {
                let prev = i - 1;
                indices.push(prev as u32);
                indices.push(i as u32);
            }
            i = i + 1;
        }
        indices
    }
}

/// One tick of a particle's trail: record the current position while
/// tracing is on, clear the trail while it is off.
pub open spec fn trail_step(pm: PathModel, p: ParticleModel, show_path: bool) -> PathModel {
    if show_path {
        PathModel { points: trail_add(pm.points, pm.cap, p.pos), cap: pm.cap }
    } else {
        PathModel { points: Seq::<V2>::empty(), cap: pm.cap }
    }
}

/// Advance every particle's trail by one tick: append the particle's
/// position while tracing is enabled, otherwise clear the trail.
pub fn update(paths: &mut Vec<Path>, particles: &Vec<Particle>, show_path: bool)
    requires
        old(paths)@.len() == particles@.len(),
    ensures
        final(paths)@.len() == old(paths)@.len(),
        forall|k: int| 0 <= k < old(paths)@.len()
            ==> #[trigger] final(paths)@[k]@ == trail_step(old(paths)@[k]@, particles@[k]@,
                show_path),
{
    let n = paths.len();
    let mut i: usize = 0;
    while i < n
        invariant
            i <= n,
            n == particles@.len(),
            paths@.len() == n,
            forall|k: int| 0 <= k < i as int
                ==> #[trigger] paths@[k]@ == trail_step(old(paths)@[k]@, particles@[k]@,
                    show_path),
            forall|k: int| i as int <= k < n ==> #[trigger] paths@[k] == old(paths)@[k],
        decreases n - i,
    {
        if show_path {
            let pos = particles[i].position();
            let pr = &mut paths[i];
            pr.add_point(pos);
        } else {
            let pr = &mut paths[i];
            pr.reset();
        }
        i = i + 1;
    }
}

} // verus!
