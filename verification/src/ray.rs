//! Rays: a batched origin and direction.

use vstd::prelude::*;

use crate::math::fma::Fma;
use crate::math::lanes::{fma_of, f32s};
use crate::math::Vec3s;

verus! {

/// An infinitely long ray pointing in a `direction` from a given
/// `origin`, one independent ray per lane.
pub struct Ray {
    /// The origin of the ray.
    pub origin: Vec3s,
    /// The direction the ray is travelling.
    pub dir: Vec3s,
}

impl Ray {
    /// Creates a new [`Ray`]. Directions are expected to be unit length;
    /// camera implementations are responsible for normalizing.
    pub fn new(origin: Vec3s, dir: Vec3s) -> (r: Self)
        ensures
            r == (Ray { origin, dir }),
    {
        Ray { origin, dir }
    }

    /// Gets a point distance `t` along the [`Ray`], computed as one
    /// fused multiply-add per axis: `dir * t + origin`.
    pub fn at(&self, t: f32s) -> (p: Vec3s)
        ensures
            p.x == fma_of(self.dir.x, t, self.origin.x),
            p.y == fma_of(self.dir.y, t, self.origin.y),
            p.z == fma_of(self.dir.z, t, self.origin.z),
    {
        self.dir.fma(t, self.origin)
    }
}

} // verus!
