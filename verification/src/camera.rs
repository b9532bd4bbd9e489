//! Cameras: mapping batched UV coordinates to batched rays.

use vstd::prelude::*;

use crate::math::lanes::{ratio_of, splat_ratio};
use crate::math::{spec_normalized, Vec2s, Vec3s};
use crate::ray::Ray;

verus! {

/// Represents a camera that can create [`Ray`]s.
pub trait Camera {
    /// Computes the ray sent out at the UV coordinate, one ray per lane.
    fn ray_at(&self, uv: Vec2s) -> Ray;
}

/// A [`PointCamera`].
///
/// The camera has an origin of `pos` and always points along the
/// negative Z axis.
pub struct PointCamera {
    pos: Vec3s,
}

impl PointCamera {
    /// The position the camera's rays originate from.
    pub closed spec fn spec_pos(&self) -> Vec3s {
        self.pos
    }

    /// Creates a camera whose rays originate at `pos`.
    pub fn new(pos: Vec3s) -> (c: Self)
        ensures
            c.spec_pos() == pos,
    {
        PointCamera { pos }
    }
}

impl Camera for PointCamera {
    /// Every ray originates at the camera's position, aimed at the
    /// normalized direction `(uv.x, uv.y, -2)`: a rectilinear
    /// projection with a fixed forward distance of two.
    fn ray_at(&self, uv: Vec2s) -> (r: Ray)
        ensures
            r.origin == self.spec_pos(),
            r.dir == spec_normalized(Vec3s { x: uv.x, y: uv.y, z: ratio_of(-2i32, 1i32) }),
    {
        let forward = splat_ratio(-2, 1);
        Ray::new(self.pos, Vec3s::new(uv.x, uv.y, forward).normalized())
    }
}

} // verus!
