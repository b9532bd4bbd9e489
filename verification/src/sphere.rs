//! A sphere scene: the concrete example of a signed distance field.

use vstd::prelude::*;

use crate::math::lanes::{diff_of, lane_sub, f32s};
use crate::math::{spec_mag, Vec3s};
use crate::Sdf;

verus! {

/// A sphere with a given `radius` centered on the origin. The radius is
/// a lane batch, so each lane may probe its own sphere size; splat one
/// value to use the same radius in every lane.
pub struct Sphere {
    radius: f32s,
}

impl Sphere {
    /// The sphere's batched radius.
    pub closed spec fn spec_radius(&self) -> f32s {
        self.radius
    }

    /// Creates a sphere of the given batched radius.
    pub fn new(radius: f32s) -> (s: Self)
        ensures
            s.spec_radius() == radius,
    {
        Sphere { radius }
    }
}

impl Sdf for Sphere {
    /// The signed distance of `p` from the sphere's surface: the
    /// magnitude of `p` minus the radius.
    fn dist(&self, p: &Vec3s) -> (d: f32s)
        ensures
            d == diff_of(spec_mag(*p), self.spec_radius()),
    {
        lane_sub(p.mag(), self.radius)
    }
}

} // verus!
