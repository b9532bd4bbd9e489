//! Fused multiply-add over lane batches and batch vectors.

use vstd::prelude::*;

use super::lanes::{fma_of, lane_mul_add};
use super::lanes::f32s;
use super::Vec3s;

verus! {

/// Fused Multiply Add operation.
///
/// Computes `self * m + a` in a single rounding step on every target:
/// the lane primitive goes through std's fused multiply-add, which
/// guarantees one rounding error whether or not the hardware has a
/// dedicated instruction.
pub(crate) trait Fma<M, A> {
    type Output;

    /// Computes `self * m + a` in a single rounding step.
    fn fma(&self, m: M, a: A) -> Self::Output;
}

impl Fma<f32s, f32s> for f32s {
    type Output = f32s;

    fn fma(&self, m: f32s, a: f32s) -> (r: f32s)
        ensures
            r == fma_of(*self, m, a),
    {
        lane_mul_add(*self, m, a)
    }
}

impl Fma<Vec3s, Vec3s> for f32s {
    type Output = Vec3s;

    fn fma(&self, m: Vec3s, a: Vec3s) -> (r: Vec3s)
        ensures
            r.x == fma_of(*self, m.x, a.x),
            r.y == fma_of(*self, m.y, a.y),
            r.z == fma_of(*self, m.z, a.z),
    {
        Vec3s {
            x: lane_mul_add(*self, m.x, a.x),
            y: lane_mul_add(*self, m.y, a.y),
            z: lane_mul_add(*self, m.z, a.z),
        }
    }
}

impl Fma<f32s, Vec3s> for Vec3s {
    type Output = Vec3s;

    fn fma(&self, m: f32s, a: Vec3s) -> (r: Vec3s)
        ensures
            r.x == fma_of(self.x, m, a.x),
            r.y == fma_of(self.y, m, a.y),
            r.z == fma_of(self.z, m, a.z),
    {
        Vec3s {
            x: lane_mul_add(self.x, m, a.x),
            y: lane_mul_add(self.y, m, a.y),
            z: lane_mul_add(self.z, m, a.z),
        }
    }
}

} // verus!
