//! A signed-distance-field ray-marching renderer built on lane-batched
//! vector math.
//!
//! The numeric hot path works on batches of [`LANES`] independent lanes at
//! a time: every scalar in the core is a 16-wide lane batch, every vector a
//! struct of such batches. The crate provides the batched vector kernel,
//! rays, a pinhole camera, the ray-march intersection solver, a fixed
//! antialiasing offset table, and the pixel pipeline that turns per-pixel
//! ray results into a packed byte buffer.

use vstd::prelude::*;

pub mod aa;
pub mod algo;
pub mod camera;
mod math;
mod pixels;
pub mod ray;
pub mod sphere;

pub use math::lanes::f32s;
pub use math::lanes::{abs_of, diff_of, div_of, fma_of, neg_of, prod_of, quot_of, ratio_of,
    splat_seq, sqrt_of, sum_of};
pub use math::{spec_dot, spec_mag, spec_normalized};
pub use pixels::{clamp_byte, dims_ok, lemma_batches_cover_pixels, lemma_context_deterministic, lemma_uv_numerator_bounds, spec_batches, spec_uv_batch, spec_uv_grid, spec_uv_num_x, spec_uv_num_y, spec_xnums, spec_ynums, Pixels, PixelsBuilder, Shade};
pub use math::splat::Splattable;
pub use math::{Vec2s, Vec3s};

verus! {

/// Number of lanes in one batch: every batched value in the crate holds
/// this many independent scalar lanes.
pub const LANES: usize = 16;

/// Signed Distance Field.
///
/// Used to compute the signed distance from a point in space: negative
/// inside the surface, positive outside. The core consumes this
/// capability polymorphically; no further contract is attached to the
/// distances an implementation reports.
pub trait Sdf {
    /// The signed distance from point `p`, one distance per lane.
    fn dist(&self, p: &Vec3s) -> f32s;
}

/// Allows a value to be "splatted" over the lanes of a batch.
pub trait Splat {
    type Output;

    fn splat(self) -> Self::Output;
}

impl Splat for i32 {
    type Output = f32s;

    /// Every lane holds this integer, converted exactly.
    fn splat(self) -> (r: f32s)
        ensures
            r == math::lanes::ratio_of(self, 1),
    {
        math::lanes::splat_ratio(self, 1)
    }
}

impl Splat for u32 {
    type Output = f32s;

    /// Every lane holds this integer, saturated to the signed 32-bit
    /// range before exact conversion.
    fn splat(self) -> (r: f32s)
        ensures
            self <= i32::MAX as u32 ==> r == math::lanes::ratio_of(self as i32, 1),
            self > i32::MAX as u32 ==> r == math::lanes::ratio_of(i32::MAX, 1),
    {
        let n: i32 = if self > 0x7fff_ffffu32 {
            0x7fff_ffffi32
        } else {
            self as i32
        };
        math::lanes::splat_ratio(n, 1)
    }
}

} // verus!
