//! The batched vector kernel: fixed-width lane batches and 2D/3D vectors
//! built from them.

use vstd::prelude::*;

pub mod lanes;
pub(crate) mod fma;
pub mod splat;
mod vec2;
mod vec3;

use lanes::f32s;
use lanes::{div_of, fma_of, prod_of, sqrt_of};

verus! {

/// A two dimensional vector with [`f32s`] components.
#[derive(Clone, Copy)]
pub struct Vec2s {
    /// The `x` component of the vector.
    pub x: f32s,
    /// The `y` component of the vector.
    pub y: f32s,
}

/// A three dimensional vector with [`f32s`] components.
#[derive(Clone, Copy)]
pub struct Vec3s {
    /// The `x` component of the vector.
    pub x: f32s,
    /// The `y` component of the vector.
    pub y: f32s,
    /// The `z` component of the vector.
    pub z: f32s,
}

impl Vec2s {
    /// Creates a new [`Vec2s`].
    pub fn new(x: f32s, y: f32s) -> (v: Self)
        ensures
            v == (Vec2s { x, y }),
    {
        Vec2s { x, y }
    }

    /// Splats a single lane batch across both components.
    pub fn splat(val: f32s) -> (v: Self)
        ensures
            v == (Vec2s { x: val, y: val }),
    {
        Vec2s { x: val, y: val }
    }
}

/// The dot product of two batch vectors, as the kernel computes it:
/// the x product, then one fused multiply-add per remaining axis.
pub open spec fn spec_dot(a: Vec3s, b: Vec3s) -> f32s {
    fma_of(a.z, b.z, fma_of(a.y, b.y, prod_of(a.x, b.x)))
}

/// The magnitude of a batch vector: the square root of its dot
/// product with itself.
pub open spec fn spec_mag(a: Vec3s) -> f32s {
    sqrt_of(spec_dot(a, a))
}

/// A batch vector divided by its own magnitude, component by
/// component.
pub open spec fn spec_normalized(a: Vec3s) -> Vec3s {
    Vec3s {
        x: div_of(a.x, spec_mag(a)),
        y: div_of(a.y, spec_mag(a)),
        z: div_of(a.z, spec_mag(a)),
    }
}

impl Vec3s {
    /// Creates a new [`Vec3s`].
    pub fn new(x: f32s, y: f32s, z: f32s) -> (v: Self)
        ensures
            v == (Vec3s { x, y, z }),
    {
        Vec3s { x, y, z }
    }

    /// Splats a single lane batch across all 3 components.
    pub fn splat(val: f32s) -> (v: Self)
        ensures
            v == (Vec3s { x: val, y: val, z: val }),
    {
        Vec3s { x: val, y: val, z: val }
    }
}

} // verus!
