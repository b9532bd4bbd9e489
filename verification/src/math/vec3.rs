//! Elementwise arithmetic, products and reductions on three dimensional
//! lane-batch vectors.

use vstd::prelude::*;

use super::lanes::{lane_abs, lane_add, lane_div, lane_max, lane_min, lane_mul, lane_neg,
    lane_sqrt, lane_sub};
use super::lanes::{abs_of, diff_of, div_of, neg_of, prod_of, sqrt_of, sum_of};
use super::lanes::f32s;
use super::{spec_dot, spec_mag, spec_normalized, Vec3s};

verus! {

impl Vec3s {
    /// Dot product of two vectors: the x product, then one fused
    /// multiply-add per remaining axis.
    pub fn dot(&self, other: &Self) -> (r: f32s)
        ensures
            r == spec_dot(*self, *other),
    {
        let mut acc = lane_mul(self.x, other.x);
        acc = super::lanes::lane_mul_add(self.y, other.y, acc);
        acc = super::lanes::lane_mul_add(self.z, other.z, acc);
        acc
    }

    /// Cross product of two vectors.
    pub fn cross(&self, other: &Self) -> (r: Self)
        ensures
            r.x == diff_of(prod_of(self.y, other.z), prod_of(self.z, other.y)),
            r.y == diff_of(prod_of(self.z, other.x), prod_of(self.x, other.z)),
            r.z == diff_of(prod_of(self.x, other.y), prod_of(self.y, other.x)),
    {
        Vec3s {
            x: lane_sub(lane_mul(self.y, other.z), lane_mul(self.z, other.y)),
            y: lane_sub(lane_mul(self.z, other.x), lane_mul(self.x, other.z)),
            z: lane_sub(lane_mul(self.x, other.y), lane_mul(self.y, other.x)),
        }
    }

    /// Squared magnitude of the vector.
    pub fn mag_sq(&self) -> (r: f32s)
        ensures
            r == spec_dot(*self, *self),
    {
        self.dot(self)
    }

    /// Magnitude of the vector.
    pub fn mag(&self) -> (r: f32s)
        ensures
            r == spec_mag(*self),
    {
        lane_sqrt(self.mag_sq())
    }

    /// Normalise the vector by dividing it by its magnitude. A
    /// zero-length input is not special-cased: non-finite lanes
    /// propagate.
    pub fn normalize(&mut self)
        ensures
            *final(self) == spec_normalized(*old(self)),
    {
        let mag = self.mag();
        self.x = lane_div(self.x, mag);
        self.y = lane_div(self.y, mag);
        self.z = lane_div(self.z, mag);
    }

    /// Normalise and return a new vector.
    pub fn normalized(&self) -> (r: Self)
        ensures
            r == spec_normalized(*self),
    {
        let mut v = *self;
        v.normalize();
        v
    }

    /// Elementwise minimum against a scalar batch.
    pub fn min(&self, val: f32s) -> Vec3s {
        Vec3s {
            x: lane_min(self.x, val),
            y: lane_min(self.y, val),
            z: lane_min(self.z, val),
        }
    }

    /// Elementwise maximum against a scalar batch.
    pub fn max(&self, val: f32s) -> Vec3s {
        Vec3s {
            x: lane_max(self.x, val),
            y: lane_max(self.y, val),
            z: lane_max(self.z, val),
        }
    }

    /// Lanewise minimum over the three components.
    pub fn min_comp(&self) -> f32s {
        lane_min(lane_min(self.x, self.y), self.z)
    }

    /// Lanewise maximum over the three components.
    pub fn max_comp(&self) -> f32s {
        lane_max(lane_max(self.x, self.y), self.z)
    }

    /// Restrict each component in between the range of min and max.
    pub fn clamp(&mut self, min: f32s, max: f32s) {
        self.x = lane_min(lane_max(self.x, min), max);
        self.y = lane_min(lane_max(self.y, min), max);
        self.z = lane_min(lane_max(self.z, min), max);
    }

    /// Clamp and return a new vector.
    pub fn clamped(&self, min: f32s, max: f32s) -> Self {
        let mut v = *self;
        v.clamp(min, max);
        v
    }

    /// Elementwise absolute value.
    pub fn abs(self) -> (r: Self)
        ensures
            r.x == abs_of(self.x),
            r.y == abs_of(self.y),
            r.z == abs_of(self.z),
    {
        Vec3s { x: lane_abs(self.x), y: lane_abs(self.y), z: lane_abs(self.z) }
    }

    /// Elementwise square root.
    pub fn sqrt(self) -> (r: Self)
        ensures
            r.x == sqrt_of(self.x),
            r.y == sqrt_of(self.y),
            r.z == sqrt_of(self.z),
    {
        Vec3s { x: lane_sqrt(self.x), y: lane_sqrt(self.y), z: lane_sqrt(self.z) }
    }

    /// Applies `op` to each component and returns the results as a new
    /// vector.
    pub fn map<F: Fn(f32s) -> f32s>(self, op: F) -> (r: Self)
        requires
            forall|a: f32s| #[trigger] call_requires(op, (a,)),
        ensures
            call_ensures(op, (self.x,), r.x),
            call_ensures(op, (self.y,), r.y),
            call_ensures(op, (self.z,), r.z),
    {
        Vec3s { x: op(self.x), y: op(self.y), z: op(self.z) }
    }

    /// Applies `op` to each component in place.
    pub fn apply<F: Fn(f32s) -> f32s>(&mut self, op: F)
        requires
            forall|a: f32s| #[trigger] call_requires(op, (a,)),
        ensures
            call_ensures(op, (old(self).x,), final(self).x),
            call_ensures(op, (old(self).y,), final(self).y),
            call_ensures(op, (old(self).z,), final(self).z),
    {
        self.x = op(self.x);
        self.y = op(self.y);
        self.z = op(self.z);
    }

    /// Folds `f` over the components, starting from `init`.
    pub fn fold<F: Fn(f32s, f32s) -> f32s>(&self, init: f32s, f: F) -> (r: f32s)
        requires
            forall|a: f32s, b: f32s| #[trigger] call_requires(f, (a, b)),
        ensures
            exists|m1: f32s, m2: f32s|
                call_ensures(f, (init, self.x), m1) && call_ensures(f, (m1, self.y), m2)
                    && call_ensures(f, (m2, self.z), r),
    {
        let m1 = f(init, self.x);
        let m2 = f(m1, self.y);
        f(m2, self.z)
    }

    /// Combines the components pairwise with `f`, left to right.
    pub fn reduce<F: Fn(f32s, f32s) -> f32s>(&self, f: F) -> (r: f32s)
        requires
            forall|a: f32s, b: f32s| #[trigger] call_requires(f, (a, b)),
        ensures
            exists|m: f32s| call_ensures(f, (self.x, self.y), m) && call_ensures(
                f,
                (m, self.z),
                r,
            ),
    {
        let m = f(self.x, self.y);
        f(m, self.z)
    }

    /// Elementwise sum of two vectors.
    pub fn add(self, rhs: Self) -> (r: Self)
        ensures
            r.x == sum_of(self.x, rhs.x),
            r.y == sum_of(self.y, rhs.y),
            r.z == sum_of(self.z, rhs.z),
    {
        Vec3s {
            x: lane_add(self.x, rhs.x),
            y: lane_add(self.y, rhs.y),
            z: lane_add(self.z, rhs.z),
        }
    }

    /// Elementwise difference of two vectors.
    pub fn sub(self, rhs: Self) -> (r: Self)
        ensures
            r.x == diff_of(self.x, rhs.x),
            r.y == diff_of(self.y, rhs.y),
            r.z == diff_of(self.z, rhs.z),
    {
        Vec3s {
            x: lane_sub(self.x, rhs.x),
            y: lane_sub(self.y, rhs.y),
            z: lane_sub(self.z, rhs.z),
        }
    }

    /// Elementwise product of two vectors.
    pub fn mul(self, rhs: Self) -> (r: Self)
        ensures
            r.x == prod_of(self.x, rhs.x),
            r.y == prod_of(self.y, rhs.y),
            r.z == prod_of(self.z, rhs.z),
    {
        Vec3s {
            x: lane_mul(self.x, rhs.x),
            y: lane_mul(self.y, rhs.y),
            z: lane_mul(self.z, rhs.z),
        }
    }

    /// Elementwise quotient of two vectors.
    pub fn div(self, rhs: Self) -> (r: Self)
        ensures
            r.x == div_of(self.x, rhs.x),
            r.y == div_of(self.y, rhs.y),
            r.z == div_of(self.z, rhs.z),
    {
        Vec3s {
            x: lane_div(self.x, rhs.x),
            y: lane_div(self.y, rhs.y),
            z: lane_div(self.z, rhs.z),
        }
    }

    /// Adds a scalar batch to every component.
    pub fn add_scalar(self, rhs: f32s) -> (r: Self)
        ensures
            r.x == sum_of(self.x, rhs),
            r.y == sum_of(self.y, rhs),
            r.z == sum_of(self.z, rhs),
    {
        Vec3s {
            x: lane_add(self.x, rhs),
            y: lane_add(self.y, rhs),
            z: lane_add(self.z, rhs),
        }
    }

    /// Subtracts a scalar batch from every component.
    pub fn sub_scalar(self, rhs: f32s) -> (r: Self)
        ensures
            r.x == diff_of(self.x, rhs),
            r.y == diff_of(self.y, rhs),
            r.z == diff_of(self.z, rhs),
    {
        Vec3s {
            x: lane_sub(self.x, rhs),
            y: lane_sub(self.y, rhs),
            z: lane_sub(self.z, rhs),
        }
    }

    /// Scales every component by a scalar batch.
    pub fn mul_scalar(self, rhs: f32s) -> (r: Self)
        ensures
            r.x == prod_of(self.x, rhs),
            r.y == prod_of(self.y, rhs),
            r.z == prod_of(self.z, rhs),
    {
        Vec3s {
            x: lane_mul(self.x, rhs),
            y: lane_mul(self.y, rhs),
            z: lane_mul(self.z, rhs),
        }
    }

    /// Divides every component by a scalar batch.
    pub fn div_scalar(self, rhs: f32s) -> (r: Self)
        ensures
            r.x == div_of(self.x, rhs),
            r.y == div_of(self.y, rhs),
            r.z == div_of(self.z, rhs),
    {
        Vec3s {
            x: lane_div(self.x, rhs),
            y: lane_div(self.y, rhs),
            z: lane_div(self.z, rhs),
        }
    }

    /// Elementwise negation.
    pub fn neg(self) -> (r: Self)
        ensures
            r.x == neg_of(self.x),
            r.y == neg_of(self.y),
            r.z == neg_of(self.z),
    {
        Vec3s { x: lane_neg(self.x), y: lane_neg(self.y), z: lane_neg(self.z) }
    }
}

} // verus!
