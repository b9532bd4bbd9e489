//! Elementwise arithmetic on two dimensional lane-batch vectors.

use vstd::prelude::*;

use super::lanes::{lane_add, lane_div, lane_mul, lane_neg, lane_sub};
use super::lanes::{diff_of, div_of, neg_of, prod_of, sum_of};
use super::lanes::f32s;
use super::Vec2s;

verus! {

impl Vec2s {
    /// Elementwise sum of two vectors.
    pub fn add(self, rhs: Self) -> (r: Self)
        ensures
            r.x == sum_of(self.x, rhs.x),
            r.y == sum_of(self.y, rhs.y),
    {
        Vec2s { x: lane_add(self.x, rhs.x), y: lane_add(self.y, rhs.y) }
    }

    /// Elementwise difference of two vectors.
    pub fn sub(self, rhs: Self) -> (r: Self)
        ensures
            r.x == diff_of(self.x, rhs.x),
            r.y == diff_of(self.y, rhs.y),
    {
        Vec2s { x: lane_sub(self.x, rhs.x), y: lane_sub(self.y, rhs.y) }
    }

    /// Elementwise product of two vectors.
    pub fn mul(self, rhs: Self) -> (r: Self)
        ensures
            r.x == prod_of(self.x, rhs.x),
            r.y == prod_of(self.y, rhs.y),
    {
        Vec2s { x: lane_mul(self.x, rhs.x), y: lane_mul(self.y, rhs.y) }
    }

    /// Elementwise quotient of two vectors.
    pub fn div(self, rhs: Self) -> (r: Self)
        ensures
            r.x == div_of(self.x, rhs.x),
            r.y == div_of(self.y, rhs.y),
    {
        Vec2s { x: lane_div(self.x, rhs.x), y: lane_div(self.y, rhs.y) }
    }

    /// Adds a scalar batch to both components.
    pub fn add_scalar(self, rhs: f32s) -> (r: Self)
        ensures
            r.x == sum_of(self.x, rhs),
            r.y == sum_of(self.y, rhs),
    {
        Vec2s { x: lane_add(self.x, rhs), y: lane_add(self.y, rhs) }
    }

    /// Subtracts a scalar batch from both components.
    pub fn sub_scalar(self, rhs: f32s) -> (r: Self)
        ensures
            r.x == diff_of(self.x, rhs),
            r.y == diff_of(self.y, rhs),
    {
        Vec2s { x: lane_sub(self.x, rhs), y: lane_sub(self.y, rhs) }
    }

    /// Scales both components by a scalar batch.
    pub fn mul_scalar(self, rhs: f32s) -> (r: Self)
        ensures
            r.x == prod_of(self.x, rhs),
            r.y == prod_of(self.y, rhs),
    {
        Vec2s { x: lane_mul(self.x, rhs), y: lane_mul(self.y, rhs) }
    }

    /// Divides both components by a scalar batch.
    pub fn div_scalar(self, rhs: f32s) -> (r: Self)
        ensures
            r.x == div_of(self.x, rhs),
            r.y == div_of(self.y, rhs),
    {
        Vec2s { x: lane_div(self.x, rhs), y: lane_div(self.y, rhs) }
    }

    /// Elementwise negation.
    pub fn neg(self) -> (r: Self)
        ensures
            r.x == neg_of(self.x),
            r.y == neg_of(self.y),
    {
        Vec2s { x: lane_neg(self.x), y: lane_neg(self.y) }
    }
}

} // verus!
