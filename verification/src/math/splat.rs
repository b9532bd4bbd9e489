//! Splatting a scalar value across the lanes of a batch.

use vstd::prelude::*;

use super::lanes::{ratio_of, splat_ratio};
use super::lanes::f32s;

verus! {

/// A type that can be splatted into a lane batch.
pub trait Splattable {
    type Output;

    /// When the value can be splatted.
    spec fn splat_req(self) -> bool;

    fn splat(self) -> Self::Output
        requires
            self.splat_req(),
    ;
}

impl Splattable for (i32, i32) {
    type Output = f32s;

    /// A ratio can be splatted whenever its denominator is not zero.
    open spec fn splat_req(self) -> bool {
        self.1 != 0
    }

    /// Every lane holds the ratio of the pair's first element over its
    /// second: the kernel's way of spelling a scalar constant exactly.
    fn splat(self) -> (r: f32s)
        ensures
            r == ratio_of(self.0, self.1),
    {
        splat_ratio(self.0, self.1)
    }
}

} // verus!
