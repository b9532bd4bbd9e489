//! Lane-batch scalar primitives.
//!
//! A lane batch is a 16-wide SIMD vector of scalars from the `wide`
//! crate. Verus treats such a batch as an opaque value: the trusted
//! wrappers below perform the elementwise operations, and everything the
//! crate proves about the surrounding algorithms holds for every value
//! those operations may produce. The one operation with a pinned result
//! is [`lane_quotient`], whose outcome is named by the uninterpreted
//! function [`quot_of`]: elementwise integer-to-float conversion and
//! division are exact IEEE operations, so the result is a function of the
//! integer arguments alone, and that is all the surrounding proofs rely
//! on.

use vstd::prelude::*;

verus! {

/// A batch of 16 scalar lanes.
#[allow(non_camel_case_types)]
pub type f32s = wide::f32x16;

#[verifier::external_type_specification]
#[verifier::external_body]
pub struct ExLaneBatch(wide::f32x16);

/// The lane batch obtained by converting each integer in `nums` to a
/// scalar lane and dividing it by the converted `den`; opaque, but a
/// function of the arguments alone.
pub uninterp spec fn quot_of(nums: Seq<i32>, den: i32) -> f32s;

/// The elementwise IEEE sum of two lane batches.
pub uninterp spec fn sum_of(a: f32s, b: f32s) -> f32s;

/// The elementwise IEEE difference of two lane batches.
pub uninterp spec fn diff_of(a: f32s, b: f32s) -> f32s;

/// The elementwise IEEE product of two lane batches.
pub uninterp spec fn prod_of(a: f32s, b: f32s) -> f32s;

/// The elementwise IEEE quotient of two lane batches.
pub uninterp spec fn div_of(a: f32s, b: f32s) -> f32s;

/// The elementwise negation of a lane batch.
pub uninterp spec fn neg_of(a: f32s) -> f32s;

/// The elementwise absolute value of a lane batch.
pub uninterp spec fn abs_of(a: f32s) -> f32s;

/// The elementwise IEEE square root of a lane batch.
pub uninterp spec fn sqrt_of(a: f32s) -> f32s;

/// The elementwise fused multiply-add `a * m + b` of three lane
/// batches, computed with a single rounding step.
pub uninterp spec fn fma_of(a: f32s, m: f32s, b: f32s) -> f32s;

/// Relies on `i32x16::new`, `i32x16::round_float` and the `f32x16`
/// division operator: integer-to-float conversion and lane division are
/// correctly rounded IEEE operations determined by their operands
/// alone, so the result depends on the arguments alone. A zero
/// denominator is excluded: a `0 / 0` lane would be a NaN whose bit
/// pattern the architecture chooses, which the name could not pin.
#[verifier::external_body]
pub(crate) fn lane_quotient(nums: &Vec<i32>, den: i32) -> (r: f32s)
    requires
        nums@.len() == 16,
        den != 0,
    ensures
        r == quot_of(nums@, den),
{
    let arr: [i32; 16] = nums.as_slice().try_into().unwrap();
    let n = wide::i32x16::new(arr).round_float();
    let d = wide::i32x16::new([den; 16]).round_float();
    n / d
}

/// Relies on the `f32x16` addition operator: elementwise IEEE
/// addition, correctly rounded and determined by its operands.
#[verifier::external_body]
pub(crate) fn lane_add(a: f32s, b: f32s) -> (r: f32s)
    ensures
        r == sum_of(a, b),
{
    a + b
}

/// Relies on the `f32x16` subtraction operator: elementwise IEEE
/// subtraction, correctly rounded and determined by its operands.
#[verifier::external_body]
pub(crate) fn lane_sub(a: f32s, b: f32s) -> (r: f32s)
    ensures
        r == diff_of(a, b),
{
    a - b
}

/// Relies on the `f32x16` multiplication operator: elementwise IEEE
/// multiplication, correctly rounded and determined by its operands.
#[verifier::external_body]
pub(crate) fn lane_mul(a: f32s, b: f32s) -> (r: f32s)
    ensures
        r == prod_of(a, b),
{
    a * b
}

/// Relies on the `f32x16` division operator: elementwise IEEE
/// division, correctly rounded and determined by its operands.
#[verifier::external_body]
pub(crate) fn lane_div(a: f32s, b: f32s) -> (r: f32s)
    ensures
        r == div_of(a, b),
{
    a / b
}

/// Relies on the `f32x16` negation operator: an elementwise sign-bit
/// flip, determined by its operand.
#[verifier::external_body]
pub(crate) fn lane_neg(a: f32s) -> (r: f32s)
    ensures
        r == neg_of(a),
{
    -a
}

/// Relies on `f32x16::sqrt`: elementwise IEEE square root, correctly
/// rounded and determined by its operand.
#[verifier::external_body]
pub(crate) fn lane_sqrt(a: f32s) -> (r: f32s)
    ensures
        r == sqrt_of(a),
{
    a.sqrt()
}

/// Relies on `f32x16::abs`: an elementwise sign-bit clear, determined
/// by its operand.
#[verifier::external_body]
pub(crate) fn lane_abs(a: f32s) -> (r: f32s)
    ensures
        r == abs_of(a),
{
    a.abs()
}

/// Relies on `f32x16::to_array`, `f32x16::new` and std's
/// `f32::mul_add`, which std documents as computing `self * a + b`
/// with only one rounding error: each lane is a true fused
/// multiply-add on every target, correctly rounded and determined by
/// its operands.
#[verifier::external_body]
pub(crate) fn lane_mul_add(a: f32s, m: f32s, b: f32s) -> (r: f32s)
    ensures
        r == fma_of(a, m, b),
{
    let (av, mv, bv) = (a.to_array(), m.to_array(), b.to_array());
    let mut out = av;
    for l in 0..out.len() {
        out[l] = av[l].mul_add(mv[l], bv[l]);
    }
    wide::f32x16::new(out)
}

/// Relies on `f32x16::min`: elementwise minimum.
#[verifier::external_body]
pub(crate) fn lane_min(a: f32s, b: f32s) -> f32s {
    a.min(b)
}

/// Relies on `f32x16::max`: elementwise maximum.
#[verifier::external_body]
pub(crate) fn lane_max(a: f32s, b: f32s) -> f32s {
    a.max(b)
}

/// Relies on `f32x16::simd_lt`: an all-bits lane mask that is set where
/// `a` is strictly below `b`.
#[verifier::external_body]
pub(crate) fn lane_lt(a: f32s, b: f32s) -> f32s {
    a.simd_lt(b)
}

/// Relies on `f32x16::to_bitmask`: bit `i` of the result is the sign bit
/// of lane `i`, so applied to a comparison mask it packs one truth bit
/// per lane.
#[verifier::external_body]
pub(crate) fn lane_bits(m: f32s) -> u32 {
    m.to_bitmask()
}

/// Relies on `f32x16::trunc_int` and `i32x16::to_array`: each lane
/// truncated towards zero to an integer, one entry per lane.
#[verifier::external_body]
pub(crate) fn lane_trunc(v: f32s) -> (r: Vec<i32>)
    ensures
        r@.len() == 16,
{
    v.trunc_int().to_array().to_vec()
}

/// The sequence that holds `n` in every lane position.
pub open spec fn splat_seq(n: i32) -> Seq<i32> {
    Seq::new(16, |i: int| n)
}

/// The batch whose every lane is the ratio `num / den`.
pub open spec fn ratio_of(num: i32, den: i32) -> f32s {
    quot_of(splat_seq(num), den)
}

/// Splats the exact rational `num / den` across all lanes.
pub(crate) fn splat_ratio(num: i32, den: i32) -> (r: f32s)
    requires
        den != 0,
    ensures
        r == ratio_of(num, den),
{
    let mut nums: Vec<i32> = Vec::new();
    let mut l: usize = 0;
    while l < 16
        invariant
            l <= 16,
            nums@.len() == l,
            forall|i: int| 0 <= i < l ==> nums@[i] == num,
        decreases 16 - l,
    {
        nums.push(num);
        l = l + 1;
    }
    proof {
        assert(nums@ =~= splat_seq(num));
    }
    lane_quotient(&nums, den)
}

} // verus!
