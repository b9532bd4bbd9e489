//! The antialiasing offset tables.
//!
//! A closed set of supported sample counts, each mapped to a fixed list
//! of integer subpixel offsets that approximate a low-discrepancy
//! rotated-grid sampling pattern. Offsets are expressed in eighths of a
//! pixel; scaling by the image height turns them into offsets in the
//! same normalized UV space the primary rays use.

use vstd::prelude::*;

use crate::math::lanes::{ratio_of, splat_ratio};
use crate::math::Vec2s;

verus! {

/// One subpixel offset unit is this fraction of a pixel: offsets are
/// counted in eighths.
pub const OFFSET_UNIT: u32 = 8;

/// A supported antialiasing level: the number of jittered sub-pixel
/// samples averaged per pixel. The set is closed; any other count is
/// rejected at construction time by [`AliasLevel::from_count`].
#[derive(Clone, Copy, Debug, PartialEq, Eq, Structural)]
pub enum AliasLevel {
    /// A single centered sample per pixel.
    One,
    /// Two samples per pixel.
    Two,
    /// Four samples per pixel.
    Four,
    /// Eight samples per pixel.
    Eight,
    /// Sixteen samples per pixel.
    Sixteen,
}

impl AliasLevel {
    /// The number of samples this level takes per pixel.
    pub open spec fn spec_count(self) -> u32 {
        match self {
            AliasLevel::One => 1,
            AliasLevel::Two => 2,
            AliasLevel::Four => 4,
            AliasLevel::Eight => 8,
            AliasLevel::Sixteen => 16,
        }
    }

    /// The number of samples this level takes per pixel.
    pub fn count(self) -> (n: u32)
        ensures
            n == self.spec_count(),
    {
        match self {
            AliasLevel::One => 1,
            AliasLevel::Two => 2,
            AliasLevel::Four => 4,
            AliasLevel::Eight => 8,
            AliasLevel::Sixteen => 16,
        }
    }

    /// Validates a sample count: the level for `n` if `n` is one of the
    /// supported counts, and nothing otherwise — an unsupported count
    /// is never substituted or clamped.
    pub fn from_count(n: u32) -> (r: Option<AliasLevel>)
        ensures
            r is Some <==> (n == 1 || n == 2 || n == 4 || n == 8 || n == 16),
            r matches Some(l) ==> l.spec_count() == n,
    {
        match n {
            1u32 => Some(AliasLevel::One),
            2u32 => Some(AliasLevel::Two),
            4u32 => Some(AliasLevel::Four),
            8u32 => Some(AliasLevel::Eight),
            16u32 => Some(AliasLevel::Sixteen),
            _ => None,
        }
    }
}

/// The subpixel integer offsets for an aliasing level, counted in
/// eighths of a pixel. Copied from the standard multisample patterns.
pub open spec fn spec_offsets(level: AliasLevel) -> Seq<(i32, i32)> {
    match level {
        AliasLevel::One => seq![(0i32, 0i32)],
        AliasLevel::Two => seq![(4i32, 4i32), (-4i32, -4i32)],
        AliasLevel::Four => seq![(-2i32, -6i32), (6i32, -2i32), (-6i32, 2i32), (2i32, 6i32)],
        AliasLevel::Eight => seq![
            (1i32, 3i32),
            (-1i32, 3i32),
            (5i32, 1i32),
            (-3i32, -5i32),
            (-5i32, 5i32),
            (-7i32, -1i32),
            (3i32, 7i32),
            (7i32, -7i32),
        ],
        AliasLevel::Sixteen => seq![
            (1i32, 1i32),
            (-1i32, -3i32),
            (-3i32, 2i32),
            (4i32, -1i32),
            (-5i32, -2i32),
            (2i32, 5i32),
            (5i32, 3i32),
            (3i32, -5i32),
            (-2i32, 6i32),
            (0i32, -7i32),
            (-4i32, -6i32),
            (-6i32, 4i32),
            (-8i32, 0i32),
            (7i32, -4i32),
            (6i32, 7i32),
            (-7i32, -8i32),
        ],
    }
}

/// Subpixel integer offsets for the aliasing level, one pair per
/// sample.
pub fn offsets(level: AliasLevel) -> (r: Vec<(i32, i32)>)
    ensures
        r@ == spec_offsets(level),
        r@.len() == level.spec_count(),
{
    let r: Vec<(i32, i32)> = match level {
        AliasLevel::One => vec![(0i32, 0i32)],
        AliasLevel::Two => vec![(4i32, 4i32), (-4i32, -4i32)],
        AliasLevel::Four => vec![(-2i32, -6i32), (6i32, -2i32), (-6i32, 2i32), (2i32, 6i32)],
        AliasLevel::Eight => vec![
            (1i32, 3i32),
            (-1i32, 3i32),
            (5i32, 1i32),
            (-3i32, -5i32),
            (-5i32, 5i32),
            (-7i32, -1i32),
            (3i32, 7i32),
            (7i32, -7i32),
        ],
        AliasLevel::Sixteen => vec![
            (1i32, 1i32),
            (-1i32, -3i32),
            (-3i32, 2i32),
            (4i32, -1i32),
            (-5i32, -2i32),
            (2i32, 5i32),
            (5i32, 3i32),
            (3i32, -5i32),
            (-2i32, 6i32),
            (0i32, -7i32),
            (-4i32, -6i32),
            (-6i32, 4i32),
            (-8i32, 0i32),
            (7i32, -4i32),
            (6i32, 7i32),
            (-7i32, -8i32),
        ],
    };
    proof {
        assert(r@ =~= spec_offsets(level));
    }
    r
}

/// Every subpixel offset lies within eight eighths — one pixel — of
/// the pixel center, on both axes.
pub proof fn lemma_offsets_in_range(level: AliasLevel)
    ensures
        spec_offsets(level).len() == level.spec_count(),
        forall|j: int|
            0 <= j < spec_offsets(level).len() ==> -8 <= (#[trigger] spec_offsets(level)[j]).0 <= 8
                && -8 <= spec_offsets(level)[j].1 <= 8,
{
}

/// The denominator that turns integer subpixel offsets into UV-space
/// offsets: eight offset units per pixel, `height` pixels per UV unit.
pub open spec fn spec_offset_scale(height: u32) -> i32 {
    (OFFSET_UNIT * height) as i32
}

/// The UV-space offset table for an aliasing level at an image height:
/// each integer offset pair divided by eight times the height.
pub open spec fn spec_offsets_uv(level: AliasLevel, height: u32) -> Seq<Vec2s> {
    spec_offsets(level).map_values(
        |o: (i32, i32)|
            Vec2s {
                x: ratio_of(o.0, spec_offset_scale(height)),
                y: ratio_of(o.1, spec_offset_scale(height)),
            },
    )
}

/// Builds the UV-space offset table for `level` at image height
/// `height`.
pub(crate) fn offsets_uv(level: AliasLevel, height: u32) -> (r: Vec<Vec2s>)
    requires
        1 <= height <= 0x0fff_ffff,
    ensures
        r@ == spec_offsets_uv(level, height),
        r@.len() == level.spec_count(),
{
    let k: i32 = (OFFSET_UNIT * height) as i32;
    let table = offsets(level);
    let mut r: Vec<Vec2s> = Vec::new();
    let mut j: usize = 0;
    while j < table.len()
        invariant
            j <= table@.len(),
            table@ == spec_offsets(level),
            k == spec_offset_scale(height),
            k != 0,
            r@.len() == j,
            forall|i: int| 0 <= i < j ==> r@[i] == spec_offsets_uv(level, height)[i],
        decreases table@.len() - j,
    {
        let (dx, dy) = table[j];
        r.push(Vec2s { x: splat_ratio(dx, k), y: splat_ratio(dy, k) });
        j = j + 1;
    }
    proof {
        assert(r@ =~= spec_offsets_uv(level, height));
    }
    r
}

} // verus!
