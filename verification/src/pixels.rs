//! The pixel pipeline: the render context that turns a resolution into
//! a normalized UV grid, marches and shades each batch of pixels, and
//! packs the results into an interleaved RGB byte buffer.

use vstd::prelude::*;

use crate::aa::{spec_offsets_uv, offsets_uv, AliasLevel};
use crate::camera::Camera;
use crate::math::lanes::{lane_quotient, lane_trunc, quot_of, splat_ratio};
use crate::math::{Vec2s, Vec3s};
use crate::ray::Ray;
use crate::LANES;

verus! {

/// A shading callback: maps each lane's ray to a color with channels
/// in the `[0, 1]` domain by convention.
pub trait Shade {
    /// The color seen along each lane's ray.
    fn shade(&self, ray: &Ray) -> Vec3s;
}

/// The resolutions the pipeline accepts: both sides positive, neither
/// side above `2^28 - 1`, and a byte buffer of `3 * width * height`
/// entries representable in 32 bits.
pub open spec fn dims_ok(width: u32, height: u32) -> bool {
    &&& 1 <= width <= 0x0fff_ffff
    &&& 1 <= height <= 0x0fff_ffff
    &&& 3 * width * height <= u32::MAX
}

/// How many lane batches cover `width * height` pixels: the pixel
/// count divided by [`LANES`], rounded up.
pub open spec fn spec_batches(width: u32, height: u32) -> int {
    (width * height + (LANES - 1)) / (LANES as int)
}

/// The UV x-numerator of pixel `p`: twice its column, recentered by
/// the image width. The shared denominator is the image height.
pub open spec fn spec_uv_num_x(width: u32, p: int) -> int {
    2 * (p % (width as int)) - width
}

/// The UV y-numerator of pixel `p`: twice its row, recentered by the
/// image height. The shared denominator is the image height.
pub open spec fn spec_uv_num_y(width: u32, height: u32, p: int) -> int {
    2 * (p / (width as int)) - height
}

/// The sixteen UV x-numerators of batch `b`, one per lane.
pub open spec fn spec_xnums(width: u32, b: int) -> Seq<i32> {
    Seq::new(LANES as nat, |l: int| spec_uv_num_x(width, b * (LANES as int) + l) as i32)
}

/// The sixteen UV y-numerators of batch `b`, one per lane.
pub open spec fn spec_ynums(width: u32, height: u32, b: int) -> Seq<i32> {
    Seq::new(LANES as nat, |l: int| spec_uv_num_y(width, height, b * (LANES as int) + l) as i32)
}

/// The normalized UV coordinates of batch `b`: for image coordinate
/// `(x, y)` the UV is `((2x, 2y) - (width, height)) / height` — the
/// divisor is the height for both axes, which preserves the aspect
/// ratio.
pub open spec fn spec_uv_batch(width: u32, height: u32, b: int) -> Vec2s {
    Vec2s {
        x: quot_of(spec_xnums(width, b), height as i32),
        y: quot_of(spec_ynums(width, height, b), height as i32),
    }
}

/// The full UV grid of a resolution: pixels in row-major raster order,
/// grouped into batches of [`LANES`] consecutive pixels. A function of
/// the resolution alone, so rebuilding a grid for the same resolution
/// yields an identical sequence.
pub open spec fn spec_uv_grid(width: u32, height: u32) -> Seq<Vec2s> {
    Seq::new(spec_batches(width, height) as nat, |b: int| spec_uv_batch(width, height, b))
}

/// A channel value truncated to an integer, saturated into a byte:
/// values below zero clamp to 0, values above 255 clamp to 255. This
/// is a deliberate policy choice: out-of-range colors saturate rather
/// than wrap. The render path also clamps each channel into
/// `[0, 255]` in float space before truncating, so even values beyond
/// the 32-bit integer range (or NaN, which the float clamp sends to
/// zero) saturate uniformly on every target.
pub open spec fn clamp_byte(c: i32) -> u8 {
    if c < 0 {
        0
    } else if c > 255 {
        255
    } else {
        c as u8
    }
}

/// Saturates one truncated channel value into a byte.
fn clamp_channel(c: i32) -> (b: u8)
    ensures
        b == clamp_byte(c),
{
    if c < 0 {
        0
    } else if c > 255 {
        255
    } else {
        c as u8
    }
}

/// Packs three channel batches into interleaved RGB byte triples, one
/// triple per lane, saturating each channel into a byte.
fn pack_rgb(xs: &Vec<i32>, ys: &Vec<i32>, zs: &Vec<i32>) -> (bytes: Vec<u8>)
    requires
        xs@.len() == LANES,
        ys@.len() == LANES,
        zs@.len() == LANES,
    ensures
        bytes@.len() == 3 * LANES,
        forall|l: int|
            0 <= l < LANES ==> bytes@[3 * l] == clamp_byte(xs@[l]) && bytes@[3 * l + 1]
                == clamp_byte(ys@[l]) && bytes@[3 * l + 2] == clamp_byte(zs@[l]),
{
    let mut bytes: Vec<u8> = Vec::new();
    let mut l: usize = 0;
    while l < LANES
        invariant
            l <= LANES,
            xs@.len() == LANES,
            ys@.len() == LANES,
            zs@.len() == LANES,
            bytes@.len() == 3 * l,
            forall|i: int|
                0 <= i < l ==> bytes@[3 * i] == clamp_byte(xs@[i]) && bytes@[3 * i + 1]
                    == clamp_byte(ys@[i]) && bytes@[3 * i + 2] == clamp_byte(zs@[i]),
        decreases LANES - l,
    {
        bytes.push(clamp_channel(xs[l]));
        bytes.push(clamp_channel(ys[l]));
        bytes.push(clamp_channel(zs[l]));
        l = l + 1;
    }
    bytes
}

/// A batch that exists starts at a pixel index inside the image: with
/// the batch count rounded up from the pixel count, every batch but
/// the rounded-up overhang begins strictly before the end.
proof fn lemma_batch_start_in_range(b: int, total: int)
    requires
        0 <= total,
        0 <= b < (total + (LANES as int) - 1) / (LANES as int),
    ensures
        b * (LANES as int) <= total - 1,
{
    let nb = (total + (LANES as int) - 1) / (LANES as int);
    vstd::arithmetic::div_mod::lemma_fundamental_div_mod(total + (LANES as int) - 1, LANES as int);
    vstd::arithmetic::div_mod::lemma_mod_bound(total + (LANES as int) - 1, LANES as int);
    assert(nb * (LANES as int) <= total + (LANES as int) - 1);
    assert(b * (LANES as int) <= (nb - 1) * (LANES as int)) by (nonlinear_arith)
        requires
            b < nb,
    ;
}

/// Builds the UV grid for a resolution: one [`Vec2s`] per batch of
/// [`LANES`] consecutive pixels in row-major order.
fn compute_grid(width: u32, height: u32) -> (uvs: Vec<Vec2s>)
    requires
        dims_ok(width, height),
    ensures
        uvs@ == spec_uv_grid(width, height),
{
    proof {
        assert(width * height >= 0 && width * height <= u32::MAX) by (nonlinear_arith)
            requires
                width >= 0,
                height >= 0,
                3 * width * height <= u32::MAX,
        ;
    }
    let total: u64 = (width as u64) * (height as u64);
    let nb: u64 = (total + (LANES as u64 - 1)) / (LANES as u64);
    let mut uvs: Vec<Vec2s> = Vec::new();
    let mut b: u64 = 0;
    let mut x: u32 = 0;
    let mut y: u32 = 0;
    let mut p: u64 = 0;
    while b < nb
        invariant
            dims_ok(width, height),
            total == width * height,
            total <= u32::MAX,
            nb == spec_batches(width, height),
            b <= nb,
            uvs@.len() == b,
            forall|i: int| 0 <= i < b ==> uvs@[i] == spec_uv_batch(width, height, i),
            p == b * (LANES as int),
            p == y * width + x,
            x < width,
            y <= height + LANES,
        decreases nb - b,
    {
        let ghost batch = b as int;
        proof {
            lemma_batch_start_in_range(b as int, total as int);
            assert(p <= total - 1);
        }
        let mut xs: Vec<i32> = Vec::new();
        let mut ys: Vec<i32> = Vec::new();
        let mut l: usize = 0;
        while l < LANES
            invariant
                dims_ok(width, height),
                total == width * height,
                total <= u32::MAX,
                l <= LANES,
                xs@.len() == l,
                ys@.len() == l,
                forall|i: int| 0 <= i < l ==> xs@[i] == spec_xnums(width, batch)[i],
                forall|i: int| 0 <= i < l ==> ys@[i] == spec_ynums(width, height, batch)[i],
                p == batch * (LANES as int) + l,
                batch * (LANES as int) <= total - 1,
                p == y * width + x,
                x < width,
                y <= height + LANES,
            decreases LANES - l,
        {
            proof {
                vstd::arithmetic::div_mod::lemma_fundamental_div_mod_converse(
                    p as int,
                    width as int,
                    y as int,
                    x as int,
                );
                assert(spec_xnums(width, batch)[l as int] == 2 * (x as int) - width);
                assert(spec_ynums(width, height, batch)[l as int] == 2 * (y as int) - height);
            }
            let nx: i32 = 2 * (x as i32) - (width as i32);
            let ny: i32 = 2 * (y as i32) - (height as i32);
            xs.push(nx);
            ys.push(ny);
            x = x + 1;
            if x == width {
                proof {
                    assert((y + 1) * width == y * width + width) by (nonlinear_arith);
                    assert(y + 1 <= height + LANES) by (nonlinear_arith)
                        requires
                            (y + 1) * width == p + 1,
                            p <= total + LANES - 2,
                            total == width * height,
                            width >= 1,
                            LANES >= 2,
                    ;
                }
                x = 0;
                y = y + 1;
            }
            p = p + 1;
            l = l + 1;
        }
        proof {
            assert(xs@ =~= spec_xnums(width, batch));
            assert(ys@ =~= spec_ynums(width, height, batch));
        }
        let den: i32 = height as i32;
        uvs.push(Vec2s { x: lane_quotient(&xs, den), y: lane_quotient(&ys, den) });
        b = b + 1;
    }
    proof {
        assert(uvs@ =~= spec_uv_grid(width, height));
    }
    uvs
}

/// The main context used to render an image: the resolution, the
/// normalized UV grid for it, and the antialiasing offset table.
/// Constructed through [`PixelsBuilder`]; immutable between calls to
/// [`Pixels::resize`].
pub struct Pixels {
    width: u32,
    height: u32,
    aa: AliasLevel,
    uvs: Vec<Vec2s>,
    offsets: Vec<Vec2s>,
}

impl Pixels {
    /// The image width in pixels.
    pub closed spec fn spec_width(&self) -> u32 {
        self.width
    }

    /// The image height in pixels.
    pub closed spec fn spec_height(&self) -> u32 {
        self.height
    }

    /// The antialiasing level the context was built with.
    pub closed spec fn spec_aa(&self) -> AliasLevel {
        self.aa
    }

    /// The UV batches of the context.
    pub closed spec fn spec_uvs(&self) -> Seq<Vec2s> {
        self.uvs@
    }

    /// The UV-space antialiasing offsets of the context.
    pub closed spec fn spec_offs(&self) -> Seq<Vec2s> {
        self.offsets@
    }

    /// The size facts a render needs: an accepted resolution, one UV
    /// batch per [`LANES`] pixels, and one offset per sample.
    pub open spec fn sized_ok(&self) -> bool {
        &&& dims_ok(self.spec_width(), self.spec_height())
        &&& self.spec_uvs().len() == spec_batches(self.spec_width(), self.spec_height())
        &&& self.spec_offs().len() == self.spec_aa().spec_count()
    }

    /// A well-formed context holds an accepted resolution, exactly the
    /// UV grid of that resolution, and exactly the offset table of its
    /// aliasing level at that height.
    pub open spec fn wf(&self) -> bool {
        &&& self.sized_ok()
        &&& self.spec_uvs() == spec_uv_grid(self.spec_width(), self.spec_height())
        &&& self.spec_offs() == spec_offsets_uv(self.spec_aa(), self.spec_height())
    }

    /// The image width in pixels.
    pub fn width(&self) -> (w: u32)
        ensures
            w == self.spec_width(),
    {
        self.width
    }

    /// The image height in pixels.
    pub fn height(&self) -> (h: u32)
        ensures
            h == self.spec_height(),
    {
        self.height
    }

    /// The UV batches of the context, in raster order.
    pub fn uvs(&self) -> (r: &Vec<Vec2s>)
        ensures
            r@ == self.spec_uvs(),
    {
        &self.uvs
    }

    /// Renders one batch of [`LANES`] consecutive pixels: shades the
    /// batch's rays (averaging the antialiasing samples when the level
    /// takes more than one), applies the square-root gamma
    /// approximation, scales to the byte range, clamps each channel
    /// into that range in float space, and packs the lanes as
    /// interleaved RGB triples with each channel saturated into a
    /// byte.
    pub fn render_batch<C: Camera, F: Shade>(&self, camera: &C, shade: &F, b: usize) -> (bytes:
        Vec<u8>)
        requires
            self.sized_ok(),
            b < self.spec_uvs().len(),
        ensures
            bytes@.len() == 3 * LANES,
    {
        let uv = self.uvs[b];
        let samples = self.aa.count();
        let col = if samples <= 1 {
            // a single sample: no aliasing work to do
            shade.shade(&camera.ray_at(uv))
        } else {
            // several samples "inside" the pixel, then a box-filter
            // average
            let mut sum = Vec3s::splat(splat_ratio(0, 1));
            let mut j: usize = 0;
            while j < self.offsets.len()
                decreases self.offsets@.len() - j,
            {
                sum = sum.add(shade.shade(&camera.ray_at(uv.add(self.offsets[j]))));
                j = j + 1;
            }
            sum.div_scalar(splat_ratio(samples as i32, 1))
        };
        // gamma correction: the square root approximates the canonical
        // `pow(color, 1/2.2)` closely enough and is far cheaper
        let col = col.sqrt();
        let scale = splat_ratio(255, 1);
        let col = col.mul_scalar(scale);
        // true saturation: clamp in float space first, so channels at
        // any magnitude (or NaN) land on the byte-range bounds before
        // the integer truncation
        let col = col.clamped(splat_ratio(0, 1), scale);
        let xs = lane_trunc(col.x);
        let ys = lane_trunc(col.y);
        let zs = lane_trunc(col.z);
        pack_rgb(&xs, &ys, &zs)
    }

    /// Renders the image: every batch in raster order, shaded through
    /// `camera` and `shade`, packed into one flat byte buffer of
    /// exactly `3 * width * height` bytes — row-major, three bytes
    /// (R, G, B) per pixel. Trailing lanes of the final batch fall
    /// outside the image and are truncated, never written. The context
    /// itself is never mutated by a render.
    pub fn render<C: Camera, F: Shade>(&self, camera: &C, shade: &F) -> (out: Vec<u8>)
        requires
            self.sized_ok(),
        ensures
            out@.len() == 3 * (self.spec_width() * self.spec_height()),
    {
        proof {
            assert(self.spec_width() * self.spec_height() >= 0 && self.spec_width()
                * self.spec_height() <= u32::MAX) by (nonlinear_arith)
                requires
                    self.spec_width() >= 0,
                    self.spec_height() >= 0,
                    3 * self.spec_width() * self.spec_height() <= u32::MAX,
            ;
        }
        let total: u64 = (self.width as u64) * (self.height as u64);
        let nbatches = self.uvs.len();
        let mut out: Vec<u8> = Vec::new();
        let mut b: usize = 0;
        while b < nbatches
            invariant
                self.sized_ok(),
                total == self.spec_width() * self.spec_height(),
                total <= u32::MAX,
                nbatches == self.spec_uvs().len(),
                nbatches == spec_batches(self.spec_width(), self.spec_height()),
                b <= nbatches,
                out@.len() == 3 * (if b * (LANES as int) <= total {
                    b * (LANES as int)
                } else {
                    total as int
                }),
            decreases nbatches - b,
        {
            proof {
                lemma_batch_start_in_range(b as int, total as int);
            }
            let bytes = self.render_batch(camera, shade, b);
            let base: u64 = (b as u64) * (LANES as u64);
            let mut l: usize = 0;
            while l < LANES && base + (l as u64) < total
                invariant
                    l <= LANES,
                    base == b * (LANES as int),
                    base <= total - 1,
                    total <= u32::MAX,
                    base + l <= total,
                    bytes@.len() == 3 * LANES,
                    out@.len() == 3 * (base + l),
                decreases LANES - l,
            {
                out.push(bytes[3 * l]);
                out.push(bytes[3 * l + 1]);
                out.push(bytes[3 * l + 2]);
                l = l + 1;
            }
            b = b + 1;
        }
        out
    }

    /// Recomputes the UV grid and offset table for a new resolution.
    /// The grid is a function of the resolution alone, so resizing
    /// twice to the same resolution rebuilds bit-identical state.
    pub fn resize(&mut self, width: u32, height: u32)
        requires
            dims_ok(width, height),
        ensures
            final(self).wf(),
            final(self).spec_width() == width,
            final(self).spec_height() == height,
            final(self).spec_aa() == old(self).spec_aa(),
    {
        self.width = width;
        self.height = height;
        self.offsets = offsets_uv(self.aa, height);
        self.uvs = compute_grid(width, height);
    }
}

/// The UV batches of a resolution cover every pixel: the batch count
/// times the lane width reaches the pixel count, and overshoots it by
/// less than one batch — only the final batch can hold trailing
/// out-of-range lanes.
pub proof fn lemma_batches_cover_pixels(width: u32, height: u32)
    requires
        dims_ok(width, height),
    ensures
        spec_batches(width, height) * (LANES as int) >= width * height,
        spec_batches(width, height) * (LANES as int) < width * height + (LANES as int),
{
    let t = (width * height) as int;
    vstd::arithmetic::div_mod::lemma_fundamental_div_mod(t + (LANES as int) - 1, LANES as int);
    vstd::arithmetic::div_mod::lemma_mod_bound(t + (LANES as int) - 1, LANES as int);
}

/// Rebuilding a context is deterministic: two well-formed contexts
/// with the same resolution and aliasing level hold bit-identical UV
/// grids and offset tables, because both are functions of those
/// parameters alone.
pub proof fn lemma_context_deterministic(a: &Pixels, b: &Pixels)
    requires
        a.wf(),
        b.wf(),
        a.spec_width() == b.spec_width(),
        a.spec_height() == b.spec_height(),
        a.spec_aa() == b.spec_aa(),
    ensures
        a.spec_uvs() == b.spec_uvs(),
        a.spec_offs() == b.spec_offs(),
{
}

/// For every pixel inside the image the UV numerators stay within one
/// pixel step of the normalized bounds, over the shared denominator
/// `height`: the y-numerator spans `[-height, height - 2]` — about -1
/// at the top row to +1 at the bottom — and the x-numerator spans
/// `[-width, width - 2]`, `width / height` times that range. The top
/// row's y-numerator is exactly `-height` and the bottom row's is
/// exactly `height - 2`.
pub proof fn lemma_uv_numerator_bounds(width: u32, height: u32, p: int)
    requires
        dims_ok(width, height),
        0 <= p < width * height,
    ensures
        -(width as int) <= spec_uv_num_x(width, p) <= width - 2,
        -(height as int) <= spec_uv_num_y(width, height, p) <= height - 2,
        p < width ==> spec_uv_num_y(width, height, p) == -(height as int),
        p >= width * (height - 1) ==> spec_uv_num_y(width, height, p) == height - 2,
{
    let w = width as int;
    let h = height as int;
    vstd::arithmetic::div_mod::lemma_mod_bound(p, w);
    vstd::arithmetic::div_mod::lemma_div_is_ordered(p, w * h - 1, w);
    assert(w * h - 1 == (h - 1) * w + (w - 1)) by (nonlinear_arith);
    vstd::arithmetic::div_mod::lemma_fundamental_div_mod_converse(w * h - 1, w, h - 1, w - 1);
    vstd::arithmetic::div_mod::lemma_div_pos_is_pos(p, w);
    if p < width {
        vstd::arithmetic::div_mod::lemma_fundamental_div_mod_converse(p, w, 0, p);
    }
    if p >= w * (h - 1) {
        assert(p / w == h - 1) by {
            assert(w * h == (h - 1) * w + w && w * (h - 1) == (h - 1) * w) by (nonlinear_arith);
            vstd::arithmetic::div_mod::lemma_fundamental_div_mod_converse(
                p,
                w,
                h - 1,
                p - w * (h - 1),
            );
        }
    }
}

/// Builder struct for [`Pixels`].
pub struct PixelsBuilder {
    width: u32,
    height: u32,
}

impl PixelsBuilder {
    /// The width the builder will hand to the context.
    pub closed spec fn spec_width(&self) -> u32 {
        self.width
    }

    /// The height the builder will hand to the context.
    pub closed spec fn spec_height(&self) -> u32 {
        self.height
    }

    /// Creates a new [`PixelsBuilder`] with a resolution of 1080p.
    ///
    /// This is the same as calling `PixelsBuilder::default`.
    pub fn new() -> (b: PixelsBuilder)
        ensures
            b.spec_width() == 1920,
            b.spec_height() == 1080,
    {
        Self::default()
    }

    /// Replaces the image width.
    pub fn with_width(self, width: u32) -> (b: PixelsBuilder)
        ensures
            b.spec_width() == width,
            b.spec_height() == self.spec_height(),
    {
        Self { width, ..self }
    }

    /// Replaces the image height.
    pub fn with_height(self, height: u32) -> (b: PixelsBuilder)
        ensures
            b.spec_width() == self.spec_width(),
            b.spec_height() == height,
    {
        Self { height, ..self }
    }

    /// Consumes the builder and creates the [`Pixels`] context with the
    /// given antialiasing level.
    pub fn build_with_aa(self, aa: AliasLevel) -> (p: Pixels)
        requires
            dims_ok(self.spec_width(), self.spec_height()),
        ensures
            p.wf(),
            p.spec_width() == self.spec_width(),
            p.spec_height() == self.spec_height(),
            p.spec_aa() == aa,
    {
        let mut p = Pixels {
            width: self.width,
            height: self.height,
            aa,
            uvs: Vec::new(),
            offsets: Vec::new(),
        };
        let w = self.width;
        let h = self.height;
        p.resize(w, h);
        p
    }
}

impl Default for PixelsBuilder {
    /// The default context resolution is 1080p.
    fn default() -> (b: Self)
        ensures
            b.spec_width() == 1920,
            b.spec_height() == 1080,
    {
        Self { width: 1920, height: 1080 }
    }
}

} // verus!
