//! Tests for the antialiasing tables, the pixel context and the render
//! pipeline.

use volm::aa::{offsets, AliasLevel, OFFSET_UNIT};
use volm::camera::{Camera, PointCamera};
use volm::ray::Ray;
use volm::sphere::Sphere;
use volm::{f32s, PixelsBuilder, Sdf, Shade, Vec2s, Vec3s, LANES};

fn sp(v: f32) -> f32s {
    wide::f32x16::splat(v)
}

fn v3(x: f32, y: f32, z: f32) -> Vec3s {
    Vec3s::new(sp(x), sp(y), sp(z))
}

/// Shades every ray with one fixed color.
struct Flat(f32);

impl Shade for Flat {
    fn shade(&self, _ray: &Ray) -> Vec3s {
        v3(self.0, self.0, self.0)
    }
}

/// Shades by marching a unit sphere and coloring hits.
struct SphereShade;

impl Shade for SphereShade {
    fn shade(&self, ray: &Ray) -> Vec3s {
        let trace = volm::algo::march(&Sphere::new(sp(1.0)), ray);
        let hit = trace.hit();
        let mut lanes = [0.0f32; 16];
        for l in 0..LANES {
            lanes[l] = if hit[l] { 1.0 } else { 0.0 };
        }
        let c = wide::f32x16::new(lanes);
        Vec3s::new(c, c, c)
    }
}

#[test]
fn from_count_accepts_exactly_the_supported_counts() {
    for n in 0..=32u32 {
        let level = AliasLevel::from_count(n);
        if n == 1 || n == 2 || n == 4 || n == 8 || n == 16 {
            let level = level.unwrap();
            assert_eq!(level.count(), n);
        } else {
            assert!(level.is_none(), "count {} should be rejected", n);
        }
    }
    assert!(AliasLevel::from_count(255).is_none());
}

#[test]
fn offset_tables_match_the_fixed_patterns() {
    assert_eq!(offsets(AliasLevel::One), vec![(0, 0)]);
    assert_eq!(offsets(AliasLevel::Two), vec![(4, 4), (-4, -4)]);
    assert_eq!(offsets(AliasLevel::Four), vec![(-2, -6), (6, -2), (-6, 2), (2, 6)]);
    assert_eq!(offsets(AliasLevel::Eight).len(), 8);
    assert_eq!(offsets(AliasLevel::Eight)[0], (1, 3));
    assert_eq!(offsets(AliasLevel::Sixteen).len(), 16);
    assert_eq!(offsets(AliasLevel::Sixteen)[15], (-7, -8));
}

#[test]
fn offsets_stay_within_one_pixel() {
    assert_eq!(OFFSET_UNIT, 8);
    let levels = [
        AliasLevel::One,
        AliasLevel::Two,
        AliasLevel::Four,
        AliasLevel::Eight,
        AliasLevel::Sixteen,
    ];
    for level in levels {
        let table = offsets(level);
        assert_eq!(table.len() as u32, level.count());
        for (dx, dy) in table {
            assert!((-8..=8).contains(&dx));
            assert!((-8..=8).contains(&dy));
        }
    }
}

#[test]
fn builder_defaults_to_full_hd() {
    let pixels = PixelsBuilder::new().build_with_aa(AliasLevel::One);
    assert_eq!(pixels.width(), 1920);
    assert_eq!(pixels.height(), 1080);
}

#[test]
fn builder_overrides_each_side() {
    let pixels = PixelsBuilder::new()
        .with_width(64)
        .with_height(48)
        .build_with_aa(AliasLevel::Two);
    assert_eq!(pixels.width(), 64);
    assert_eq!(pixels.height(), 48);
}

#[test]
fn uv_grid_covers_the_pixels_in_batches() {
    let pixels = PixelsBuilder::new()
        .with_width(33)
        .with_height(7)
        .build_with_aa(AliasLevel::One);
    // 231 pixels fit in 15 batches of 16 lanes
    assert_eq!(pixels.uvs().len(), (33 * 7 + LANES - 1) / LANES);
}

#[test]
fn uv_grid_is_deterministic_across_builds_and_resizes() {
    let a = PixelsBuilder::new()
        .with_width(64)
        .with_height(48)
        .build_with_aa(AliasLevel::Four);
    let mut b = PixelsBuilder::new()
        .with_width(64)
        .with_height(48)
        .build_with_aa(AliasLevel::Four);
    let same = |p: &volm::Pixels, q: &volm::Pixels| {
        assert_eq!(p.uvs().len(), q.uvs().len());
        for (u, v) in p.uvs().iter().zip(q.uvs().iter()) {
            let (ux, vx) = (u.x.to_array(), v.x.to_array());
            let (uy, vy) = (u.y.to_array(), v.y.to_array());
            for l in 0..LANES {
                assert_eq!(ux[l].to_bits(), vx[l].to_bits());
                assert_eq!(uy[l].to_bits(), vy[l].to_bits());
            }
        }
    };
    same(&a, &b);
    // resizing away and back rebuilds a bit-identical grid
    b.resize(128, 90);
    b.resize(64, 48);
    same(&a, &b);
}

#[test]
fn uv_y_spans_minus_one_to_one_and_x_is_aspect_scaled() {
    let pixels = PixelsBuilder::new().build_with_aa(AliasLevel::One);
    let uvs = pixels.uvs();
    // top-left pixel: lane 0 of batch 0
    let top_y = uvs[0].y.to_array()[0];
    let left_x = uvs[0].x.to_array()[0];
    assert!((top_y - (-1.0)).abs() < 1e-6, "top row y is {}", top_y);
    assert!((left_x - (-1920.0 / 1080.0)).abs() < 1e-5, "left x is {}", left_x);
    // bottom row: first pixel of the last row
    let p = 1920 * 1079;
    let bottom_y = uvs[p / LANES].y.to_array()[p % LANES];
    assert!((bottom_y - 1.0).abs() < 0.01, "bottom row y is {}", bottom_y);
    // right column: last pixel of the first row
    let q = 1919;
    let right_x = uvs[q / LANES].x.to_array()[q % LANES];
    assert!((right_x - 1920.0 / 1080.0).abs() < 0.01, "right x is {}", right_x);
}

#[test]
fn render_returns_three_bytes_per_pixel() {
    let camera = PointCamera::new(v3(0.0, 0.0, 5.0));
    let cases = [(1u32, 1u32), (33, 7), (64, 48)];
    let levels = [
        AliasLevel::One,
        AliasLevel::Two,
        AliasLevel::Four,
        AliasLevel::Eight,
        AliasLevel::Sixteen,
    ];
    for (w, h) in cases {
        for level in levels {
            let pixels = PixelsBuilder::new()
                .with_width(w)
                .with_height(h)
                .build_with_aa(level);
            let buf = pixels.render(&camera, &Flat(0.25));
            assert_eq!(buf.len() as u32, w * h * 3, "{}x{} at {:?}", w, h, level);
        }
    }
}

#[test]
fn flat_color_renders_to_gamma_corrected_bytes() {
    // 0.25 through the square-root gamma is 0.5; scaled to bytes and
    // truncated it lands on 127 in every channel
    let camera = PointCamera::new(v3(0.0, 0.0, 5.0));
    let pixels = PixelsBuilder::new()
        .with_width(8)
        .with_height(4)
        .build_with_aa(AliasLevel::One);
    let buf = pixels.render(&camera, &Flat(0.25));
    assert!(buf.iter().all(|&b| b == 127));
}

#[test]
fn out_of_range_colors_saturate() {
    let camera = PointCamera::new(v3(0.0, 0.0, 5.0));
    let pixels = PixelsBuilder::new()
        .with_width(4)
        .with_height(4)
        .build_with_aa(AliasLevel::One);
    // 4.0 through the gamma is 2.0 and scales to 510: the packer
    // saturates it to 255 rather than wrapping
    let bright = pixels.render(&camera, &Flat(4.0));
    assert!(bright.iter().all(|&b| b == 255));
    // a negative color has no real square root; whatever the
    // truncation reports, the packer clamps it to the byte range, and
    // for NaN input that lands at zero on every supported target
    let dark = pixels.render(&camera, &Flat(-1.0));
    assert!(dark.iter().all(|&b| b == 0));
}

#[test]
fn single_sample_equals_averaged_samples_on_constant_scenes() {
    // averaging N identical samples is exactly the single sample, so a
    // spatially constant scene renders byte-identically at every level
    let camera = PointCamera::new(v3(0.0, 0.0, 5.0));
    for color in [0.25f32, 0.5] {
        let reference = PixelsBuilder::new()
            .with_width(16)
            .with_height(9)
            .build_with_aa(AliasLevel::One)
            .render(&camera, &Flat(color));
        let levels = [AliasLevel::Two, AliasLevel::Four, AliasLevel::Eight, AliasLevel::Sixteen];
        for level in levels {
            let averaged = PixelsBuilder::new()
                .with_width(16)
                .with_height(9)
                .build_with_aa(level)
                .render(&camera, &Flat(color));
            assert_eq!(reference, averaged, "level {:?} diverged at {}", level, color);
        }
    }
}

#[test]
fn render_is_deterministic() {
    let camera = PointCamera::new(v3(0.0, 0.0, 5.0));
    let pixels = PixelsBuilder::new()
        .with_width(64)
        .with_height(48)
        .build_with_aa(AliasLevel::Two);
    let a = pixels.render(&camera, &SphereShade);
    let b = pixels.render(&camera, &SphereShade);
    assert_eq!(a, b);
}

#[test]
fn sphere_scene_renders_light_center_and_dark_corner() {
    let camera = PointCamera::new(v3(0.0, 0.0, 5.0));
    let pixels = PixelsBuilder::new()
        .with_width(64)
        .with_height(64)
        .build_with_aa(AliasLevel::One);
    let buf = pixels.render(&camera, &SphereShade);
    // the ray through the image center hits the sphere: white pixel
    let center = 3 * (32 * 64 + 32);
    assert_eq!(&buf[center..center + 3], &[255, 255, 255]);
    // the corner ray misses: black pixel
    assert_eq!(&buf[0..3], &[0, 0, 0]);
}

#[test]
fn render_batch_packs_one_batch_of_lanes() {
    let camera = PointCamera::new(v3(0.0, 0.0, 5.0));
    let pixels = PixelsBuilder::new()
        .with_width(16)
        .with_height(2)
        .build_with_aa(AliasLevel::One);
    let bytes = pixels.render_batch(&camera, &Flat(0.25), 0);
    assert_eq!(bytes.len(), 3 * LANES);
    assert!(bytes.iter().all(|&b| b == 127));
}

#[test]
fn offsets_shift_rays_but_keep_constant_scenes_flat() {
    // with a non-constant scene, averaging must still stay within the
    // convex hull of the sampled colors: here every sample is 0 or 1,
    // so averaged bytes stay in range
    let camera = PointCamera::new(v3(0.0, 0.0, 5.0));
    let pixels = PixelsBuilder::new()
        .with_width(32)
        .with_height(32)
        .build_with_aa(AliasLevel::Sixteen);
    let buf = pixels.render(&camera, &SphereShade);
    assert_eq!(buf.len(), 32 * 32 * 3);
}

#[test]
fn resize_rejects_nothing_but_recomputes_everything() {
    let mut pixels = PixelsBuilder::new()
        .with_width(16)
        .with_height(16)
        .build_with_aa(AliasLevel::One);
    let before = pixels.uvs().len();
    pixels.resize(48, 16);
    assert_eq!(pixels.width(), 48);
    assert_eq!(pixels.height(), 16);
    assert_eq!(pixels.uvs().len(), 3 * before);
}

#[test]
fn uv_batches_use_vec2_layout() {
    let pixels = PixelsBuilder::new()
        .with_width(16)
        .with_height(1)
        .build_with_aa(AliasLevel::One);
    let uv: Vec2s = pixels.uvs()[0];
    // consecutive lanes step right by 2 / height
    let xs = uv.x.to_array();
    for l in 1..LANES {
        assert!((xs[l] - xs[l - 1] - 2.0).abs() < 1e-5);
    }
}
