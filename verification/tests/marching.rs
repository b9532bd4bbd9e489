//! Tests for the ray-march intersection solver.

use volm::algo::{march, MAX_DIST, MAX_ITERS};
use volm::ray::Ray;
use volm::sphere::Sphere;
use volm::{f32s, Sdf, Vec3s, LANES};

fn sp(v: f32) -> f32s {
    wide::f32x16::splat(v)
}

fn v3(x: f32, y: f32, z: f32) -> Vec3s {
    Vec3s::new(sp(x), sp(y), sp(z))
}

/// A scene that is empty: the nearest surface is always far away.
struct Empty;

impl Sdf for Empty {
    fn dist(&self, _p: &Vec3s) -> f32s {
        sp(100.0)
    }
}

#[test]
fn sphere_head_on_hits_at_distance_minus_radius() {
    // a unit sphere at the origin, rays starting 5 units out on the
    // z axis and aimed straight at the center: the surface lies at
    // distance 4
    let sphere = Sphere::new(sp(1.0));
    let ray = Ray::new(v3(0.0, 0.0, 5.0), v3(0.0, 0.0, -1.0));
    let trace = march(&sphere, &ray);
    let hit = trace.hit();
    let dist = trace.distances().to_array();
    assert_eq!(hit.len(), LANES);
    for l in 0..LANES {
        assert!(hit[l], "lane {} did not hit", l);
        assert!((dist[l] - 4.0).abs() < 1e-3, "lane {} stopped at {}", l, dist[l]);
    }
}

#[test]
fn sphere_radius_varies_per_lane() {
    // each lane probes its own sphere size; the travelled distance
    // tracks it lane by lane
    let mut radii = [0.0f32; 16];
    for l in 0..LANES {
        radii[l] = 0.25 + 0.25 * (l as f32 % 8.0);
    }
    let sphere = Sphere::new(wide::f32x16::new(radii));
    let ray = Ray::new(v3(0.0, 0.0, 5.0), v3(0.0, 0.0, -1.0));
    let trace = march(&sphere, &ray);
    let hit = trace.hit();
    let dist = trace.distances().to_array();
    for l in 0..LANES {
        assert!(hit[l]);
        assert!(
            (dist[l] - (5.0 - radii[l])).abs() < 1e-3,
            "lane {} stopped at {} for radius {}",
            l,
            dist[l],
            radii[l]
        );
    }
}

#[test]
fn ray_aimed_away_misses() {
    // rays walking away from the sphere: no hit, the travelled
    // distance passes the escape threshold, and the step counters stay
    // within the iteration budget
    let sphere = Sphere::new(sp(1.0));
    let ray = Ray::new(v3(0.0, 0.0, 5.0), v3(0.0, 0.0, 1.0));
    let trace = march(&sphere, &ray);
    let hit = trace.hit();
    let dist = trace.distances().to_array();
    let steps = trace.steps();
    for l in 0..LANES {
        assert!(!hit[l], "lane {} reported a hit", l);
        assert!(dist[l] >= MAX_DIST as f32);
        assert!(steps[l] <= MAX_ITERS);
    }
}

#[test]
fn empty_scene_escapes_within_budget() {
    let ray = Ray::new(v3(0.0, 0.0, 0.0), v3(1.0, 0.0, 0.0));
    let trace = march(&Empty, &ray);
    let hit = trace.hit();
    let steps = trace.steps();
    let dist = trace.distances().to_array();
    assert_eq!(steps.len(), LANES);
    for l in 0..LANES {
        assert!(!hit[l]);
        assert!(dist[l] > MAX_DIST as f32);
        assert!(steps[l] <= MAX_ITERS);
    }
}

#[test]
fn steps_stay_within_iteration_budget_and_freeze_on_hit() {
    // a hit run converges geometrically, so the step counters must
    // freeze long before the iteration budget; all lanes behave
    // identically here, so their counters agree
    let sphere = Sphere::new(sp(1.0));
    let ray = Ray::new(v3(0.0, 0.0, 5.0), v3(0.0, 0.0, -1.0));
    let trace = march(&sphere, &ray);
    let steps = trace.steps();
    for l in 0..LANES {
        assert!(steps[l] <= MAX_ITERS);
        assert!(steps[l] < 100, "lane {} took {} steps", l, steps[l]);
        assert_eq!(steps[l], steps[0]);
    }
}

#[test]
fn march_is_deterministic() {
    let sphere = Sphere::new(sp(1.0));
    let ray = Ray::new(v3(0.1, -0.2, 5.0), v3(0.0, 0.0, -1.0));
    let a = march(&sphere, &ray);
    let b = march(&sphere, &ray);
    let da = a.distances().to_array();
    let db = b.distances().to_array();
    for l in 0..LANES {
        assert_eq!(da[l].to_bits(), db[l].to_bits());
        assert_eq!(a.steps()[l], b.steps()[l]);
        assert_eq!(a.hit()[l], b.hit()[l]);
    }
}
