//! Ray-triangle intersection tests (Moller-Trumbore with back-face
//! culling).

use tracer::fixed::eta;
use tracer::hittable::triangle::TriangleHandedness;
use tracer::hittable::{HitRecord, Triangle, TriangleParameters};
use tracer::ray::Ray;
use tracer::vector::Vec3;

struct TestCase {
    pub triangle: Triangle,
    pub ray: Ray,
    pub expected: Option<HitRecord>,
}

fn v(x: i64, y: i64, z: i64) -> Vec3 {
    Vec3 { x, y, z }
}

fn ccw_triangle(a: Vec3, b: Vec3, c: Vec3) -> Triangle {
    TriangleParameters { vertices: [a, b, c], handedness: TriangleHandedness::CounterClockwise }
        .init()
}

/// A "fuzzy" equality check: each component may differ by less than the
/// error threshold.
fn fuzzy_eq(expected: Option<HitRecord>, actual: Option<HitRecord>) {
    if expected.is_none() {
        assert!(actual.is_none());
        return;
    } else {
        assert!(actual.is_some());
    }
    let a = expected.unwrap();
    let b = actual.unwrap();
    assert!((a.p.x - b.p.x).abs() < eta());
    assert!((a.p.y - b.p.y).abs() < eta());
    assert!((a.p.z - b.p.z).abs() < eta());
    assert!((a.normal.x - b.normal.x).abs() < eta());
    assert!((a.normal.y - b.normal.y).abs() < eta());
    assert!((a.normal.z - b.normal.z).abs() < eta());
    assert!((a.distance - b.distance).abs() < eta());
}

/// A ray parallel to the triangle's plane registers no intersection and
/// causes no division by zero.
#[test]
fn ray_parallel_to_triangle() {
    let tri = ccw_triangle(v(0, 0, 0), v(1_000_000, 0, 0), v(0, 1_000_000, 0));
    let test_cases = vec![
        TestCase {
            triangle: tri,
            ray: Ray { origin: v(-1_000_000, 500_000, 0), direction: v(1_000_000, 0, 0) },
            expected: None,
        },
        TestCase {
            triangle: tri,
            ray: Ray { origin: v(2_000_000, 500_000, 0), direction: v(-1_000_000, 0, 0) },
            expected: None,
        },
        TestCase {
            triangle: tri,
            ray: Ray { origin: v(500_000, 5_000_000, 0), direction: v(0, -1_000_000, 0) },
            expected: None,
        },
    ];
    for test_case in test_cases {
        let result = test_case.triangle.hit(&test_case.ray);
        fuzzy_eq(test_case.expected, result);
    }
}

/// Rays that miss the triangle completely.
#[test]
fn ray_misses_triangle() {
    let tri = ccw_triangle(v(0, 0, 0), v(1_000_000, 0, 0), v(0, 1_000_000, 0));
    let test_cases = vec![
        TestCase {
            triangle: tri,
            ray: Ray { origin: v(2_000_000, 2_500_000, 0), direction: v(1_000_000, 0, 0) },
            expected: None,
        },
        TestCase {
            triangle: tri,
            ray: Ray {
                origin: v(2_000_000, 2_500_000, 100_000_000),
                direction: v(1_000_000, 0, 1_000_000),
            },
            expected: None,
        },
    ];
    for test_case in test_cases {
        let result = test_case.triangle.hit(&test_case.ray);
        fuzzy_eq(test_case.expected, result);
    }
}

/// Rays that reach the triangle from behind are culled.
#[test]
fn ray_culling_triangle() {
    let test_cases = vec![
        TestCase {
            triangle: ccw_triangle(
                v(0, 0, -1_000_000),
                v(0, 3_000_000, -1_000_000),
                v(3_000_000, 0, -1_000_000),
            ),
            ray: Ray { origin: v(1_000_000, 1_000_000, -2_000_000), direction: v(0, 0, 1_000_000) },
            expected: None,
        },
        TestCase {
            triangle: ccw_triangle(
                v(-1_000_000, 0, -1_000_000),
                v(0, 2_000_000, -1_000_000),
                v(1_000_000, 0, -1_000_000),
            ),
            ray: Ray { origin: v(0, 500_000, -2_000_000), direction: v(0, 0, 1_000_000) },
            expected: None,
        },
    ];
    for test_case in test_cases {
        let result = test_case.triangle.hit(&test_case.ray);
        fuzzy_eq(test_case.expected, result);
    }
}

/// Rays that hit the triangle's front face.
#[test]
fn ray_intersects_triangle() {
    let test_cases = vec![
        TestCase {
            triangle: ccw_triangle(
                v(0, 0, -1_000_000),
                v(0, 3_000_000, -1_000_000),
                v(3_000_000, 0, -1_000_000),
            ),
            ray: Ray { origin: v(1_000_000, 1_000_000, 0), direction: v(0, 0, -1_000_000) },
            expected: Some(HitRecord {
                p: v(1_000_000, 1_000_000, -1_000_000),
                normal: v(0, 0, 1_000_000),
                distance: 1_000_000,
            }),
        },
        TestCase {
            triangle: ccw_triangle(
                v(-1_000_000, 0, -1_000_000),
                v(0, 2_000_000, -1_000_000),
                v(1_000_000, 0, -1_000_000),
            ),
            ray: Ray { origin: v(0, 500_000, 0), direction: v(0, 0, -1_000_000) },
            expected: Some(HitRecord {
                p: v(0, 500_000, -1_000_000),
                normal: v(0, 0, 1_000_000),
                distance: 1_000_000,
            }),
        },
    ];
    for test_case in test_cases {
        let result = test_case.triangle.hit(&test_case.ray);
        fuzzy_eq(test_case.expected, result);
    }
}
