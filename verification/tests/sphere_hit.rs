//! Ray-sphere intersection tests.

use tracer::hittable::{HitRecord, Sphere};
use tracer::ray::Ray;
use tracer::vector::Vec3;

struct TestCase {
    pub ray: Ray,
    pub sphere: Sphere,
    pub expected: Option<HitRecord>,
}

fn v(x: i64, y: i64, z: i64) -> Vec3 {
    Vec3 { x, y, z }
}

/// Unit tests for when the outgoing ray should completely miss the sphere.
#[test]
fn zero_intersections() {
    let test_cases: Vec<TestCase> = vec![
        TestCase {
            ray: Ray { origin: v(2_000_000, 0, 0), direction: v(1_000_000, 0, 0) },
            sphere: Sphere { center: v(0, 0, 0), radius: 1_000_000 },
            expected: None,
        },
        TestCase {
            ray: Ray { origin: v(0, 2_000_000, 0), direction: v(0, 1_000_000, 0) },
            sphere: Sphere { center: v(0, 0, 0), radius: 200_000 },
            expected: None,
        },
        TestCase {
            ray: Ray { origin: v(0, 0, 2_000_000), direction: v(0, 0, 1_000_000) },
            sphere: Sphere { center: v(0, 0, 0), radius: 700_000 },
            expected: None,
        },
    ];
    for test_case in test_cases {
        let sphere = test_case.sphere;
        let result = sphere.hit(&test_case.ray);
        assert_eq!(test_case.expected, result);
    }
}

/// Cases where the ray grazes the sphere at exactly one point.
#[test]
fn one_intersection() {
    let test_cases: Vec<TestCase> = vec![
        TestCase {
            ray: Ray { origin: v(-1_000_000, -1_000_000, 0), direction: v(0, 1_000_000, 0) },
            sphere: Sphere { center: v(0, 0, 0), radius: 1_000_000 },
            expected: Some(HitRecord {
                p: v(-1_000_000, 0, 0),
                normal: v(-1_000_000, 0, 0),
                distance: 1_000_000,
            }),
        },
        TestCase {
            ray: Ray { origin: v(-1_000_000, -1_000_000, 0), direction: v(1_000_000, 0, 0) },
            sphere: Sphere { center: v(0, 0, 0), radius: 1_000_000 },
            expected: Some(HitRecord {
                p: v(0, -1_000_000, 0),
                normal: v(0, -1_000_000, 0),
                distance: 1_000_000,
            }),
        },
        TestCase {
            ray: Ray { origin: v(0, 1_000_000, -1_000_000), direction: v(0, 0, 1_000_000) },
            sphere: Sphere { center: v(0, 0, 0), radius: 1_000_000 },
            expected: Some(HitRecord {
                p: v(0, 1_000_000, 0),
                normal: v(0, 1_000_000, 0),
                distance: 1_000_000,
            }),
        },
    ];
    for test_case in test_cases {
        let sphere = test_case.sphere;
        let result = sphere.hit(&test_case.ray);
        assert_eq!(test_case.expected, result);
    }
}

/// Cases where the ray pierces the sphere at two points: the closest
/// intersection wins.
#[test]
fn two_intersections() {
    let test_cases: Vec<TestCase> = vec![
        TestCase {
            ray: Ray { origin: v(0, -2_000_000, 0), direction: v(0, 1_000_000, 0) },
            sphere: Sphere { center: v(0, 0, 0), radius: 1_000_000 },
            expected: Some(HitRecord {
                p: v(0, -1_000_000, 0),
                normal: v(0, -1_000_000, 0),
                distance: 1_000_000,
            }),
        },
        TestCase {
            ray: Ray { origin: v(0, 2_000_000, 0), direction: v(0, -1_000_000, 0) },
            sphere: Sphere { center: v(0, 0, 0), radius: 1_000_000 },
            expected: Some(HitRecord {
                p: v(0, 1_000_000, 0),
                normal: v(0, 1_000_000, 0),
                distance: 1_000_000,
            }),
        },
        TestCase {
            ray: Ray { origin: v(0, 0, 2_000_000), direction: v(0, 0, -1_000_000) },
            sphere: Sphere { center: v(0, 0, 0), radius: 1_000_000 },
            expected: Some(HitRecord {
                p: v(0, 0, 1_000_000),
                normal: v(0, 0, 1_000_000),
                distance: 1_000_000,
            }),
        },
        TestCase {
            ray: Ray { origin: v(-2_000_000, 0, 0), direction: v(1_000_000, 0, 0) },
            sphere: Sphere { center: v(0, 0, 0), radius: 1_000_000 },
            expected: Some(HitRecord {
                p: v(-1_000_000, 0, 0),
                normal: v(-1_000_000, 0, 0),
                distance: 1_000_000,
            }),
        },
    ];
    for test_case in test_cases {
        let sphere = test_case.sphere;
        let result = sphere.hit(&test_case.ray);
        assert_eq!(test_case.expected, result);
    }
}

/// A reported hit never lies at a negative ray parameter, and its normal
/// stays within the near-unit component range.
#[test]
fn sphere_hit_distance_nonnegative() {
    let sphere = Sphere { center: v(0, 0, 0), radius: 1_000_000 };
    // The origin sits on the sphere's surface: the only forward root is the
    // far side of the sphere.
    let ray = Ray { origin: v(0, -1_000_000, 0), direction: v(0, 1_000_000, 0) };
    let hit = sphere.hit(&ray).unwrap();
    assert!(hit.distance >= 0);
    assert!(hit.normal.x.abs() <= 2_000_000);
    assert!(hit.normal.y.abs() <= 2_000_000);
    assert!(hit.normal.z.abs() <= 2_000_000);
    // A degenerate sphere is accepted and never hit.
    let degenerate = Sphere { center: v(0, 0, 0), radius: 0 };
    assert!(degenerate.hit(&ray).is_none());
}
