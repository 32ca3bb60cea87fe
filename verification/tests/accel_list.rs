//! Tests of the object-list acceleration structure.

use tracer::accel::ObjectList;
use tracer::hittable::{HitRecord, Hittable, Sphere, Textured};
use tracer::material::{Mirror, SerializedMaterial};
use tracer::ray::Ray;
use tracer::vector::Vec3;

fn v(x: i64, y: i64, z: i64) -> Vec3 {
    Vec3 { x, y, z }
}

// A convenience method to help create an ObjectList of mirror spheres.
fn create_list(objects: Vec<Sphere>) -> ObjectList {
    let textured: Vec<Textured> = objects
        .into_iter()
        .map(|geom| Textured {
            geometry: Hittable::Sphere(geom),
            mat: SerializedMaterial::Mirror(Mirror::default()),
        })
        .collect();
    ObjectList::new(textured).unwrap()
}

// Basic case where there are no objects, so we expect no collision.
#[test]
fn no_objects() {
    let list = create_list(vec![]);
    let ray = Ray { origin: v(0, 0, 0), direction: v(0, 0, 0) };
    assert!(list.collision(&ray).is_none());
}

// The ray misses all of the objects, so we expect no collision.
#[test]
fn no_collisions() {
    let list = create_list(vec![
        Sphere { center: v(0, 0, 0), radius: 1_000_000 },
        Sphere { center: v(0, 5_000_000, 0), radius: 1_000_000 },
        Sphere { center: v(0, -5_000_000, 0), radius: 1_000_000 },
    ]);
    let ray = Ray { origin: v(0, 0, -1_000_000), direction: v(0, 0, -1_000_000) };
    assert!(list.collision(&ray).is_none());
}

// A collision can be detected at all, with one candidate object.
#[test]
fn one_possible_collision() {
    let list = create_list(vec![Sphere { center: v(0, 0, 0), radius: 1_000_000 }]);
    let ray = Ray { origin: v(0, -2_000_000, 0), direction: v(0, 1_000_000, 0) };
    assert!(list.collision(&ray).is_some());
}

// A ray intersecting several spheres returns the closest hit.
#[test]
fn multiple_collisions() {
    let list = create_list(vec![
        Sphere { center: v(0, 0, 0), radius: 1_000_000 },
        Sphere { center: v(0, 2_000_000, 0), radius: 1_000_000 },
        Sphere { center: v(-5_000_000, -5_000_000, -5_000_000), radius: 2_000_000 },
        Sphere { center: v(5_000_000, 5_000_000, 5_000_000), radius: 2_000_000 },
    ]);
    let ray = Ray { origin: v(0, -2_000_000, 0), direction: v(0, 1_000_000, 0) };
    let expected = HitRecord {
        p: v(0, -1_000_000, 0),
        normal: v(0, -1_000_000, 0),
        distance: 1_000_000,
    };
    assert_eq!(list.collision(&ray).unwrap().hit_record, expected);
}

// Every reported collision lies at least the error threshold away from
// the ray's origin: an origin on a sphere's surface does not report the
// surface itself.
#[test]
fn collision_distance_at_least_eta() {
    // The ray starts on the first sphere's surface: that intersection is at
    // distance zero and is rejected, so the query reports the farther
    // sphere instead.
    let list = create_list(vec![
        Sphere { center: v(0, 0, 0), radius: 1_000_000 },
        Sphere { center: v(0, 4_000_000, 0), radius: 1_000_000 },
    ]);
    let ray = Ray { origin: v(0, -1_000_000, 0), direction: v(0, 1_000_000, 0) };
    let rec = list.collision(&ray).unwrap();
    assert!(rec.hit_record.distance >= tracer::fixed::ETA);
    assert_eq!(rec.hit_record.distance, 4_000_000);
    assert_eq!(rec.object, 1);
}
