//! Material (BSDF) tests: attenuation ranges, the reflection law, and the
//! dielectric's refraction geometry.

use tracer::hittable::HitRecord;
use tracer::material::{Dielectric, Diffuse, Mirror, SerializedMaterial};
use tracer::math::{mirror, schlick};
use tracer::ray::Ray;
use tracer::sampler::random::Random;
use tracer::vector::Vec3;

fn v(x: i64, y: i64, z: i64) -> Vec3 {
    Vec3 { x, y, z }
}

fn hit_at(p: Vec3, normal: Vec3, distance: i64) -> HitRecord {
    HitRecord { p, normal, distance }
}

// The reflection law: mirroring about an axis-aligned unit normal flips
// exactly the normal component.
#[test]
fn mirror_reflection_law() {
    let d = v(1_000_000, -1_000_000, 0);
    let n = v(0, 1_000_000, 0);
    let r = mirror(&d, &n);
    assert_eq!(r, v(1_000_000, 1_000_000, 0));
    // r . n == -(d . n)
    assert_eq!(r.y, -d.y);
}

// Schlick's approximation at normal incidence for glass of index 1.5 is
// the classic four percent.
#[test]
fn schlick_normal_incidence() {
    assert_eq!(schlick(1_000_000, 1_500_000), 40_000);
}

// A mirror with zero perturbation reflects deterministically, and its
// attenuation is its albedo when the ray leaves the surface.
#[test]
fn mirror_scatter_reflects() {
    let mat = Mirror { perturbation: 0, albedo: v(900_000, 800_000, 700_000) };
    let mut sampler = Random::with_seed(1);
    let ray = Ray { origin: v(0, 2_000_000, 0), direction: v(0, -1_000_000, 0) };
    let hit = hit_at(v(0, 1_000_000, 0), v(0, 1_000_000, 0), 1_000_000);
    let rec = mat.scatter(&mut sampler, &ray, &hit);
    assert_eq!(rec.out.origin, hit.p);
    assert_eq!(rec.out.direction, v(0, 1_000_000, 0));
    assert_eq!(rec.attenuation, mat.albedo);
}

// A diffuse surface scatters along the normal plus a unit-sphere sample,
// and its attenuation is always the albedo.
#[test]
fn diffuse_scatter_range() {
    let mat = Diffuse { albedo: v(500_000, 400_000, 300_000) };
    let mut sampler = Random::with_seed(5);
    let ray = Ray { origin: v(0, 2_000_000, 0), direction: v(0, -1_000_000, 0) };
    let hit = hit_at(v(0, 1_000_000, 0), v(0, 1_000_000, 0), 1_000_000);
    for _ in 0..50 {
        let rec = mat.scatter(&mut sampler, &ray, &hit);
        assert_eq!(rec.attenuation, mat.albedo);
        assert_eq!(rec.out.origin, hit.p);
        // The scatter direction differs from the normal by a sample inside
        // the unit sphere.
        assert!((rec.out.direction.x - hit.normal.x).abs() <= 1_000_000);
        assert!((rec.out.direction.y - hit.normal.y).abs() <= 1_000_000);
        assert!((rec.out.direction.z - hit.normal.z).abs() <= 1_000_000);
    }
}

// Every material returns an attenuation componentwise within [0, 1].
#[test]
fn attenuation_in_unit_range() {
    let mats = vec![
        SerializedMaterial::Diffuse(Diffuse { albedo: v(1_000_000, 0, 500_000) }),
        SerializedMaterial::Mirror(Mirror { perturbation: 1_000_000, albedo: v(1_000_000, 1_000_000, 1_000_000) }),
        SerializedMaterial::Dielectric(Dielectric {
            refraction_index: 1_500_000,
            albedo: v(1_000_000, 1_000_000, 1_000_000),
        }),
    ];
    let mut sampler = Random::with_seed(11);
    let ray = Ray { origin: v(0, 2_000_000, 0), direction: v(0, -1_000_000, 0) };
    let hit = hit_at(v(0, 1_000_000, 0), v(0, 1_000_000, 0), 1_000_000);
    for mat in &mats {
        for _ in 0..25 {
            let rec = mat.scatter(&mut sampler, &ray, &hit);
            assert!(0 <= rec.attenuation.x && rec.attenuation.x <= 1_000_000);
            assert!(0 <= rec.attenuation.y && rec.attenuation.y <= 1_000_000);
            assert!(0 <= rec.attenuation.z && rec.attenuation.z <= 1_000_000);
        }
    }
}

// A dielectric at normal incidence either reflects straight back or
// refracts straight through; both directions are exact.
#[test]
fn dielectric_normal_incidence() {
    let mat = Dielectric { refraction_index: 1_500_000, albedo: v(1_000_000, 1_000_000, 1_000_000) };
    let mut sampler = Random::with_seed(3);
    let ray = Ray { origin: v(0, 2_000_000, 0), direction: v(0, -1_000_000, 0) };
    let hit = hit_at(v(0, 1_000_000, 0), v(0, 1_000_000, 0), 1_000_000);
    for _ in 0..20 {
        let rec = mat.scatter(&mut sampler, &ray, &hit);
        assert_eq!(rec.out.origin, hit.p);
        assert_eq!(rec.attenuation, mat.albedo);
        let reflected = v(0, 1_000_000, 0);
        let refracted = v(0, -666_666, 0);
        assert!(rec.out.direction == reflected || rec.out.direction == refracted);
    }
}

// Past the critical angle a ray inside the denser medium is totally
// internally reflected: no sample is drawn and the reflection is exact.
#[test]
fn dielectric_total_internal_reflection() {
    let mat = Dielectric { refraction_index: 1_500_000, albedo: v(1_000_000, 1_000_000, 1_000_000) };
    let mut sampler = Random::with_seed(3);
    let ray = Ray { origin: v(-1_000_000, 0, 0), direction: v(1_000_000, 1_000_000, 0) };
    let hit = hit_at(v(0, 1_000_000, 0), v(0, 1_000_000, 0), 1_414_213);
    let rec = mat.scatter(&mut sampler, &ray, &hit);
    assert_eq!(rec.out.direction, v(1_000_000, -1_000_000, 0));
}
