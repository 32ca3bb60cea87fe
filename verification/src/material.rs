//! Materials: the scattering rules associated with geometric objects.
//!
//! The materials form a closed set dispatched from the scene description,
//! so they are a tagged union; its `scatter` method is the BSDF of the hit
//! object. Every returned attenuation lies componentwise in `[0, 1]`.

use crate::hittable::{hit_rec_ok, HitRecord};
use crate::ray::Ray;
use crate::sampler::random::{drawn_of, seed_of, Random};
use crate::vector::{bounded3, mag2_s, Vec3};
use vstd::prelude::*;

pub mod blinn_phong;
pub mod dielectric;
pub mod diffuse;
pub mod mirror;

pub use blinn_phong::BlinnPhong;
pub use dielectric::Dielectric;
pub use diffuse::Diffuse;
pub use mirror::Mirror;

verus! {

/// The result of a scattering event: an outgoing ray and the attenuation
/// factor to apply to the radiance it carries back.
#[derive(Clone, Copy, PartialEq, Eq, Structural, Debug)]
pub struct BSDFRecord {
    /// The outgoing ray.
    pub out: Ray,
    /// The attenuation factor to apply to the outgoing ray.
    pub attenuation: Vec3,
}

/// An RGB factor whose components all lie in `[0, 1]`: no material may
/// inject energy.
pub open spec fn albedo_ok_s(a: (int, int, int)) -> bool {
    &&& 0 <= a.0 <= 1_000_000
    &&& 0 <= a.1 <= 1_000_000
    &&& 0 <= a.2 <= 1_000_000
}

/// The different materials that an object of the scene can have.
#[derive(Clone, Copy, PartialEq, Eq, Structural, Debug)]
pub enum SerializedMaterial {
    Diffuse(Diffuse),
    Mirror(Mirror),
    Dielectric(Dielectric),
}

/// A material whose parameters the scene binding has checked: albedos in
/// `[0, 1]`, perturbations in `[0, 1]`, refraction indices in `[1, 5]`.
pub open spec fn material_ok_s(m: SerializedMaterial) -> bool {
    match m {
        SerializedMaterial::Diffuse(d) => diffuse::diffuse_ok_s(d),
        SerializedMaterial::Mirror(mm) => mirror::mirror_ok_s(mm),
        SerializedMaterial::Dielectric(dd) => dielectric::dielectric_ok_s(dd),
    }
}

/// What `scatter` returns for each material: the outgoing ray (as a pair of
/// origin and direction), the attenuation, and where the sampler stream is
/// left.
pub open spec fn scatter_s(
    m: SerializedMaterial,
    rd: (int, int, int),
    h: ((int, int, int), (int, int, int), int),
    seed: u64,
    idx: nat,
) -> (((int, int, int), (int, int, int)), (int, int, int), nat) {
    match m {
        SerializedMaterial::Diffuse(d) => diffuse::diffuse_scatter_s(d, h, seed, idx),
        SerializedMaterial::Mirror(mm) => mirror::mirror_scatter_s(mm, rd, h, seed, idx),
        SerializedMaterial::Dielectric(dd) => dielectric::dielectric_scatter_s(
            dd,
            rd,
            h,
            seed,
            idx,
        ),
    }
}

impl SerializedMaterial {
    /// Scatter an incoming ray at a hit point: produce the outgoing ray and
    /// the attenuation of the radiance it will carry. The attenuation always
    /// lies componentwise in `[0, 1]`.
    pub fn scatter(&self, s: &mut Random, ray: &Ray, hit_record: &HitRecord) -> (r: BSDFRecord)
        requires
            material_ok_s(*self),
            bounded3(ray.direction@, 4_000_000),
            mag2_s(ray.direction@) >= 500_000,
            hit_rec_ok(hit_record@),
        ensures
            seed_of(*final(s)) == seed_of(*old(s)),
            ((r.out.origin@, r.out.direction@), r.attenuation@, drawn_of(*final(s)))
                == scatter_s(
                *self,
                ray.direction@,
                hit_record@,
                seed_of(*old(s)),
                drawn_of(*old(s)),
            ),
            albedo_ok_s(r.attenuation@),
            r.out.origin@ == hit_record.p@,
            bounded3(r.out.direction@, 800_000_000),
    {
        match self {
            SerializedMaterial::Diffuse(d) => d.scatter(s, ray, hit_record),
            SerializedMaterial::Mirror(mm) => mm.scatter(s, ray, hit_record),
            SerializedMaterial::Dielectric(dd) => dd.scatter(s, ray, hit_record),
        }
    }
}

} // verus!
