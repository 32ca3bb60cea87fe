//! A diffuse (Lambertian) material: a matte, non-glossy surface.

use crate::hittable::{hit_rec_ok, HitRecord};
use crate::material::{albedo_ok_s, BSDFRecord};
use crate::ray::Ray;
use crate::sampler::primitives::{sample_unit_sphere, sphere_pick_s, REJECT_BUDGET};
use crate::sampler::random::{drawn_of, seed_of, Random};
use crate::vector::{bounded3, vadd_s, vec_add, Vec3};
use vstd::prelude::*;

verus! {

/// A diffuse BSDF: the scatter direction is the surface normal perturbed
/// by a uniform sample of the unit sphere, and the attenuation is the
/// configured albedo.
#[derive(Clone, Copy, PartialEq, Eq, Structural, Debug)]
pub struct Diffuse {
    /// The fraction of light that is reflected in each color channel.
    pub albedo: Vec3,
}

/// A diffuse material with its albedo componentwise in `[0, 1]`.
pub open spec fn diffuse_ok_s(d: Diffuse) -> bool {
    albedo_ok_s(d.albedo@)
}

/// What scattering off a diffuse surface returns: the outgoing ray starts
/// at the hit point and heads along `normal + sample_unit_sphere`.
pub open spec fn diffuse_scatter_s(
    d: Diffuse,
    h: ((int, int, int), (int, int, int), int),
    seed: u64,
    idx: nat,
) -> (((int, int, int), (int, int, int)), (int, int, int), nat) {
    let pick = sphere_pick_s(seed, idx, REJECT_BUDGET as nat);
    ((h.0, vadd_s(h.1, pick.0)), d.albedo@, pick.1)
}

impl Diffuse {
    /// Scatter an incoming ray at a hit point on a matte surface.
    pub fn scatter(&self, s: &mut Random, _ray: &Ray, hit_record: &HitRecord) -> (r: BSDFRecord)
        requires
            diffuse_ok_s(*self),
            hit_rec_ok(hit_record@),
        ensures
            seed_of(*final(s)) == seed_of(*old(s)),
            ((r.out.origin@, r.out.direction@), r.attenuation@, drawn_of(*final(s)))
                == diffuse_scatter_s(*self, hit_record@, seed_of(*old(s)), drawn_of(*old(s))),
            albedo_ok_s(r.attenuation@),
            r.out.origin@ == hit_record.p@,
            bounded3(r.out.direction@, 3_000_000),
    {
        let sample: Vec3 = sample_unit_sphere(s);
        let direction: Vec3 = vec_add(hit_record.normal, sample);
        BSDFRecord {
            out: Ray { origin: hit_record.p, direction },
            attenuation: self.albedo,
        }
    }
}

} // verus!
