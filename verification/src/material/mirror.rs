//! A mirror material: reflective, with an optional fuzzy perturbation.

use crate::fixed::{lemma_mul_fx_s_bound, lemma_mul_mag};
use crate::hittable::{hit_rec_ok, HitRecord};
use crate::material::{albedo_ok_s, BSDFRecord};
use crate::math::{mirror_s, mirror};
use crate::ray::Ray;
use crate::sampler::primitives::{sample_unit_sphere, sphere_pick_s, REJECT_BUDGET};
use crate::sampler::random::{drawn_of, seed_of, Random};
use crate::vector::{
    bounded3, dot3_s, lemma_dot3_bound, mag2_s, normalize_s, vadd_s, vec_add, vec_dot,
    vec_normalize, vec_scale, vscale_s, Vec3,
};
use vstd::prelude::*;

verus! {

/// A mirror surface: incoming rays are reflected about the surface normal,
/// optionally perturbed for fuzzy reflections.
#[derive(Clone, Copy, PartialEq, Eq, Structural, Debug)]
pub struct Mirror {
    /// The perturbation factor of the surface, in `[0, 1]`: zero is a
    /// perfect mirror, one gives very fuzzy reflections.
    pub perturbation: i64,
    /// The color of the mirror surface; a plain mirror is white.
    pub albedo: Vec3,
}

/// A mirror material with its albedo and perturbation in range.
pub open spec fn mirror_ok_s(m: Mirror) -> bool {
    &&& albedo_ok_s(m.albedo@)
    &&& 0 <= m.perturbation <= 1_000_000
}

impl Default for Mirror {
    /// A perfect, white mirror.
    fn default() -> (r: Mirror)
        ensures
            r.perturbation == 0,
            r.albedo@ == (1_000_000int, 1_000_000int, 1_000_000int),
            mirror_ok_s(r),
    {
        Mirror { perturbation: 0, albedo: Vec3 { x: 1_000_000, y: 1_000_000, z: 1_000_000 } }
    }
}

/// What scattering off a mirror returns: the reflected direction, perturbed
/// by a scaled unit-sphere sample and normalized; the attenuation is the
/// albedo when the outgoing direction leaves the surface and black when it
/// points into it (the ray is absorbed).
pub open spec fn mirror_scatter_s(
    m: Mirror,
    rd: (int, int, int),
    h: ((int, int, int), (int, int, int), int),
    seed: u64,
    idx: nat,
) -> (((int, int, int), (int, int, int)), (int, int, int), nat) {
    let md = mirror_s(rd, h.1);
    let pick = sphere_pick_s(seed, idx, REJECT_BUDGET as nat);
    let dir = normalize_s(vadd_s(md, vscale_s(pick.0, m.perturbation as int)));
    let att = if dot3_s(h.1, dir) > 0 {
        m.albedo@
    } else {
        (0int, 0int, 0int)
    };
    ((h.0, dir), att, pick.1)
}

/// The reflection law at zero perturbation: with no fuzz, the mirror's
/// outgoing direction is exactly the normalized reflection
/// `normalize(d - 2 (d . n) n)`, whatever the sampler draws, and the ray
/// leaves from the hit point.
pub proof fn lemma_mirror_zero_perturbation(
    m: Mirror,
    rd: (int, int, int),
    h: ((int, int, int), (int, int, int), int),
    seed: u64,
    idx: nat,
)
    requires
        m.perturbation == 0,
    ensures
        mirror_scatter_s(m, rd, h, seed, idx).0.1 == normalize_s(mirror_s(rd, h.1)),
        mirror_scatter_s(m, rd, h, seed, idx).0.0 == h.0,
{
    let pick = sphere_pick_s(seed, idx, REJECT_BUDGET as nat);
    crate::math::lemma_mul_fx_unit(pick.0.0);
    crate::math::lemma_mul_fx_unit(pick.0.1);
    crate::math::lemma_mul_fx_unit(pick.0.2);
    assert(vscale_s(pick.0, 0) == (0int, 0int, 0int));
    assert(vadd_s(mirror_s(rd, h.1), (0int, 0int, 0int)) == mirror_s(rd, h.1));
}

/// The reflection law at the material level: a perfect (zero-perturbation)
/// mirror on a near-unit normal, approached with more than a sliver of
/// grazing margin, reflects the ray to exactly the normalized
/// `d - 2 (d . n) n`, the outgoing direction leaves the surface, and the
/// attenuation is the mirror's albedo.
pub proof fn lemma_mirror_scatter_law(
    m: Mirror,
    rd: (int, int, int),
    h: ((int, int, int), (int, int, int), int),
    seed: u64,
    idx: nat,
)
    requires
        m.perturbation == 0,
        bounded3(rd, 4_000_000),
        bounded3(h.1, 2_000_000),
        1_000_000 - 8 <= mag2_s(h.1) <= 1_000_000 + 18,
        dot3_s(rd, h.1) <= -2_000,
    ensures
        mirror_scatter_s(m, rd, h, seed, idx).0.1 == normalize_s(mirror_s(rd, h.1)),
        dot3_s(mirror_scatter_s(m, rd, h, seed, idx).0.1, h.1) > 0,
        mirror_scatter_s(m, rd, h, seed, idx).1 == m.albedo@,
        mirror_scatter_s(m, rd, h, seed, idx).0.0 == h.0,
{
    lemma_mirror_zero_perturbation(m, rd, h, seed, idx);
    crate::math::lemma_mirror_normalized_faces_out(rd, h.1);
    let dir = mirror_scatter_s(m, rd, h, seed, idx).0.1;
    assert(dot3_s(h.1, dir) == dot3_s(dir, h.1)) by {
        assert(h.1.0 * dir.0 == dir.0 * h.1.0) by (nonlinear_arith);
        assert(h.1.1 * dir.1 == dir.1 * h.1.1) by (nonlinear_arith);
        assert(h.1.2 * dir.2 == dir.2 * h.1.2) by (nonlinear_arith);
    }
}

impl Mirror {
    /// Scatter an incoming ray at a hit point on a mirror surface.
    pub fn scatter(&self, s: &mut Random, ray: &Ray, hit_record: &HitRecord) -> (r: BSDFRecord)
        requires
            mirror_ok_s(*self),
            bounded3(ray.direction@, 4_000_000),
            hit_rec_ok(hit_record@),
        ensures
            seed_of(*final(s)) == seed_of(*old(s)),
            ((r.out.origin@, r.out.direction@), r.attenuation@, drawn_of(*final(s)))
                == mirror_scatter_s(
                *self,
                ray.direction@,
                hit_record@,
                seed_of(*old(s)),
                drawn_of(*old(s)),
            ),
            albedo_ok_s(r.attenuation@),
            r.out.origin@ == hit_record.p@,
            bounded3(r.out.direction@, 2_000_000),
    {
        let mirror_direction: Vec3 = mirror(&ray.direction, &hit_record.normal);
        let sample: Vec3 = sample_unit_sphere(s);
        proof {
            lemma_mul_mag(sample@.0, self.perturbation as int, 1_000_000, 1_000_000);
            lemma_mul_mag(sample@.1, self.perturbation as int, 1_000_000, 1_000_000);
            lemma_mul_mag(sample@.2, self.perturbation as int, 1_000_000, 1_000_000);
            lemma_mul_fx_s_bound(sample@.0, self.perturbation as int, 1_000_000);
            lemma_mul_fx_s_bound(sample@.1, self.perturbation as int, 1_000_000);
            lemma_mul_fx_s_bound(sample@.2, self.perturbation as int, 1_000_000);
        }
        let perturbed: Vec3 = vec_scale(sample, self.perturbation);
        let direction: Vec3 = vec_normalize(vec_add(mirror_direction, perturbed));
        proof {
            lemma_dot3_bound(hit_record.normal@, direction@, 2_000_000, 2_000_000, 4_000_000);
        }
        let facing: i64 = vec_dot(hit_record.normal, direction);
        let attenuation: Vec3 = if facing > 0 {
            self.albedo
        } else {
            Vec3 { x: 0, y: 0, z: 0 }
        };
        BSDFRecord { out: Ray { origin: hit_record.p, direction }, attenuation }
    }
}

} // verus!
