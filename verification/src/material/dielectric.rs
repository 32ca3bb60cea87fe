//! A dielectric material: glass-like, refracting or reflecting by the
//! Fresnel factor.

use crate::fixed::{
    div_fx, div_fx_s, lemma_div_fx_mag_denom, lemma_mul_fx_s_bound, lemma_mul_mag, mul_fx,
    mul_fx_s, sqrt_fx, sqrt_fx_s,
};
use crate::hittable::{hit_rec_ok, HitRecord};
use crate::material::{albedo_ok_s, BSDFRecord};
use crate::math::{mirror, mirror_s, schlick, schlick_s};
use crate::ray::Ray;
use crate::sampler::random::{drawn_of, seed_of, stream_fx, Random};
use crate::vector::{
    bounded3, dot3_s, lemma_dot3_bound, lemma_sq_fx_nonneg, mag2_s, mag_s, normalize_s, vec_dot,
    vec_mag2, vec_neg, vec_normalize, vec_scale, vec_sub, vneg_s, vscale_s, vsub_s, Vec3,
};
use vstd::prelude::*;

verus! {

/// A perfectly smooth dielectric, parameterized by its refraction index.
#[derive(Clone, Copy, PartialEq, Eq, Structural, Debug)]
pub struct Dielectric {
    /// The refraction index of the material, in `[1, 5]`.
    pub refraction_index: i64,
    /// The tint of the material; white by default.
    pub albedo: Vec3,
}

/// A dielectric with a valid tint and a physical refraction index: at
/// least one (vacuum), at most five (beyond the densest optical media).
/// The upper bound also keeps the Fresnel and refraction arithmetic
/// within the 64-bit scalar.
pub open spec fn dielectric_ok_s(d: Dielectric) -> bool {
    &&& albedo_ok_s(d.albedo@)
    &&& 1_000_000 <= d.refraction_index <= 5_000_000
}

/// The default albedo of a dielectric: pure white.
pub fn default_albedo() -> (r: Vec3)
    ensures
        r@ == (1_000_000int, 1_000_000int, 1_000_000int),
{
    Vec3 { x: 1_000_000, y: 1_000_000, z: 1_000_000 }
}

impl Default for Dielectric {
    /// A vacuum-like dielectric: refraction index one, white tint.
    fn default() -> (r: Dielectric)
        ensures
            r.refraction_index == 1_000_000,
            r.albedo@ == (1_000_000int, 1_000_000int, 1_000_000int),
            dielectric_ok_s(r),
    {
        Dielectric { refraction_index: 1_000_000, albedo: default_albedo() }
    }
}

/// What the refraction predicate returns: the refracted direction by
/// Snell's law when the discriminant is positive, or nothing under total
/// internal reflection.
pub open spec fn refract_s(v: (int, int, int), n: (int, int, int), ni_over_nt: int) -> Option<
    (int, int, int),
> {
    let uv = normalize_s(v);
    let dt = dot3_s(uv, n);
    let disc = 1_000_000 - mul_fx_s(
        mul_fx_s(ni_over_nt, ni_over_nt),
        1_000_000 - mul_fx_s(dt, dt),
    );
    if disc > 0 {
        Some(
            vscale_s(
                vsub_s(vsub_s(uv, vscale_s(n, dt)), vscale_s(n, sqrt_fx_s(disc))),
                ni_over_nt,
            ),
        )
    } else {
        None
    }
}

/// Determine whether a ray refracts, and along which direction.
fn refract(v: &Vec3, n: &Vec3, ni_over_nt: i64) -> (r: Option<Vec3>)
    requires
        bounded3(v@, 4_000_000),
        bounded3(n@, 2_000_000),
        0 <= ni_over_nt <= 5_000_000,
    ensures
        match r {
            Some(d) => refract_s(v@, n@, ni_over_nt as int) == Some(d@) && bounded3(
                d@,
                800_000_000,
            ),
            None => refract_s(v@, n@, ni_over_nt as int) is None,
        },
{
    let uv: Vec3 = vec_normalize(*v);
    proof {
        lemma_dot3_bound(uv@, n@, 2_000_000, 2_000_000, 4_000_000);
    }
    let dt: i64 = vec_dot(uv, *n);
    proof {
        lemma_mul_mag(ni_over_nt as int, ni_over_nt as int, 5_000_000, 5_000_000);
        lemma_mul_fx_s_bound(ni_over_nt as int, ni_over_nt as int, 25_000_000);
        lemma_sq_fx_nonneg(ni_over_nt as int);
        lemma_mul_mag(dt as int, dt as int, 12_000_000, 12_000_000);
        lemma_mul_fx_s_bound(dt as int, dt as int, 144_000_000);
        lemma_sq_fx_nonneg(dt as int);
    }
    let nini: i64 = mul_fx(ni_over_nt, ni_over_nt);
    let dtdt: i64 = mul_fx(dt, dt);
    let inner: i64 = 1_000_000 - dtdt;
    proof {
        lemma_mul_mag(nini as int, inner as int, 25_000_000, 150_000_000);
        lemma_mul_fx_s_bound(nini as int, inner as int, 3_750_000_000);
    }
    let m: i64 = mul_fx(nini, inner);
    let disc: i64 = 1_000_000 - m;
    if disc > 0 {
        let sq: i64 = sqrt_fx(disc);
        proof {
            assert(sq <= 62_000_000) by (nonlinear_arith)
                requires
                    0 <= sq,
                    (sq as int) * (sq as int) <= (disc as int) * 1_000_000,
                    disc <= 3_751_000_000,
            ;
            lemma_mul_mag(n@.0, dt as int, 2_000_000, 12_000_000);
            lemma_mul_mag(n@.1, dt as int, 2_000_000, 12_000_000);
            lemma_mul_mag(n@.2, dt as int, 2_000_000, 12_000_000);
            lemma_mul_fx_s_bound(n@.0, dt as int, 24_000_000);
            lemma_mul_fx_s_bound(n@.1, dt as int, 24_000_000);
            lemma_mul_fx_s_bound(n@.2, dt as int, 24_000_000);
            lemma_mul_mag(n@.0, sq as int, 2_000_000, 62_000_000);
            lemma_mul_mag(n@.1, sq as int, 2_000_000, 62_000_000);
            lemma_mul_mag(n@.2, sq as int, 2_000_000, 62_000_000);
            lemma_mul_fx_s_bound(n@.0, sq as int, 124_000_000);
            lemma_mul_fx_s_bound(n@.1, sq as int, 124_000_000);
            lemma_mul_fx_s_bound(n@.2, sq as int, 124_000_000);
        }
        let ndt: Vec3 = vec_scale(*n, dt);
        let a1: Vec3 = vec_sub(uv, ndt);
        let nsq: Vec3 = vec_scale(*n, sq);
        let a2: Vec3 = vec_sub(a1, nsq);
        proof {
            lemma_mul_mag(a2@.0, ni_over_nt as int, 151_000_000, 5_000_000);
            lemma_mul_mag(a2@.1, ni_over_nt as int, 151_000_000, 5_000_000);
            lemma_mul_mag(a2@.2, ni_over_nt as int, 151_000_000, 5_000_000);
            lemma_mul_fx_s_bound(a2@.0, ni_over_nt as int, 755_000_000);
            lemma_mul_fx_s_bound(a2@.1, ni_over_nt as int, 755_000_000);
            lemma_mul_fx_s_bound(a2@.2, ni_over_nt as int, 755_000_000);
        }
        Some(vec_scale(a2, ni_over_nt))
    } else {
        None
    }
}

/// What scattering through a dielectric returns. The refraction geometry
/// follows Snell's law; when refraction is possible the Fresnel factor
/// (Schlick's approximation) decides stochastically between reflecting and
/// refracting, and total internal reflection always reflects (drawing no
/// sample). The attenuation is the material's tint.
pub open spec fn dielectric_scatter_s(
    d: Dielectric,
    rd: (int, int, int),
    h: ((int, int, int), (int, int, int), int),
    seed: u64,
    idx: nat,
) -> (((int, int, int), (int, int, int)), (int, int, int), nat) {
    let ri = d.refraction_index as int;
    let refl = mirror_s(rd, h.1);
    let dn = dot3_s(rd, h.1);
    let magd = mag_s(rd);
    let c0 = div_fx_s(mul_fx_s(ri, dn), magd);
    let outward = if dn > 0 {
        vneg_s(h.1)
    } else {
        h.1
    };
    let ni = if dn > 0 {
        ri
    } else {
        div_fx_s(1_000_000, ri)
    };
    let cosine = if dn > 0 {
        c0
    } else {
        -c0
    };
    match refract_s(rd, outward, ni) {
        Some(refr) => {
            let prob = schlick_s(cosine, ri);
            if stream_fx(seed, idx) < prob {
                ((h.0, refl), d.albedo@, (idx + 1) as nat)
            } else {
                ((h.0, refr), d.albedo@, (idx + 1) as nat)
            }
        },
        None => ((h.0, refl), d.albedo@, idx),
    }
}

impl Dielectric {
    /// Scatter an incoming ray through a glass-like surface.
    pub fn scatter(&self, s: &mut Random, ray: &Ray, hit_record: &HitRecord) -> (r: BSDFRecord)
        requires
            dielectric_ok_s(*self),
            bounded3(ray.direction@, 4_000_000),
            mag2_s(ray.direction@) >= 500_000,
            hit_rec_ok(hit_record@),
        ensures
            seed_of(*final(s)) == seed_of(*old(s)),
            ((r.out.origin@, r.out.direction@), r.attenuation@, drawn_of(*final(s)))
                == dielectric_scatter_s(
                *self,
                ray.direction@,
                hit_record@,
                seed_of(*old(s)),
                drawn_of(*old(s)),
            ),
            albedo_ok_s(r.attenuation@),
            r.out.origin@ == hit_record.p@,
            bounded3(r.out.direction@, 800_000_000),
    {
        let ri: i64 = self.refraction_index;
        let reflection_vector: Vec3 = mirror(&ray.direction, &hit_record.normal);
        proof {
            lemma_dot3_bound(ray.direction@, hit_record.normal@, 4_000_000, 2_000_000, 8_000_000);
        }
        let dn: i64 = vec_dot(ray.direction, hit_record.normal);
        let mag2d: i64 = vec_mag2(ray.direction);
        let magd: i64 = sqrt_fx(mag2d);
        proof {
            assert(magd >= 700_000) by (nonlinear_arith)
                requires
                    0 <= magd,
                    (mag2d as int) * 1_000_000 < ((magd + 1) as int) * ((magd + 1) as int),
                    mag2d >= 500_000,
            ;
            lemma_mul_mag(ri as int, dn as int, 5_000_000, 24_000_000);
            lemma_mul_fx_s_bound(ri as int, dn as int, 120_000_000);
        }
        let c1: i64 = mul_fx(ri, dn);
        proof {
            lemma_div_fx_mag_denom(c1 as int, magd as int, 120_000_000_000_000, 700_000);
        }
        let c0: i64 = div_fx(c1, magd);
        let outward: Vec3 = if dn > 0 {
            vec_neg(hit_record.normal)
        } else {
            hit_record.normal
        };
        let ni: i64 = if dn > 0 {
            ri
        } else {
            proof {
                lemma_div_fx_mag_denom(1_000_000, ri as int, 1_000_000_000_000, 1_000_000);
                vstd::arithmetic::div_mod::lemma_div_pos_is_pos(1_000_000_000_000, ri as int);
            }
            div_fx(1_000_000, ri)
        };
        let cosine: i64 = if dn > 0 {
            c0
        } else {
            -c0
        };
        let outgoing: Vec3 = match refract(&ray.direction, &outward, ni) {
            Some(refracted) => {
                let reflection_prob: i64 = schlick(cosine, ri);
                let draw: i64 = s.next_fx();
                if draw < reflection_prob {
                    reflection_vector
                } else {
                    refracted
                }
            },
            None => reflection_vector,
        };
        BSDFRecord {
            out: Ray { origin: hit_record.p, direction: outgoing },
            attenuation: self.albedo,
        }
    }
}

} // verus!
