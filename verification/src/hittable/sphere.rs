//! The sphere primitive.

use crate::fixed::{
    div_fx, div_fx_s, lemma_mul_fx_s_bound, lemma_mul_fx_s_range, lemma_mul_mag, lemma_mul_range,
    mul_fx, mul_fx_s, sqrt_fx, sqrt_fx_s,
};
use crate::hittable::{hit_rec_ok, opt_hit_view, HitRecord, COORD_MAX, DIST_MAX, HIT_N_MAX};
use crate::ray::{ray_ok_s, Ray};
use crate::vector::{
    bounded3, dot3_s, lemma_dot3_bound, lemma_mag2_component, lemma_sq_fx_nonneg, mag2_s, vadd_s,
    vec_add, vec_dot, vec_mag2, vec_scale, vec_sub, vscale_s, vsub_s, Vec3,
};
use vstd::prelude::*;

verus! {

/// A sphere primitive: a center point and a radius.
#[derive(Clone, Copy, PartialEq, Eq, Structural, Debug)]
pub struct Sphere {
    /// The center of the sphere in spatial coordinates.
    pub center: Vec3,
    /// The radius of the sphere.
    pub radius: i64,
}

/// A sphere whose coordinates the scene binding has checked: center within
/// the scene volume, radius of bounded magnitude. A non-positive radius is
/// accepted; such a degenerate sphere is never hit.
pub open spec fn sphere_ok_s(s: Sphere) -> bool {
    &&& bounded3(s.center@, COORD_MAX as int)
    &&& -(COORD_MAX as int) <= s.radius <= COORD_MAX as int
}

/// What `Sphere::hit` returns: the standard quadratic solution over the
/// fixed-point scalar, down to each truncation.
///
/// With `oc = origin - center`, the quadratic `a t^2 + b t + c = 0` has
/// `a = d . d`, `b = 2 (oc . d)`, `c = oc . oc - r^2`. A negative
/// discriminant is a miss; otherwise the smaller root is taken and rejected
/// when negative (behind the ray) or beyond the supported distance. The hit
/// point is `origin + t d` and the normal `(p - center) / r`; in the rare
/// case that truncation leaves that quotient outside the near-unit range
/// the hit is treated as degenerate and dropped.
pub open spec fn sphere_hit_s(s: Sphere, ray: Ray) -> Option<
    ((int, int, int), (int, int, int), int),
> {
    if s.radius <= 0 {
        None
    } else {
        let oc = vsub_s(ray.origin@, s.center@);
        let a = mag2_s(ray.direction@);
        let b = 2 * dot3_s(oc, ray.direction@);
        let c = mag2_s(oc) - mul_fx_s(s.radius as int, s.radius as int);
        let disc = mul_fx_s(b, b) - 4 * mul_fx_s(a, c);
        if disc < 0 {
            None
        } else {
            let sq = sqrt_fx_s(disc);
            let t = div_fx_s(-b - sq, 2 * a);
            if t < 0 || t > DIST_MAX as int {
                None
            } else {
                let p = vadd_s(ray.origin@, vscale_s(ray.direction@, t));
                let n = (
                    div_fx_s(p.0 - s.center@.0, s.radius as int),
                    div_fx_s(p.1 - s.center@.1, s.radius as int),
                    div_fx_s(p.2 - s.center@.2, s.radius as int),
                );
                if !bounded3(n, HIT_N_MAX as int) {
                    None
                } else {
                    Some((p, n, t))
                }
            }
        }
    }
}

impl Sphere {
    /// Whether the ray hits this sphere, and where: the closest intersection
    /// at a nonnegative ray parameter, if there is one.
    pub fn hit(&self, ray: &Ray) -> (r: Option<HitRecord>)
        requires
            ray_ok_s(ray@),
            sphere_ok_s(*self),
        ensures
            opt_hit_view(r) == sphere_hit_s(*self, *ray),
            r is Some ==> hit_rec_ok(r->Some_0@),
    {
        if self.radius <= 0 {
            return None;
        }
        let oc: Vec3 = vec_sub(ray.origin, self.center);
        proof {
            lemma_dot3_bound(ray.direction@, ray.direction@, 4_000_000, 4_000_000, 16_000_000);
            lemma_dot3_bound(oc@, ray.direction@, 110_000_000_000, 4_000_000, 440_000_000_000);
            lemma_dot3_bound(
                oc@,
                oc@,
                110_000_000_000,
                110_000_000_000,
                12_100_000_000_000_000,
            );
            lemma_mag2_component(oc@);
        }
        let a: i64 = vec_mag2(ray.direction);
        let dot_ocd: i64 = vec_dot(oc, ray.direction);
        let b: i64 = 2 * dot_ocd;
        let oc2: i64 = vec_mag2(oc);
        proof {
            lemma_mul_mag(self.radius as int, self.radius as int, 10_000_000_000, 10_000_000_000);
            lemma_mul_fx_s_bound(self.radius as int, self.radius as int, 100_000_000_000_000);
            lemma_sq_fx_nonneg(self.radius as int);
        }
        let r2: i64 = mul_fx(self.radius, self.radius);
        let c: i64 = oc2 - r2;
        proof {
            lemma_mul_mag(b as int, b as int, 2_640_000_000_000, 2_640_000_000_000);
            lemma_mul_fx_s_bound(b as int, b as int, 7_000_000_000_000_000_000);
            lemma_sq_fx_nonneg(b as int);
            lemma_mul_range(
                a as int,
                c as int,
                48_000_000,
                -100_000_000_000_000,
                36_300_000_000_000_000,
            );
            lemma_mul_fx_s_range(
                a as int,
                c as int,
                -4_800_000_000_000_000,
                1_750_000_000_000_000_000,
            );
        }
        let bb: i64 = mul_fx(b, b);
        let ac: i64 = mul_fx(a, c);
        let disc: i64 = bb - 4 * ac;

        // A negative discriminant means the ray misses the sphere entirely.
        if disc < 0 {
            return None;
        }
        let sq: i64 = sqrt_fx(disc);
        proof {
            assert(sq <= 2_650_000_000_000) by (nonlinear_arith)
                requires
                    0 <= sq,
                    (sq as int) * (sq as int) <= (disc as int) * 1_000_000,
                    disc <= 7_020_000_000_000_000_000,
            ;
        }
        let num: i64 = -b - sq;
        let twoa: i64 = 2 * a;
        let t: i64 = div_fx(num, twoa);

        // A collision cannot lie behind the ray, nor beyond the supported
        // distance range.
        if t < 0 || t > DIST_MAX {
            return None;
        }
        proof {
            lemma_mul_mag(ray.direction@.0, t as int, 4_000_000, 1_000_000_000_000);
            lemma_mul_mag(ray.direction@.1, t as int, 4_000_000, 1_000_000_000_000);
            lemma_mul_mag(ray.direction@.2, t as int, 4_000_000, 1_000_000_000_000);
            lemma_mul_fx_s_bound(ray.direction@.0, t as int, 4_000_000_000_000);
            lemma_mul_fx_s_bound(ray.direction@.1, t as int, 4_000_000_000_000);
            lemma_mul_fx_s_bound(ray.direction@.2, t as int, 4_000_000_000_000);
        }
        let scaled: Vec3 = vec_scale(ray.direction, t);
        let p: Vec3 = vec_add(ray.origin, scaled);
        let delta: Vec3 = vec_sub(p, self.center);
        let n = Vec3 {
            x: div_fx(delta.x, self.radius),
            y: div_fx(delta.y, self.radius),
            z: div_fx(delta.z, self.radius),
        };

        // Truncation on a degenerate configuration can leave the quotient
        // far from unit length; such a hit is dropped.
        if n.x < -HIT_N_MAX || n.x > HIT_N_MAX || n.y < -HIT_N_MAX || n.y > HIT_N_MAX || n.z
            < -HIT_N_MAX || n.z > HIT_N_MAX {
            return None;
        }
        Some(HitRecord { p, normal: n, distance: t })
    }
}

/// For every ray and every sphere, a reported hit lies at a nonnegative
/// distance within the supported range, and its normal is componentwise
/// near unit length.
pub proof fn lemma_sphere_hit_distance(s: Sphere, ray: Ray)
    ensures
        match sphere_hit_s(s, ray) {
            Some(h) => 0 <= h.2 <= DIST_MAX as int && bounded3(h.1, HIT_N_MAX as int),
            None => true,
        },
{
}

/// A reported sphere hit has strictly positive distance, except exactly
/// when the root of the quadratic lies within one scalar step of the ray
/// origin — the self-intersections that the acceleration layer's `ETA`
/// filter exists to reject.
pub proof fn lemma_sphere_hit_positive(s: Sphere, ray: Ray)
    requires
        mag2_s(ray.direction@) >= 1,
    ensures
        match sphere_hit_s(s, ray) {
            Some(h) => h.2 > 0 || ({
                let oc = vsub_s(ray.origin@, s.center@);
                let a = mag2_s(ray.direction@);
                let b = 2 * dot3_s(oc, ray.direction@);
                let c = mag2_s(oc) - mul_fx_s(s.radius as int, s.radius as int);
                let disc = mul_fx_s(b, b) - 4 * mul_fx_s(a, c);
                (-b - sqrt_fx_s(disc)) * 1_000_000 < 2 * a
            }),
            None => true,
        },
{
    if sphere_hit_s(s, ray) is Some {
        let oc = vsub_s(ray.origin@, s.center@);
        let a = mag2_s(ray.direction@);
        let b = 2 * dot3_s(oc, ray.direction@);
        let c = mag2_s(oc) - mul_fx_s(s.radius as int, s.radius as int);
        let disc = mul_fx_s(b, b) - 4 * mul_fx_s(a, c);
        let num = (-b - sqrt_fx_s(disc)) * 1_000_000;
        let t = crate::fixed::div_down(num, 2 * a);
        if t == 0 && num >= 0 {
            vstd::arithmetic::div_mod::lemma_small_div_converse(num, 2 * a);
        }
    }
}

} // verus!
