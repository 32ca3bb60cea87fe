//! The normal integrator: a diagnostic that paints surface normals.

use crate::accel::{accel_arena_s, arena_ok_s, collision_s, Accel, AccelRecord};
use crate::fixed::{lemma_mul_fx_s_bound, lemma_mul_mag, mul_fx, mul_fx_s};
use crate::hittable::Textured;
use crate::material::albedo_ok_s;
use crate::ray::{ray_of_s, ray_ok_s, Ray};
use crate::vector::{bounded3, Vec3};
use vstd::prelude::*;

verus! {

/// The parameters of the normal integrator; it has none.
#[derive(Clone, Copy, PartialEq, Eq, Structural, Debug)]
pub struct Normal {}

impl Default for Normal {
    fn default() -> (r: Normal) {
        Normal {  }
    }
}

/// What the normal integrator returns: the hit normal remapped from
/// `[-1, 1]` to `[0, 1]` componentwise, or the configured background when
/// the ray escapes (or leaves the supported volume).
pub open spec fn normal_render_s(
    objs: Seq<Textured>,
    bg: (int, int, int),
    rayv: ((int, int, int), (int, int, int)),
) -> (int, int, int) {
    if !ray_ok_s(rayv) {
        bg
    } else {
        match collision_s(objs, ray_of_s(rayv.0, rayv.1)) {
            Some(c) => (
                mul_fx_s(c.1.1.0, 500_000) + 500_000,
                mul_fx_s(c.1.1.1, 500_000) + 500_000,
                mul_fx_s(c.1.1.2, 500_000) + 500_000,
            ),
            None => bg,
        }
    }
}

impl Normal {
    /// Calculate the color for a ray: the remapped normal of the nearest
    /// hit, or the background.
    pub fn render(&self, accel: &Accel, background: Vec3, origin: &Ray) -> (r: Vec3)
        requires
            arena_ok_s(accel_arena_s(*accel)),
            albedo_ok_s(background@),
        ensures
            r@ == normal_render_s(accel_arena_s(*accel), background@, origin@),
            bounded3(r@, 2_000_000),
    {
        if !origin.is_supported() {
            return background;
        }
        proof {
            assert(ray_of_s(origin@.0, origin@.1) == *origin);
        }
        let hit: Option<AccelRecord> = accel.collision(origin);
        match hit {
            Some(rec) => {
                let n: Vec3 = rec.hit_record.normal;
                proof {
                    lemma_mul_mag(n@.0, 500_000, 2_000_000, 500_000);
                    lemma_mul_mag(n@.1, 500_000, 2_000_000, 500_000);
                    lemma_mul_mag(n@.2, 500_000, 2_000_000, 500_000);
                    lemma_mul_fx_s_bound(n@.0, 500_000, 1_000_000);
                    lemma_mul_fx_s_bound(n@.1, 500_000, 1_000_000);
                    lemma_mul_fx_s_bound(n@.2, 500_000, 1_000_000);
                }
                Vec3 {
                    x: mul_fx(n.x, 500_000) + 500_000,
                    y: mul_fx(n.y, 500_000) + 500_000,
                    z: mul_fx(n.z, 500_000) + 500_000,
                }
            },
            None => background,
        }
    }
}

} // verus!
