//! The Whitted integrator: the classic recursive ray-tracing estimator.

use crate::accel::{accel_arena_s, arena_ok_s, collision_s, Accel, AccelRecord};
use crate::fixed::{lemma_mul_fx_s_range, lemma_mul_range};
use crate::hittable::{textured_ok_s, Textured};
use crate::integrator::{gradient, gradient_s};
use crate::material::{albedo_ok_s, scatter_s, BSDFRecord};
use crate::ray::{ray_of_s, ray_ok_s, Ray};
use crate::sampler::random::{drawn_of, seed_of, Random};
use crate::vector::{bounded3, vec_elem_mul, velem_s, Vec3};
use vstd::prelude::*;

verus! {

/// The parameters of the Whitted integrator: the recursion limit for rays,
/// needed because a scene can reflect a ray forever.
#[derive(Clone, Copy, PartialEq, Eq, Structural, Debug)]
pub struct Whitted {
    /// The upper bound on the recursion depth of any traced ray.
    pub max_depth: u32,
}

impl Default for Whitted {
    /// Five bounces, the renderer's traditional default.
    fn default() -> (r: Whitted)
        ensures
            r.max_depth == 5,
    {
        Whitted { max_depth: 5 }
    }
}

/// What the Whitted recursion returns from a given depth, and where it
/// leaves the sampler stream.
///
/// A ray that escapes the scene — or leaves the supported world volume —
/// returns the gradient sky. A hit at the depth limit returns the
/// configured background; otherwise the hit's material scatters the ray,
/// the recursion continues at the next depth, and the recursive radiance
/// is attenuated componentwise. The recursion depth can therefore never
/// exceed `max_depth`.
pub open spec fn whitted_helper_s(
    objs: Seq<Textured>,
    bg: (int, int, int),
    max_depth: int,
    rayv: ((int, int, int), (int, int, int)),
    depth: int,
    seed: u64,
    idx: nat,
) -> ((int, int, int), nat)
    decreases max_depth - depth,
{
    if !ray_ok_s(rayv) {
        (gradient_s(rayv.1), idx)
    } else {
        match collision_s(objs, ray_of_s(rayv.0, rayv.1)) {
            Some(c) => {
                if depth >= max_depth {
                    (bg, idx)
                } else {
                    let sc = scatter_s(objs[c.0].mat, rayv.1, c.1, seed, idx);
                    let rec = whitted_helper_s(objs, bg, max_depth, sc.0, depth + 1, seed, sc.2);
                    (velem_s(sc.1, rec.0), rec.1)
                }
            },
            None => (gradient_s(rayv.1), idx),
        }
    }
}

/// The recursion cutoff: at or beyond the configured maximum depth the
/// estimator stops — a hit returns the configured background at once, an
/// escaped ray the gradient sky — and no further sampler values are
/// drawn. Together with the decreasing measure of `whitted_helper_s`,
/// this is the guarantee that the recursion depth never exceeds
/// `max_depth`.
pub proof fn lemma_whitted_depth_cap(
    objs: Seq<Textured>,
    bg: (int, int, int),
    max_depth: int,
    rayv: ((int, int, int), (int, int, int)),
    depth: int,
    seed: u64,
    idx: nat,
)
    requires
        depth >= max_depth,
    ensures
        whitted_helper_s(objs, bg, max_depth, rayv, depth, seed, idx) == if ray_ok_s(rayv)
            && collision_s(objs, ray_of_s(rayv.0, rayv.1)) is Some {
            (bg, idx)
        } else {
            (gradient_s(rayv.1), idx)
        },
{
}

/// What the Whitted integrator returns for a primary ray.
pub open spec fn whitted_render_s(
    w: Whitted,
    objs: Seq<Textured>,
    bg: (int, int, int),
    rayv: ((int, int, int), (int, int, int)),
    seed: u64,
    idx: nat,
) -> ((int, int, int), nat) {
    whitted_helper_s(objs, bg, w.max_depth as int, rayv, 0, seed, idx)
}

impl Whitted {
    /// Calculate the color for a primary ray.
    pub fn render(&self, accel: &Accel, background: Vec3, origin: &Ray, sampler: &mut Random) -> (r:
        Vec3)
        requires
            arena_ok_s(accel_arena_s(*accel)),
            albedo_ok_s(background@),
            bounded3(origin.direction@, 1_000_000_000),
        ensures
            seed_of(*final(sampler)) == seed_of(*old(sampler)),
            (r@, drawn_of(*final(sampler))) == whitted_render_s(
                *self,
                accel_arena_s(*accel),
                background@,
                origin@,
                seed_of(*old(sampler)),
                drawn_of(*old(sampler)),
            ),
            0 <= r@.0 <= 2_000_000 && 0 <= r@.1 <= 2_000_000 && 0 <= r@.2 <= 2_000_000,
    {
        self.render_helper(accel, background, origin, sampler, 0)
    }

    /// The recursive helper of the Whitted integrator: the depth counter
    /// tracks how many bounces the ray has taken, and the `decreases`
    /// measure guarantees the recursion never exceeds `max_depth`.
    pub fn render_helper(
        &self,
        accel: &Accel,
        background: Vec3,
        ray: &Ray,
        sampler: &mut Random,
        depth: u32,
    ) -> (r: Vec3)
        requires
            arena_ok_s(accel_arena_s(*accel)),
            albedo_ok_s(background@),
            bounded3(ray.direction@, 1_000_000_000),
            depth <= self.max_depth,
        ensures
            seed_of(*final(sampler)) == seed_of(*old(sampler)),
            (r@, drawn_of(*final(sampler))) == whitted_helper_s(
                accel_arena_s(*accel),
                background@,
                self.max_depth as int,
                ray@,
                depth as int,
                seed_of(*old(sampler)),
                drawn_of(*old(sampler)),
            ),
            0 <= r@.0 <= 2_000_000 && 0 <= r@.1 <= 2_000_000 && 0 <= r@.2 <= 2_000_000,
        decreases self.max_depth - depth,
    {
        if !ray.is_supported() {
            return gradient(ray.direction);
        }
        proof {
            assert(ray_of_s(ray@.0, ray@.1) == *ray);
        }
        let hit: Option<AccelRecord> = accel.collision(ray);
        match hit {
            Some(collision) => {
                if depth >= self.max_depth {
                    return background;
                }
                let obj: &Textured = accel.object_at(collision.object);
                proof {
                    assert(textured_ok_s(accel_arena_s(*accel)[collision.object as int]));
                }
                let bsdf_record: BSDFRecord = obj.mat.scatter(
                    sampler,
                    ray,
                    &collision.hit_record,
                );
                let recursive_color: Vec3 = self.render_helper(
                    accel,
                    background,
                    &bsdf_record.out,
                    sampler,
                    depth + 1,
                );
                proof {
                    lemma_mul_range(
                        bsdf_record.attenuation@.0,
                        recursive_color@.0,
                        1_000_000,
                        0,
                        2_000_000,
                    );
                    lemma_mul_range(
                        bsdf_record.attenuation@.1,
                        recursive_color@.1,
                        1_000_000,
                        0,
                        2_000_000,
                    );
                    lemma_mul_range(
                        bsdf_record.attenuation@.2,
                        recursive_color@.2,
                        1_000_000,
                        0,
                        2_000_000,
                    );
                    lemma_mul_fx_s_range(bsdf_record.attenuation@.0, recursive_color@.0, 0, 2_000_000);
                    lemma_mul_fx_s_range(bsdf_record.attenuation@.1, recursive_color@.1, 0, 2_000_000);
                    lemma_mul_fx_s_range(bsdf_record.attenuation@.2, recursive_color@.2, 0, 2_000_000);
                }
                vec_elem_mul(bsdf_record.attenuation, recursive_color)
            },
            None => gradient(ray.direction),
        }
    }
}

} // verus!
