//! Integrators: estimators of the radiance along a ray.
//!
//! The integrators form a closed set dispatched from the scene
//! description. Every integrator returns a color for every ray; rays that
//! leave the supported world volume are treated as escaped.

use crate::accel::{accel_arena_s, arena_ok_s, Accel};
use crate::fixed::{lemma_mul_fx_s_bound, lemma_mul_mag, mul_fx, mul_fx_s};
use crate::hittable::Textured;
use crate::material::albedo_ok_s;
use crate::ray::Ray;
use crate::sampler::random::{drawn_of, seed_of, Random};
use crate::vector::{bounded3, normalize_s, vec_normalize, Vec3};
use vstd::arithmetic::div_mod::lemma_fundamental_div_mod;
use vstd::prelude::*;

pub mod normal;
pub mod whitted;

pub use normal::Normal;
pub use whitted::Whitted;

verus! {

/// The gradient sky that escaped rays return: white blended toward grey by
/// the upward tilt of the (normalized) ray direction.
pub open spec fn gradient_s(dir: (int, int, int)) -> (int, int, int) {
    let unit = normalize_s(dir);
    let t = mul_fx_s(500_000, unit.1 + 1_000_000);
    let c = mul_fx_s(1_000_000, 1_000_000 - t) + mul_fx_s(700_000, t);
    (c, c, c)
}

/// The gradient color lies within `[0, 2]` in every channel: the blend of
/// white and grey cannot stray far even under fixed-point truncation.
proof fn lemma_gradient_channel_bounds(t: int)
    requires
        -500_001 <= t <= 1_500_001,
    ensures
        0 <= mul_fx_s(1_000_000, 1_000_000 - t) + mul_fx_s(700_000, t) <= 2_000_000,
{
    let w = mul_fx_s(1_000_000, 1_000_000 - t);
    let g = mul_fx_s(700_000, t);
    // w == 1_000_000 - t exactly.
    assert(w == 1_000_000 - t) by {
        let x = 1_000_000 - t;
        if x >= 0 {
            lemma_fundamental_div_mod(1_000_000 * x, 1_000_000);
            assert((1_000_000 * x) / 1_000_000int == x) by (nonlinear_arith);
        } else {
            assert((-(1_000_000 * x)) / 1_000_000int == -x) by (nonlinear_arith);
        }
    }
    // 700_000 * t is within one scale step of g * SCALE.
    let p = 700_000 * t;
    if p >= 0 {
        lemma_fundamental_div_mod(p, 1_000_000);
        assert(p - 1_000_000 < g * 1_000_000 <= p);
    } else {
        lemma_fundamental_div_mod(-p, 1_000_000);
        assert(p <= g * 1_000_000 < p + 1_000_000);
    }
    assert(0 <= (w + g) * 1_000_000 <= 2_000_000 * 1_000_000) by (nonlinear_arith)
        requires
            w == 1_000_000 - t,
            -500_001 <= t <= 1_500_001,
            700_000 * t - 1_000_000 <= g * 1_000_000 <= 700_000 * t + 1_000_000,
    ;
    assert(0 <= w + g <= 2_000_000) by (nonlinear_arith)
        requires
            0 <= (w + g) * 1_000_000 <= 2_000_000 * 1_000_000,
    ;
}

/// The background gradient for an escaped ray.
pub fn gradient(dir: Vec3) -> (r: Vec3)
    requires
        bounded3(dir@, 1_000_000_000),
    ensures
        r@ == gradient_s(dir@),
        0 <= r@.0 <= 2_000_000,
        0 <= r@.1 <= 2_000_000,
        0 <= r@.2 <= 2_000_000,
{
    let unit: Vec3 = vec_normalize(dir);
    proof {
        lemma_mul_mag(500_000, unit@.1 + 1_000_000, 500_000, 3_000_000);
        lemma_mul_fx_s_bound(500_000, unit@.1 + 1_000_000, 1_500_000);
    }
    let t: i64 = mul_fx(500_000, unit.y + 1_000_000);
    proof {
        lemma_mul_mag(1_000_000, 1_000_000 - t as int, 1_000_000, 2_500_000);
        lemma_mul_fx_s_bound(1_000_000, 1_000_000 - t as int, 2_500_000);
        lemma_mul_mag(700_000, t as int, 700_000, 1_500_000);
        lemma_mul_fx_s_bound(700_000, t as int, 1_050_000);
        lemma_gradient_channel_bounds(t as int);
    }
    let c: i64 = mul_fx(1_000_000, 1_000_000 - t) + mul_fx(700_000, t);
    Vec3 { x: c, y: c, z: c }
}

/// The different integrators a scene description can ask for.
#[derive(Clone, Copy, PartialEq, Eq, Structural, Debug)]
pub enum SerializedIntegrator {
    Normal(Normal),
    Whitted(Whitted),
}

/// What an integrator returns for a ray, and where it leaves the sampler
/// stream.
pub open spec fn integrator_render_s(
    i: SerializedIntegrator,
    objs: Seq<Textured>,
    bg: (int, int, int),
    rayv: ((int, int, int), (int, int, int)),
    seed: u64,
    idx: nat,
) -> ((int, int, int), nat) {
    match i {
        SerializedIntegrator::Normal(_) => (normal::normal_render_s(objs, bg, rayv), idx),
        SerializedIntegrator::Whitted(w) => whitted::whitted_render_s(
            w,
            objs,
            bg,
            rayv,
            seed,
            idx,
        ),
    }
}

impl SerializedIntegrator {
    /// Calculate the color value carried back along the given ray.
    pub fn render(&self, accel: &Accel, background: Vec3, origin: &Ray, sampler: &mut Random) -> (r:
        Vec3)
        requires
            arena_ok_s(accel_arena_s(*accel)),
            albedo_ok_s(background@),
            bounded3(origin.direction@, 1_000_000_000),
        ensures
            seed_of(*final(sampler)) == seed_of(*old(sampler)),
            (r@, drawn_of(*final(sampler))) == integrator_render_s(
                *self,
                accel_arena_s(*accel),
                background@,
                origin@,
                seed_of(*old(sampler)),
                drawn_of(*old(sampler)),
            ),
            bounded3(r@, 2_000_000),
    {
        match self {
            SerializedIntegrator::Normal(n) => n.render(accel, background, origin),
            SerializedIntegrator::Whitted(w) => w.render(accel, background, origin, sampler),
        }
    }
}

} // verus!
