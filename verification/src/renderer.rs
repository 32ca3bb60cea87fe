//! The renderer driver: iterate the pixels, supersample each one, average
//! the sampled radiance.
//!
//! The driver here walks the pixels in order with one sampler stream, so
//! the whole buffer is a function of the scene and the seed alone. A
//! parallel front end can instead give each worker its own seeded sampler
//! and call `render_pixel` for the pixels of its share.

use crate::accel::{accel_arena_s, arena_ok_s, Accel};
use crate::camera::{camera_ok_s, camera_to_ray_s, Camera};
use crate::fixed::{div_down, div_trunc};
use crate::hittable::Textured;
use crate::integrator::{integrator_render_s, SerializedIntegrator};
use crate::material::albedo_ok_s;
use crate::ray::Ray;
use crate::sampler::random::{drawn_of, seed_of, stream_fx, Random};
use crate::vector::{bounded3, vadd_s, vec_add, Vec3};
use vstd::arithmetic::div_mod::{lemma_div_is_ordered, lemma_div_pos_is_pos};
use vstd::prelude::*;

verus! {

/// The scene arena: the immutable set of textured objects.
pub type Arena = Vec<Textured>;

/// The seed of the default render stream.
pub const DEFAULT_SEED: u64 = 42;

/// All of the information required for generating an image from a scene.
#[derive(Clone, PartialEq, Eq, Debug)]
pub struct Renderer {
    /// The acceleration structure, holding the scene arena.
    pub accel: Accel,
    /// The camera that turns pixel coordinates into primary rays.
    pub camera: Camera,
    /// The background color returned at the recursion cutoff.
    pub background: Vec3,
    /// How many supersamples are averaged into each pixel.
    pub samples_per_pixel: u32,
    /// The integrator that estimates the radiance along a ray.
    pub integrator: SerializedIntegrator,
    /// The vertical resolution, in pixels.
    pub height: u32,
    /// The horizontal resolution, in pixels.
    pub width: u32,
}

/// A renderer the driver can run: a checked arena and camera, a background
/// within `[0, 1]`, and resolutions and sample counts within the supported
/// ranges.
pub open spec fn renderer_ok_s(r: Renderer) -> bool {
    &&& arena_ok_s(accel_arena_s(r.accel))
    &&& camera_ok_s(r.camera)
    &&& albedo_ok_s(r.background@)
    &&& 1 <= r.samples_per_pixel <= 100_000
    &&& 1 <= r.height <= 65_535
    &&& 1 <= r.width <= 65_535
}

/// The radiance accumulated over the first `s` supersamples of the pixel
/// at `(x, y)`, and where the sampler stream is left. Each sample draws
/// two values to jitter the pixel coordinates, asks the camera for the
/// ray, and evaluates the integrator.
pub open spec fn sample_loop_s(r: Renderer, x: int, y: int, s: int, seed: u64, idx: nat) -> (
    (int, int, int),
    nat,
)
    decreases s,
{
    if s <= 0 {
        ((0int, 0int, 0int), idx)
    } else {
        let prev = sample_loop_s(r, x, y, s - 1, seed, idx);
        let su = stream_fx(seed, prev.1);
        let sv = stream_fx(seed, (prev.1 + 1) as nat);
        let u = (x * 1_000_000 + su) / (r.width as int);
        let v = (y * 1_000_000 + sv) / (r.height as int);
        let cam = camera_to_ray_s(r.camera, u, v, seed, (prev.1 + 2) as nat);
        let col = integrator_render_s(
            r.integrator,
            accel_arena_s(r.accel),
            r.background@,
            cam.0,
            seed,
            cam.1,
        );
        (vadd_s(prev.0, col.0), col.1)
    }
}

/// The value of pixel `i` of the buffer and where it leaves the stream:
/// the accumulated radiance divided by the sample count. The image-plane
/// `y` is flipped so that row zero is the top of the frame.
pub open spec fn pixel_color_s(r: Renderer, i: int, seed: u64, idx: nat) -> ((int, int, int), nat) {
    let x = i % (r.width as int);
    let y = (r.height as int) - i / (r.width as int);
    let acc = sample_loop_s(r, x, y, r.samples_per_pixel as int, seed, idx);
    (
        (
            div_down(acc.0.0, r.samples_per_pixel as int),
            div_down(acc.0.1, r.samples_per_pixel as int),
            div_down(acc.0.2, r.samples_per_pixel as int),
        ),
        acc.1,
    )
}

/// The first `n` pixels of the render, from one stream started at zero.
pub open spec fn render_upto_s(r: Renderer, n: int, seed: u64) -> (Seq<(int, int, int)>, nat)
    decreases n,
{
    if n <= 0 {
        (Seq::empty(), 0nat)
    } else {
        let prev = render_upto_s(r, n - 1, seed);
        let px = pixel_color_s(r, n - 1, seed, prev.1);
        (prev.0.push(px.0), px.1)
    }
}

/// The whole rendered buffer, row major, as a function of the scene and
/// the seed alone.
pub open spec fn render_s(r: Renderer, seed: u64) -> Seq<(int, int, int)> {
    render_upto_s(r, (r.width as int) * (r.height as int), seed).0
}

/// The views of a buffer of pixels.
pub open spec fn buffer_view(v: Seq<Vec3>) -> Seq<(int, int, int)> {
    v.map_values(|p: Vec3| p@)
}

/// Determinism: the rendered buffer is a function of the scene and the
/// seed alone, so two renders of one scene from one seed produce
/// identical buffers.
pub proof fn lemma_render_deterministic(
    r: Renderer,
    seed: u64,
    b1: Seq<(int, int, int)>,
    b2: Seq<(int, int, int)>,
)
    requires
        b1 == render_s(r, seed),
        b2 == render_s(r, seed),
    ensures
        b1 == b2,
{
}

/// Averaging a bounded accumulator over its sample count keeps the bound.
proof fn lemma_avg_bound(c: int, n: int)
    requires
        1 <= n,
        -(2_000_000 * n) <= c <= 2_000_000 * n,
    ensures
        -2_000_000 <= div_down(c, n) <= 2_000_000,
{
    assert((2_000_000 * n) / n == 2_000_000) by (nonlinear_arith)
        requires
            1 <= n,
    ;
    if c >= 0 {
        lemma_div_pos_is_pos(c, n);
        lemma_div_is_ordered(c, 2_000_000 * n, n);
    } else {
        lemma_div_pos_is_pos(-c, n);
        lemma_div_is_ordered(-c, 2_000_000 * n, n);
    }
}

impl Renderer {
    /// Compute the color of pixel `i` with the given sampler. The pixel's
    /// value and the advance of the sampler stream are exactly those of
    /// the sequential driver at this pixel.
    #[verifier::rlimit(60)]
    pub fn render_pixel(&self, i: usize, sampler: &mut Random) -> (r: Vec3)
        requires
            renderer_ok_s(*self),
            i < (self.width as int) * (self.height as int),
        ensures
            seed_of(*final(sampler)) == seed_of(*old(sampler)),
            (r@, drawn_of(*final(sampler))) == pixel_color_s(
                *self,
                i as int,
                seed_of(*old(sampler)),
                drawn_of(*old(sampler)),
            ),
            bounded3(r@, 2_000_000),
    {
        let w: usize = self.width as usize;
        let x: usize = i % w;
        proof {
            assert(x < w) by {
                vstd::arithmetic::div_mod::lemma_mod_bound(i as int, w as int);
            }
            assert((i as int) <= (self.height as int) * (w as int) - 1) by (nonlinear_arith)
                requires
                    (i as int) < (self.width as int) * (self.height as int),
                    w as int == self.width as int,
            ;
            lemma_div_is_ordered(i as int, (self.height as int) * (w as int) - 1, w as int);
            assert(((self.height as int) * (w as int) - 1) / (w as int) == self.height as int - 1)
                by (nonlinear_arith)
                requires
                    1 <= w as int,
                    1 <= self.height as int,
            ;
            lemma_div_pos_is_pos(i as int, w as int);
        }
        let y: usize = (self.height as usize) - i / w;
        let mut acc: Vec3 = Vec3 { x: 0, y: 0, z: 0 };
        let mut s: u32 = 0;
        proof {
            assert(crate::fixed::mul_fx_s(0, 0) == 0);
        }
        while s < self.samples_per_pixel
            invariant
                s <= self.samples_per_pixel,
                renderer_ok_s(*self),
                x < self.width,
                0 <= y <= self.height,
                seed_of(*sampler) == seed_of(*old(sampler)),
                (acc@, drawn_of(*sampler)) == sample_loop_s(
                    *self,
                    x as int,
                    y as int,
                    s as int,
                    seed_of(*old(sampler)),
                    drawn_of(*old(sampler)),
                ),
                bounded3(acc@, 2_000_000 * (s as int)),
            decreases self.samples_per_pixel - s,
        {
            let su: i64 = sampler.next_fx();
            let sv: i64 = sampler.next_fx();
            let un: i64 = (x as i64) * 1_000_000 + su;
            let vn: i64 = (y as i64) * 1_000_000 + sv;
            proof {
                lemma_div_pos_is_pos(un as int, self.width as int);
                lemma_div_pos_is_pos(vn as int, self.height as int);
                lemma_div_is_ordered(
                    un as int,
                    (self.width as int) * 1_000_000 - 1,
                    self.width as int,
                );
                assert(((self.width as int) * 1_000_000 - 1) / (self.width as int) <= 1_000_000)
                    by (nonlinear_arith)
                    requires
                        1 <= self.width as int,
                ;
                lemma_div_is_ordered(
                    vn as int,
                    (self.height as int) * 2_000_000 - 1,
                    self.height as int,
                );
                assert(((self.height as int) * 2_000_000 - 1) / (self.height as int) <= 2_000_000)
                    by (nonlinear_arith)
                    requires
                        1 <= self.height as int,
                ;
                assert(vn as int <= (self.height as int) * 2_000_000 - 1) by (nonlinear_arith)
                    requires
                        vn as int <= (self.height as int) * 1_000_000 + 1_000_000 - 1,
                        1 <= self.height as int,
                ;
            }
            let u: i64 = crate::fixed::div_pos(un, self.width as i64);
            let v: i64 = crate::fixed::div_pos(vn, self.height as i64);
            let ray: Ray = self.camera.to_ray(u, v, sampler);
            let col: Vec3 = self.integrator.render(&self.accel, self.background, &ray, sampler);
            acc = vec_add(acc, col);
            s = s + 1;
        }
        let n: i64 = self.samples_per_pixel as i64;
        proof {
            assert(2_000_000 * (s as int) <= 2_000_000 * (n as int)) by (nonlinear_arith)
                requires
                    s as int <= n as int,
            ;
            lemma_avg_bound(acc@.0, n as int);
            lemma_avg_bound(acc@.1, n as int);
            lemma_avg_bound(acc@.2, n as int);
        }
        Vec3 {
            x: div_trunc(acc.x, n),
            y: div_trunc(acc.y, n),
            z: div_trunc(acc.z, n),
        }
    }

    /// Render the image sequentially, returning the row-major buffer of
    /// pixel values. The buffer is a function of the scene and the default
    /// seed alone: rendering the same scene twice gives identical buffers.
    pub fn render(&self) -> (r: Vec<Vec3>)
        requires
            renderer_ok_s(*self),
        ensures
            r@.len() == (self.width as int) * (self.height as int),
            buffer_view(r@) == render_s(*self, DEFAULT_SEED),
    {
        self.render_with_seed(DEFAULT_SEED)
    }

    /// Render the image sequentially from the given root seed.
    pub fn render_with_seed(&self, seed: u64) -> (r: Vec<Vec3>)
        requires
            renderer_ok_s(*self),
        ensures
            r@.len() == (self.width as int) * (self.height as int),
            buffer_view(r@) == render_s(*self, seed),
    {
        proof {
            assert((self.width as int) * (self.height as int) <= 4_294_836_225)
                by (nonlinear_arith)
                requires
                    1 <= self.width as int <= 65_535,
                    1 <= self.height as int <= 65_535,
            ;
        }
        let total: usize = (self.width as usize) * (self.height as usize);
        let mut sampler: Random = Random::with_seed(seed);
        let mut buffer: Vec<Vec3> = Vec::new();
        let mut i: usize = 0;
        while i < total
            invariant
                i <= total,
                total == (self.width as int) * (self.height as int),
                renderer_ok_s(*self),
                seed_of(sampler) == seed,
                buffer@.len() == i,
                (buffer_view(buffer@), drawn_of(sampler)) == render_upto_s(*self, i as int, seed),
            decreases total - i,
        {
            let px: Vec3 = self.render_pixel(i, &mut sampler);
            buffer.push(px);
            proof {
                assert(buffer_view(buffer@) =~= buffer_view(buffer@.subrange(
                    0,
                    buffer@.len() - 1,
                )).push(px@));
                assert(buffer@.subrange(0, buffer@.len() - 1) =~= buffer@.drop_last());
            }
            i = i + 1;
        }
        buffer
    }
}

} // verus!
