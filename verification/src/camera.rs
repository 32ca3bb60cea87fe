//! Cameras: mapping image-plane coordinates to world-space primary rays.
//!
//! The camera models form a closed set dispatched from the scene
//! description, so the runtime camera is a tagged union with one `to_ray`
//! query.

use crate::ray::Ray;
use crate::sampler::random::{drawn_of, seed_of, Random};
use crate::vector::bounded3;
use vstd::prelude::*;

pub mod pinhole;
pub mod thin_lens;

pub use pinhole::BasicPinhole;
pub use pinhole::Pinhole;
pub use thin_lens::ThinLens;
pub use thin_lens::ThinLensCamera;

verus! {

/// The different camera configurations a scene description can carry.
#[derive(Clone, Copy, PartialEq, Eq, Structural, Debug)]
pub enum SerializedCamera {
    BasicPinhole(BasicPinhole),
    Pinhole(Pinhole),
    ThinLens(ThinLens),
}

/// A camera configuration the scene binding accepts.
pub open spec fn serialized_camera_ok_s(c: SerializedCamera) -> bool {
    match c {
        SerializedCamera::BasicPinhole(b) => pinhole::basic_pinhole_ok_s(b),
        SerializedCamera::Pinhole(p) => pinhole::pinhole_ok_s(p),
        SerializedCamera::ThinLens(t) => thin_lens::thin_lens_ok_s(t),
    }
}

/// Any camera the renderer can run with: a pinhole (possibly precomputed
/// from user-facing parameters) or a thin lens.
#[derive(Clone, Copy, PartialEq, Eq, Structural, Debug)]
pub enum Camera {
    BasicPinhole(BasicPinhole),
    ThinLens(ThinLensCamera),
}

/// A well-formed runtime camera.
pub open spec fn camera_ok_s(c: Camera) -> bool {
    match c {
        Camera::BasicPinhole(b) => pinhole::basic_pinhole_ok_s(b),
        Camera::ThinLens(t) => thin_lens::thin_lens_cam_ok_s(t),
    }
}

/// What `Camera::to_ray` returns and where it leaves the sampler stream.
/// A pinhole ignores the sampler; the thin lens draws a lens-disk sample.
pub open spec fn camera_to_ray_s(c: Camera, u: int, v: int, seed: u64, idx: nat) -> (
    ((int, int, int), (int, int, int)),
    nat,
) {
    match c {
        Camera::BasicPinhole(b) => (pinhole::basic_to_ray_s(b, u, v), idx),
        Camera::ThinLens(t) => thin_lens::thin_to_ray_s(t, u, v, seed, idx),
    }
}

impl Camera {
    /// Convert `(u, v)` image-plane coordinates, in `[0, 1]` with the
    /// origin at the lower left, into a world-space primary ray.
    pub fn to_ray(&self, u: i64, v: i64, s: &mut Random) -> (r: Ray)
        requires
            camera_ok_s(*self),
            0 <= u <= 2_000_000,
            0 <= v <= 2_000_000,
        ensures
            seed_of(*final(s)) == seed_of(*old(s)),
            ((r.origin@, r.direction@), drawn_of(*final(s))) == camera_to_ray_s(
                *self,
                u as int,
                v as int,
                seed_of(*old(s)),
                drawn_of(*old(s)),
            ),
            bounded3(r.origin@, 100_000_000_000),
            bounded3(r.direction@, 2_000_000),
    {
        match self {
            Camera::BasicPinhole(b) => b.to_ray(u, v),
            Camera::ThinLens(t) => t.to_ray(u, v, s),
        }
    }
}

} // verus!
