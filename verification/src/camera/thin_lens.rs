//! A thin-lens camera: a pinhole with a defocus disk, giving depth of
//! field without simulating a real lens.

use crate::camera::pinhole::{tan_half_fov, tan_half_s, CAM_COORD_MAX, CAM_MAX};
use crate::fixed::{lemma_mul_fx_s_bound, lemma_mul_fx_s_nonneg, lemma_mul_mag, mul_fx, mul_fx_s,
    div_pos};
use crate::ray::Ray;
use crate::sampler::primitives::{disk_pick_s, sample_unit_disk, REJECT_BUDGET};
use crate::sampler::random::{drawn_of, seed_of, Random};
use crate::vector::{
    bounded3, cap3_s, cross3_s, lemma_cross3_bound, normalize_s, vadd_s, vec_add, vec_cap,
    vec_cross, vec_normalize, vec_scale, vec_sub, vscale_s, vsub_s, Vec3,
};
use vstd::prelude::*;

verus! {

/// A thin-lens camera's user-facing parameters.
#[derive(Clone, Copy, PartialEq, Eq, Structural, Debug)]
pub struct ThinLens {
    /// Where the camera stands.
    pub look_from: Vec3,
    /// The point the camera looks at.
    pub look_at: Vec3,
    /// Which direction counts as up for the camera.
    pub up: Vec3,
    /// The vertical field of view, in fixed-point degrees.
    pub fov: i64,
    /// The diameter of the lens aperture.
    pub aperture: i64,
    /// The distance of the focus plane from the camera.
    pub focus_distance: i64,
}

/// A thin-lens configuration the scene binding accepts.
pub open spec fn thin_lens_ok_s(c: ThinLens) -> bool {
    &&& bounded3(c.look_from@, CAM_COORD_MAX as int)
    &&& bounded3(c.look_at@, CAM_COORD_MAX as int)
    &&& bounded3(c.up@, CAM_COORD_MAX as int)
    &&& 10_000 <= c.fov <= 175_000_000
    &&& 0 <= c.aperture <= 10_000_000_000
    &&& 0 <= c.focus_distance <= 1_000_000_000
}

/// The runtime thin-lens camera, with its image plane and lens basis
/// precomputed.
#[derive(Clone, Copy, PartialEq, Eq, Structural, Debug)]
pub struct ThinLensCamera {
    /// Where the camera stands.
    pub origin: Vec3,
    /// The lower left corner of the focus plane.
    pub lower_left: Vec3,
    /// The horizontal span of the focus plane.
    pub horizontal: Vec3,
    /// The vertical span of the focus plane.
    pub vertical: Vec3,
    /// The horizontal basis vector of the lens disk.
    pub u_basis: Vec3,
    /// The vertical basis vector of the lens disk.
    pub v_basis: Vec3,
    /// The radius of the lens disk: half the aperture.
    pub lens_radius: i64,
}

/// A runtime thin-lens camera within the supported ranges.
pub open spec fn thin_lens_cam_ok_s(c: ThinLensCamera) -> bool {
    &&& bounded3(c.origin@, CAM_COORD_MAX as int)
    &&& bounded3(c.lower_left@, CAM_MAX as int)
    &&& bounded3(c.horizontal@, CAM_MAX as int)
    &&& bounded3(c.vertical@, CAM_MAX as int)
    &&& bounded3(c.u_basis@, 2_000_000)
    &&& bounded3(c.v_basis@, 8_000_000)
    &&& 0 <= c.lens_radius <= 5_000_000_000
}

/// How the runtime thin-lens camera relates to its parameters: the same
/// orthonormal-basis construction as the pinhole, with the image-plane
/// vectors scaled out to the focus plane, and the lens radius half the
/// aperture. Each focus-plane vector saturates at the supported camera
/// range; no reasonable configuration reaches the clamp.
pub open spec fn thin_lens_init_rel_s(c: ThinLens, aspect_ratio: int, r: ThinLensCamera) -> bool {
    let hh = tan_half_s(c.fov as int);
    let hw = mul_fx_s(aspect_ratio, hh);
    let fd = c.focus_distance as int;
    let w = normalize_s(vsub_s(c.look_from@, c.look_at@));
    let up = normalize_s(cross3_s(c.up@, w));
    let vp = cross3_s(w, up);
    let hwfd = mul_fx_s(hw, fd);
    let hhfd = mul_fx_s(hh, fd);
    &&& r.origin == c.look_from
    &&& r.u_basis@ == up
    &&& r.v_basis@ == vp
    &&& r.lens_radius == (c.aperture as int) / 2
    &&& r.lower_left@ == cap3_s(
        vsub_s(
            vsub_s(vsub_s(c.look_from@, vscale_s(up, hwfd)), vscale_s(vp, hhfd)),
            vscale_s(w, fd),
        ),
        CAM_MAX as int,
    )
    &&& r.horizontal@ == cap3_s(vscale_s(up, 2 * hwfd), CAM_MAX as int)
    &&& r.vertical@ == cap3_s(vscale_s(vp, 2 * hhfd), CAM_MAX as int)
}

/// What `ThinLensCamera::to_ray` returns and where it leaves the sampler
/// stream: a point of the lens disk shifts the ray origin, and the ray is
/// aimed at the focus-plane point picked by `(u, v)`.
pub open spec fn thin_to_ray_s(c: ThinLensCamera, u: int, v: int, seed: u64, idx: nat) -> (
    ((int, int, int), (int, int, int)),
    nat,
) {
    let pick = disk_pick_s(seed, idx, REJECT_BUDGET as nat);
    let rd = vscale_s(pick.0, c.lens_radius as int);
    let offset = vadd_s(vscale_s(c.u_basis@, rd.0), vscale_s(c.v_basis@, rd.1));
    let origin = vadd_s(c.origin@, offset);
    let target = vadd_s(
        vadd_s(c.lower_left@, vscale_s(c.horizontal@, u)),
        vscale_s(c.vertical@, v),
    );
    let dir = normalize_s(vsub_s(vsub_s(target, c.origin@), offset));
    ((origin, dir), pick.1)
}

impl ThinLens {
    /// Initialize the runtime thin-lens camera from its parameters.
    pub fn init(self, aspect_ratio: i64) -> (r: ThinLensCamera)
        requires
            thin_lens_ok_s(self),
            10_000 <= aspect_ratio <= 100_000_000,
        ensures
            thin_lens_init_rel_s(self, aspect_ratio as int, r),
            thin_lens_cam_ok_s(r),
    {
        let hh: i64 = tan_half_fov(self.fov);
        proof {
            lemma_mul_mag(aspect_ratio as int, hh as int, 100_000_000, 100_000_000);
            lemma_mul_fx_s_bound(aspect_ratio as int, hh as int, 10_000_000_000);
            lemma_mul_fx_s_nonneg(aspect_ratio as int, hh as int);
        }
        let hw: i64 = mul_fx(aspect_ratio, hh);
        let w: Vec3 = vec_normalize(vec_sub(self.look_from, self.look_at));
        proof {
            lemma_cross3_bound(self.up@, w@, 10_000_000_000, 2_000_000, 20_000_000_000);
        }
        let up: Vec3 = vec_normalize(vec_cross(self.up, w));
        proof {
            lemma_cross3_bound(w@, up@, 2_000_000, 2_000_000, 4_000_000);
        }
        let vp: Vec3 = vec_cross(w, up);
        proof {
            lemma_mul_mag(hw as int, self.focus_distance as int, 10_000_000_000, 1_000_000_000);
            lemma_mul_fx_s_bound(hw as int, self.focus_distance as int, 10_000_000_000_000);
            lemma_mul_mag(hh as int, self.focus_distance as int, 100_000_000, 1_000_000_000);
            lemma_mul_fx_s_bound(hh as int, self.focus_distance as int, 100_000_000_000);
        }
        let hwfd: i64 = mul_fx(hw, self.focus_distance);
        let hhfd: i64 = mul_fx(hh, self.focus_distance);
        proof {
            lemma_mul_mag(up@.0, hwfd as int, 2_000_000, 10_000_000_000_000);
            lemma_mul_mag(up@.1, hwfd as int, 2_000_000, 10_000_000_000_000);
            lemma_mul_mag(up@.2, hwfd as int, 2_000_000, 10_000_000_000_000);
            lemma_mul_fx_s_bound(up@.0, hwfd as int, 20_000_000_000_000);
            lemma_mul_fx_s_bound(up@.1, hwfd as int, 20_000_000_000_000);
            lemma_mul_fx_s_bound(up@.2, hwfd as int, 20_000_000_000_000);
            lemma_mul_mag(vp@.0, hhfd as int, 8_000_000, 100_000_000_000);
            lemma_mul_mag(vp@.1, hhfd as int, 8_000_000, 100_000_000_000);
            lemma_mul_mag(vp@.2, hhfd as int, 8_000_000, 100_000_000_000);
            lemma_mul_fx_s_bound(vp@.0, hhfd as int, 800_000_000_000);
            lemma_mul_fx_s_bound(vp@.1, hhfd as int, 800_000_000_000);
            lemma_mul_fx_s_bound(vp@.2, hhfd as int, 800_000_000_000);
            lemma_mul_mag(w@.0, self.focus_distance as int, 2_000_000, 1_000_000_000);
            lemma_mul_mag(w@.1, self.focus_distance as int, 2_000_000, 1_000_000_000);
            lemma_mul_mag(w@.2, self.focus_distance as int, 2_000_000, 1_000_000_000);
            lemma_mul_fx_s_bound(w@.0, self.focus_distance as int, 2_000_000_000);
            lemma_mul_fx_s_bound(w@.1, self.focus_distance as int, 2_000_000_000);
            lemma_mul_fx_s_bound(w@.2, self.focus_distance as int, 2_000_000_000);
        }
        let uhw: Vec3 = vec_scale(up, hwfd);
        let vhh: Vec3 = vec_scale(vp, hhfd);
        let wfd: Vec3 = vec_scale(w, self.focus_distance);
        let lower_left: Vec3 = vec_cap(
            vec_sub(vec_sub(vec_sub(self.look_from, uhw), vhh), wfd),
            CAM_MAX,
        );
        let two_hwfd: i64 = 2 * hwfd;
        let two_hhfd: i64 = 2 * hhfd;
        proof {
            lemma_mul_mag(up@.0, two_hwfd as int, 2_000_000, 20_000_000_000_000);
            lemma_mul_mag(up@.1, two_hwfd as int, 2_000_000, 20_000_000_000_000);
            lemma_mul_mag(up@.2, two_hwfd as int, 2_000_000, 20_000_000_000_000);
            lemma_mul_fx_s_bound(up@.0, two_hwfd as int, 40_000_000_000_000);
            lemma_mul_fx_s_bound(up@.1, two_hwfd as int, 40_000_000_000_000);
            lemma_mul_fx_s_bound(up@.2, two_hwfd as int, 40_000_000_000_000);
            lemma_mul_mag(vp@.0, two_hhfd as int, 8_000_000, 200_000_000_000);
            lemma_mul_mag(vp@.1, two_hhfd as int, 8_000_000, 200_000_000_000);
            lemma_mul_mag(vp@.2, two_hhfd as int, 8_000_000, 200_000_000_000);
            lemma_mul_fx_s_bound(vp@.0, two_hhfd as int, 1_600_000_000_000);
            lemma_mul_fx_s_bound(vp@.1, two_hhfd as int, 1_600_000_000_000);
            lemma_mul_fx_s_bound(vp@.2, two_hhfd as int, 1_600_000_000_000);
        }
        let horizontal: Vec3 = vec_cap(vec_scale(up, two_hwfd), CAM_MAX);
        let vertical: Vec3 = vec_cap(vec_scale(vp, two_hhfd), CAM_MAX);
        let lens_radius: i64 = div_pos(self.aperture, 2);
        ThinLensCamera {
            origin: self.look_from,
            lower_left,
            horizontal,
            vertical,
            u_basis: up,
            v_basis: vp,
            lens_radius,
        }
    }
}

impl ThinLensCamera {
    /// Convert `(u, v)` image-plane coordinates into a world-space ray,
    /// with the origin shifted by a sampled point of the lens disk.
    pub fn to_ray(&self, u: i64, v: i64, s: &mut Random) -> (r: Ray)
        requires
            thin_lens_cam_ok_s(*self),
            0 <= u <= 2_000_000,
            0 <= v <= 2_000_000,
        ensures
            seed_of(*final(s)) == seed_of(*old(s)),
            ((r.origin@, r.direction@), drawn_of(*final(s))) == thin_to_ray_s(
                *self,
                u as int,
                v as int,
                seed_of(*old(s)),
                drawn_of(*old(s)),
            ),
            bounded3(r.origin@, 100_000_000_000),
            bounded3(r.direction@, 2_000_000),
    {
        let disk: Vec3 = sample_unit_disk(s);
        proof {
            lemma_mul_mag(disk@.0, self.lens_radius as int, 1_000_000, 5_000_000_000);
            lemma_mul_mag(disk@.1, self.lens_radius as int, 1_000_000, 5_000_000_000);
            lemma_mul_mag(disk@.2, self.lens_radius as int, 1_000_000, 5_000_000_000);
            lemma_mul_fx_s_bound(disk@.0, self.lens_radius as int, 5_000_000_000);
            lemma_mul_fx_s_bound(disk@.1, self.lens_radius as int, 5_000_000_000);
            lemma_mul_fx_s_bound(disk@.2, self.lens_radius as int, 5_000_000_000);
        }
        let rd: Vec3 = vec_scale(disk, self.lens_radius);
        proof {
            lemma_mul_mag(self.u_basis@.0, rd@.0, 2_000_000, 5_000_000_000);
            lemma_mul_mag(self.u_basis@.1, rd@.0, 2_000_000, 5_000_000_000);
            lemma_mul_mag(self.u_basis@.2, rd@.0, 2_000_000, 5_000_000_000);
            lemma_mul_fx_s_bound(self.u_basis@.0, rd@.0, 10_000_000_000);
            lemma_mul_fx_s_bound(self.u_basis@.1, rd@.0, 10_000_000_000);
            lemma_mul_fx_s_bound(self.u_basis@.2, rd@.0, 10_000_000_000);
            lemma_mul_mag(self.v_basis@.0, rd@.1, 8_000_000, 5_000_000_000);
            lemma_mul_mag(self.v_basis@.1, rd@.1, 8_000_000, 5_000_000_000);
            lemma_mul_mag(self.v_basis@.2, rd@.1, 8_000_000, 5_000_000_000);
            lemma_mul_fx_s_bound(self.v_basis@.0, rd@.1, 40_000_000_000);
            lemma_mul_fx_s_bound(self.v_basis@.1, rd@.1, 40_000_000_000);
            lemma_mul_fx_s_bound(self.v_basis@.2, rd@.1, 40_000_000_000);
        }
        let offset: Vec3 = vec_add(vec_scale(self.u_basis, rd.x), vec_scale(self.v_basis, rd.y));
        proof {
            lemma_mul_mag(self.horizontal@.0, u as int, 100_000_000_000, 2_000_000);
            lemma_mul_mag(self.horizontal@.1, u as int, 100_000_000_000, 2_000_000);
            lemma_mul_mag(self.horizontal@.2, u as int, 100_000_000_000, 2_000_000);
            lemma_mul_fx_s_bound(self.horizontal@.0, u as int, 200_000_000_000);
            lemma_mul_fx_s_bound(self.horizontal@.1, u as int, 200_000_000_000);
            lemma_mul_fx_s_bound(self.horizontal@.2, u as int, 200_000_000_000);
            lemma_mul_mag(self.vertical@.0, v as int, 100_000_000_000, 2_000_000);
            lemma_mul_mag(self.vertical@.1, v as int, 100_000_000_000, 2_000_000);
            lemma_mul_mag(self.vertical@.2, v as int, 100_000_000_000, 2_000_000);
            lemma_mul_fx_s_bound(self.vertical@.0, v as int, 200_000_000_000);
            lemma_mul_fx_s_bound(self.vertical@.1, v as int, 200_000_000_000);
            lemma_mul_fx_s_bound(self.vertical@.2, v as int, 200_000_000_000);
        }
        let uh: Vec3 = vec_scale(self.horizontal, u);
        let vv: Vec3 = vec_scale(self.vertical, v);
        let target: Vec3 = vec_add(vec_add(self.lower_left, uh), vv);
        let dirv: Vec3 = vec_sub(vec_sub(target, self.origin), offset);
        Ray { origin: vec_add(self.origin, offset), direction: vec_normalize(dirv) }
    }
}

} // verus!
