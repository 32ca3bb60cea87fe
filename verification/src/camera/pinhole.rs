//! Pinhole camera models.

use crate::fixed::{
    div_fx, div_fx_s, div_pos, lemma_mul_fx_s_bound, lemma_mul_fx_s_nonneg, lemma_mul_mag,
    mul_fx, mul_fx_s,
};
use crate::ray::Ray;
use crate::vector::{
    bounded3, cross3_s, lemma_cross3_bound, normalize_s, vadd_s, vec_add, vec_cross,
    vec_normalize, vec_scale, vec_sub, vscale_s, vsub_s, Vec3,
};
use vstd::arithmetic::div_mod::lemma_div_is_ordered;
use vstd::prelude::*;

verus! {

/// Largest magnitude a runtime camera vector's component may have.
pub const CAM_MAX: i64 = 100_000_000_000;

/// Largest magnitude a camera configuration coordinate may have.
pub const CAM_COORD_MAX: i64 = 10_000_000_000;

/// The classic pinhole camera: no bells, no whistles, just projected rays.
#[derive(Clone, Copy, PartialEq, Eq, Structural, Debug)]
pub struct BasicPinhole {
    /// The origin point of the camera's field of view.
    pub origin: Vec3,
    /// The horizontal span of the camera's field of view.
    pub horizontal: Vec3,
    /// The vertical span of the camera's field of view.
    pub vertical: Vec3,
    /// The lower left corner of the camera's field of view.
    pub lower_left: Vec3,
}

/// A runtime pinhole whose vectors are within the supported ranges.
pub open spec fn basic_pinhole_ok_s(c: BasicPinhole) -> bool {
    &&& bounded3(c.origin@, CAM_COORD_MAX as int)
    &&& bounded3(c.horizontal@, CAM_MAX as int)
    &&& bounded3(c.vertical@, CAM_MAX as int)
    &&& bounded3(c.lower_left@, CAM_MAX as int)
}

/// What `BasicPinhole::to_ray` returns: a ray from the camera origin
/// through the point of the image plane picked by `(u, v)`, with the
/// direction normalized.
pub open spec fn basic_to_ray_s(c: BasicPinhole, u: int, v: int) -> (
    (int, int, int),
    (int, int, int),
) {
    let target = vsub_s(
        vadd_s(vadd_s(c.lower_left@, vscale_s(c.horizontal@, u)), vscale_s(c.vertical@, v)),
        c.origin@,
    );
    (c.origin@, normalize_s(target))
}

impl BasicPinhole {
    /// Convert `(u, v)` image-plane coordinates into a world-space ray.
    pub fn to_ray(&self, u: i64, v: i64) -> (r: Ray)
        requires
            basic_pinhole_ok_s(*self),
            0 <= u <= 2_000_000,
            0 <= v <= 2_000_000,
        ensures
            (r.origin@, r.direction@) == basic_to_ray_s(*self, u as int, v as int),
            bounded3(r.origin@, CAM_COORD_MAX as int),
            bounded3(r.direction@, 2_000_000),
    {
        proof {
            lemma_mul_mag(self.horizontal@.0, u as int, 100_000_000_000, 2_000_000);
            lemma_mul_mag(self.horizontal@.1, u as int, 100_000_000_000, 2_000_000);
            lemma_mul_mag(self.horizontal@.2, u as int, 100_000_000_000, 2_000_000);
            lemma_mul_fx_s_bound(self.horizontal@.0, u as int, 200_000_000_000);
            lemma_mul_fx_s_bound(self.horizontal@.1, u as int, 200_000_000_000);
            lemma_mul_fx_s_bound(self.horizontal@.2, u as int, 200_000_000_000);
            lemma_mul_mag(self.vertical@.0, v as int, 100_000_000_000, 2_000_000);
            lemma_mul_mag(self.vertical@.1, v as int, 100_000_000_000, 2_000_000);
            lemma_mul_mag(self.vertical@.2, v as int, 100_000_000_000, 2_000_000);
            lemma_mul_fx_s_bound(self.vertical@.0, v as int, 200_000_000_000);
            lemma_mul_fx_s_bound(self.vertical@.1, v as int, 200_000_000_000);
            lemma_mul_fx_s_bound(self.vertical@.2, v as int, 200_000_000_000);
        }
        let uh: Vec3 = vec_scale(self.horizontal, u);
        let vv: Vec3 = vec_scale(self.vertical, v);
        let target: Vec3 = vec_sub(vec_add(vec_add(self.lower_left, uh), vv), self.origin);
        Ray { origin: self.origin, direction: vec_normalize(target) }
    }
}

impl Default for BasicPinhole {
    /// The standard camera of a two-to-one frame looking down the negative
    /// `z` axis.
    fn default() -> (r: BasicPinhole)
        ensures
            r.origin@ == (0int, 0int, 0int),
            r.horizontal@ == (4_000_000int, 0int, 0int),
            r.vertical@ == (0int, 2_000_000int, 0int),
            r.lower_left@ == (-2_000_000int, -1_000_000int, -1_000_000int),
            basic_pinhole_ok_s(r),
    {
        BasicPinhole {
            origin: Vec3 { x: 0, y: 0, z: 0 },
            horizontal: Vec3 { x: 4_000_000, y: 0, z: 0 },
            vertical: Vec3 { x: 0, y: 2_000_000, z: 0 },
            lower_left: Vec3 { x: -2_000_000, y: -1_000_000, z: -1_000_000 },
        }
    }
}

/// The truncated Taylor series for the sine of `x` (radians, fixed point),
/// the series the camera construction evaluates.
pub open spec fn sin_series_s(x: int) -> int {
    let x2 = mul_fx_s(x, x);
    let x3 = mul_fx_s(x2, x);
    let x5 = mul_fx_s(x3, x2);
    let x7 = mul_fx_s(x5, x2);
    let x9 = mul_fx_s(x7, x2);
    x - x3 / 6 + x5 / 120 - x7 / 5040 + x9 / 362880
}

/// The truncated Taylor series for the cosine of `x`.
pub open spec fn cos_series_s(x: int) -> int {
    let x2 = mul_fx_s(x, x);
    let x4 = mul_fx_s(x2, x2);
    let x6 = mul_fx_s(x4, x2);
    let x8 = mul_fx_s(x6, x2);
    1_000_000 - x2 / 2 + x4 / 24 - x6 / 720 + x8 / 40320
}

/// The tangent of half the vertical field of view (`vfov` in fixed-point
/// degrees): the half-height of the image plane at unit distance. The
/// result saturates at zero and at one hundred (a field of view within a
/// fraction of a degree of a flat 180); no reasonable camera reaches the
/// clamps.
pub open spec fn tan_half_s(vfov: int) -> int {
    let x = mul_fx_s(vfov, 3_141_593) / 360;
    let c = cos_series_s(x);
    let cc = if c < 1 {
        1
    } else {
        c
    };
    let t = div_fx_s(sin_series_s(x), cc);
    if t < 0 {
        0
    } else if t > 100_000_000 {
        100_000_000
    } else {
        t
    }
}

/// Evaluate the sine series.
fn sin_fx(x: i64) -> (r: i64)
    requires
        0 <= x <= 1_600_000,
    ensures
        r == sin_series_s(x as int),
        -200_000_000 <= r <= 200_000_000,
{
    proof {
        lemma_mul_mag(x as int, x as int, 1_600_000, 1_600_000);
        lemma_mul_fx_s_bound(x as int, x as int, 2_560_000);
        lemma_mul_fx_s_nonneg(x as int, x as int);
    }
    let x2: i64 = mul_fx(x, x);
    proof {
        lemma_mul_mag(x2 as int, x as int, 2_560_000, 1_600_000);
        lemma_mul_fx_s_bound(x2 as int, x as int, 4_096_000);
        lemma_mul_fx_s_nonneg(x2 as int, x as int);
    }
    let x3: i64 = mul_fx(x2, x);
    proof {
        lemma_mul_mag(x3 as int, x2 as int, 4_096_000, 2_560_000);
        lemma_mul_fx_s_bound(x3 as int, x2 as int, 10_485_760);
        lemma_mul_fx_s_nonneg(x3 as int, x2 as int);
    }
    let x5: i64 = mul_fx(x3, x2);
    proof {
        lemma_mul_mag(x5 as int, x2 as int, 10_485_760, 2_560_000);
        lemma_mul_fx_s_bound(x5 as int, x2 as int, 26_843_546);
        lemma_mul_fx_s_nonneg(x5 as int, x2 as int);
    }
    let x7: i64 = mul_fx(x5, x2);
    proof {
        lemma_mul_mag(x7 as int, x2 as int, 26_843_546, 2_560_000);
        lemma_mul_fx_s_bound(x7 as int, x2 as int, 68_719_478);
        lemma_mul_fx_s_nonneg(x7 as int, x2 as int);
    }
    let x9: i64 = mul_fx(x7, x2);
    let t3: i64 = div_pos(x3, 6);
    let t5: i64 = div_pos(x5, 120);
    let t7: i64 = div_pos(x7, 5040);
    let t9: i64 = div_pos(x9, 362880);
    x - t3 + t5 - t7 + t9
}

/// Evaluate the cosine series.
fn cos_fx(x: i64) -> (r: i64)
    requires
        0 <= x <= 1_600_000,
    ensures
        r == cos_series_s(x as int),
        -200_000_000 <= r <= 200_000_000,
{
    proof {
        lemma_mul_mag(x as int, x as int, 1_600_000, 1_600_000);
        lemma_mul_fx_s_bound(x as int, x as int, 2_560_000);
        lemma_mul_fx_s_nonneg(x as int, x as int);
    }
    let x2: i64 = mul_fx(x, x);
    proof {
        lemma_mul_mag(x2 as int, x2 as int, 2_560_000, 2_560_000);
        lemma_mul_fx_s_bound(x2 as int, x2 as int, 6_553_600);
        lemma_mul_fx_s_nonneg(x2 as int, x2 as int);
    }
    let x4: i64 = mul_fx(x2, x2);
    proof {
        lemma_mul_mag(x4 as int, x2 as int, 6_553_600, 2_560_000);
        lemma_mul_fx_s_bound(x4 as int, x2 as int, 16_777_216);
        lemma_mul_fx_s_nonneg(x4 as int, x2 as int);
    }
    let x6: i64 = mul_fx(x4, x2);
    proof {
        lemma_mul_mag(x6 as int, x2 as int, 16_777_216, 2_560_000);
        lemma_mul_fx_s_bound(x6 as int, x2 as int, 42_949_673);
        lemma_mul_fx_s_nonneg(x6 as int, x2 as int);
    }
    let x8: i64 = mul_fx(x6, x2);
    let t2: i64 = div_pos(x2, 2);
    let t4: i64 = div_pos(x4, 24);
    let t6: i64 = div_pos(x6, 720);
    let t8: i64 = div_pos(x8, 40320);
    1_000_000 - t2 + t4 - t6 + t8
}

/// The half-height of the image plane for a vertical field of view given
/// in fixed-point degrees.
pub fn tan_half_fov(vfov: i64) -> (r: i64)
    requires
        10_000 <= vfov <= 175_000_000,
    ensures
        r == tan_half_s(vfov as int),
        0 <= r <= 100_000_000,
{
    proof {
        lemma_mul_mag(vfov as int, 3_141_593, 175_000_000, 3_141_593);
        lemma_mul_fx_s_bound(vfov as int, 3_141_593, 549_778_775);
        lemma_mul_fx_s_nonneg(vfov as int, 3_141_593);
    }
    let t1: i64 = mul_fx(vfov, 3_141_593);
    let x: i64 = div_pos(t1, 360);
    proof {
        lemma_div_is_ordered(t1 as int, 549_778_775, 360);
    }
    let s: i64 = sin_fx(x);
    let c: i64 = cos_fx(x);
    let cc: i64 = if c < 1 {
        1
    } else {
        c
    };
    let t: i64 = div_fx(s, cc);
    if t < 0 {
        0
    } else if t > 100_000_000 {
        100_000_000
    } else {
        t
    }
}

/// A pinhole camera given by user-facing parameters: where it stands, what
/// it looks at, its field of view and orientation.
#[derive(Clone, Copy, PartialEq, Eq, Structural, Debug)]
pub struct Pinhole {
    /// The target that the camera is pointing towards from the origin.
    pub target: Vec3,
    /// The origin point of the camera.
    pub origin: Vec3,
    /// The vertical field of view of the camera, in fixed-point degrees.
    pub vfov: i64,
    /// Which direction counts as up for the camera.
    pub up: Vec3,
    /// The aspect ratio of the camera.
    pub aspect_ratio: i64,
}

/// A pinhole configuration the scene binding accepts: coordinates in the
/// scene volume and a field of view in `(0, 175]` degrees.
pub open spec fn pinhole_ok_s(c: Pinhole) -> bool {
    &&& bounded3(c.target@, CAM_COORD_MAX as int)
    &&& bounded3(c.origin@, CAM_COORD_MAX as int)
    &&& bounded3(c.up@, CAM_COORD_MAX as int)
    &&& 10_000 <= c.vfov <= 175_000_000
    &&& 10_000 <= c.aspect_ratio <= 100_000_000
}

/// How the precomputed `BasicPinhole` relates to the user-facing pinhole
/// parameters: the standard orthonormal-basis construction, with the
/// half-height of the image plane the tangent of half the field of view.
pub open spec fn pinhole_init_rel_s(c: Pinhole, aspect_ratio: int, r: BasicPinhole) -> bool {
    let hh = tan_half_s(c.vfov as int);
    let hw = mul_fx_s(aspect_ratio, hh);
    let w = normalize_s(vsub_s(c.origin@, c.target@));
    let up = normalize_s(cross3_s(c.up@, w));
    let vp = cross3_s(w, up);
    &&& r.origin == c.origin
    &&& r.horizontal@ == vscale_s(up, 2 * hw)
    &&& r.vertical@ == vscale_s(vp, 2 * hh)
    &&& r.lower_left@ == vsub_s(
        vsub_s(vsub_s(c.origin@, vscale_s(up, hw)), vscale_s(vp, hh)),
        w,
    )
}

impl Pinhole {
    /// Initialize the pinhole with computed parameters: build the camera's
    /// orthonormal basis and cache the image-plane vectors.
    pub fn init(self, aspect_ratio: i64) -> (r: BasicPinhole)
        requires
            pinhole_ok_s(self),
            10_000 <= aspect_ratio <= 100_000_000,
        ensures
            pinhole_init_rel_s(self, aspect_ratio as int, r),
            basic_pinhole_ok_s(r),
    {
        let hh: i64 = tan_half_fov(self.vfov);
        proof {
            lemma_mul_mag(aspect_ratio as int, hh as int, 100_000_000, 100_000_000);
            lemma_mul_fx_s_bound(aspect_ratio as int, hh as int, 10_000_000_000);
            lemma_mul_fx_s_nonneg(aspect_ratio as int, hh as int);
        }
        let hw: i64 = mul_fx(aspect_ratio, hh);
        let w: Vec3 = vec_normalize(vec_sub(self.origin, self.target));
        proof {
            lemma_cross3_bound(self.up@, w@, 10_000_000_000, 2_000_000, 20_000_000_000);
        }
        let up: Vec3 = vec_normalize(vec_cross(self.up, w));
        proof {
            lemma_cross3_bound(w@, up@, 2_000_000, 2_000_000, 4_000_000);
        }
        let vp: Vec3 = vec_cross(w, up);
        proof {
            lemma_mul_mag(up@.0, hw as int, 2_000_000, 10_000_000_000);
            lemma_mul_mag(up@.1, hw as int, 2_000_000, 10_000_000_000);
            lemma_mul_mag(up@.2, hw as int, 2_000_000, 10_000_000_000);
            lemma_mul_fx_s_bound(up@.0, hw as int, 20_000_000_000);
            lemma_mul_fx_s_bound(up@.1, hw as int, 20_000_000_000);
            lemma_mul_fx_s_bound(up@.2, hw as int, 20_000_000_000);
            lemma_mul_mag(vp@.0, hh as int, 8_000_000, 100_000_000);
            lemma_mul_mag(vp@.1, hh as int, 8_000_000, 100_000_000);
            lemma_mul_mag(vp@.2, hh as int, 8_000_000, 100_000_000);
            lemma_mul_fx_s_bound(vp@.0, hh as int, 800_000_000);
            lemma_mul_fx_s_bound(vp@.1, hh as int, 800_000_000);
            lemma_mul_fx_s_bound(vp@.2, hh as int, 800_000_000);
        }
        let uhw: Vec3 = vec_scale(up, hw);
        let vhh: Vec3 = vec_scale(vp, hh);
        let lower_left: Vec3 = vec_sub(vec_sub(vec_sub(self.origin, uhw), vhh), w);
        let two_hw: i64 = 2 * hw;
        let two_hh: i64 = 2 * hh;
        proof {
            lemma_mul_mag(up@.0, two_hw as int, 2_000_000, 20_000_000_000);
            lemma_mul_mag(up@.1, two_hw as int, 2_000_000, 20_000_000_000);
            lemma_mul_mag(up@.2, two_hw as int, 2_000_000, 20_000_000_000);
            lemma_mul_fx_s_bound(up@.0, two_hw as int, 40_000_000_000);
            lemma_mul_fx_s_bound(up@.1, two_hw as int, 40_000_000_000);
            lemma_mul_fx_s_bound(up@.2, two_hw as int, 40_000_000_000);
            lemma_mul_mag(vp@.0, two_hh as int, 8_000_000, 200_000_000);
            lemma_mul_mag(vp@.1, two_hh as int, 8_000_000, 200_000_000);
            lemma_mul_mag(vp@.2, two_hh as int, 8_000_000, 200_000_000);
            lemma_mul_fx_s_bound(vp@.0, two_hh as int, 1_600_000_000);
            lemma_mul_fx_s_bound(vp@.1, two_hh as int, 1_600_000_000);
            lemma_mul_fx_s_bound(vp@.2, two_hh as int, 1_600_000_000);
        }
        let horizontal: Vec3 = vec_scale(up, two_hw);
        let vertical: Vec3 = vec_scale(vp, two_hh);
        BasicPinhole { origin: self.origin, horizontal, vertical, lower_left }
    }
}

/// Each component halved, rounding toward zero.
pub open spec fn half3_s(v: (int, int, int)) -> (int, int, int) {
    (
        crate::fixed::div_down(v.0, 2),
        crate::fixed::div_down(v.1, 2),
        crate::fixed::div_down(v.2, 2),
    )
}

/// Scaling by one half is exact halving (rounded toward zero) in the
/// fixed-point scalar.
pub proof fn lemma_mul_fx_half(x: int)
    ensures
        mul_fx_s(x, 500_000) == crate::fixed::div_down(x, 2),
{
    if x >= 0 {
        assert((x * 500_000) / 500_000int == x) by (nonlinear_arith);
        vstd::arithmetic::div_mod::lemma_div_denominator(x * 500_000, 500_000, 2);
        assert(0 <= x * 500_000) by (nonlinear_arith)
            requires
                0 <= x,
        ;
    } else {
        assert(((-x) * 500_000) / 500_000int == -x) by (nonlinear_arith);
        vstd::arithmetic::div_mod::lemma_div_denominator((-x) * 500_000, 500_000, 2);
        assert(0 <= (-x) * 500_000) by (nonlinear_arith)
            requires
                x < 0,
        ;
        assert(x * 500_000 == -((-x) * 500_000)) by (nonlinear_arith);
    }
}

/// The pinhole corner law: the ray for `(0, 0)` aims at the lower left of
/// the frame, the ray for `(1, 1)` at the upper right, and the ray for
/// `(1/2, 1/2)` at the frame center (the spans halved, rounded toward
/// zero), all from the camera origin.
pub proof fn lemma_pinhole_corners(c: BasicPinhole)
    ensures
        basic_to_ray_s(c, 0, 0) == (c.origin@, normalize_s(vsub_s(c.lower_left@, c.origin@))),
        basic_to_ray_s(c, 1_000_000, 1_000_000) == (
            c.origin@,
            normalize_s(
                vsub_s(vadd_s(vadd_s(c.lower_left@, c.horizontal@), c.vertical@), c.origin@),
            ),
        ),
        basic_to_ray_s(c, 500_000, 500_000) == (
            c.origin@,
            normalize_s(
                vsub_s(
                    vadd_s(
                        vadd_s(c.lower_left@, half3_s(c.horizontal@)),
                        half3_s(c.vertical@),
                    ),
                    c.origin@,
                ),
            ),
        ),
{
    crate::math::lemma_mul_fx_unit(c.horizontal@.0);
    crate::math::lemma_mul_fx_unit(c.horizontal@.1);
    crate::math::lemma_mul_fx_unit(c.horizontal@.2);
    crate::math::lemma_mul_fx_unit(c.vertical@.0);
    crate::math::lemma_mul_fx_unit(c.vertical@.1);
    crate::math::lemma_mul_fx_unit(c.vertical@.2);
    lemma_mul_fx_half(c.horizontal@.0);
    lemma_mul_fx_half(c.horizontal@.1);
    lemma_mul_fx_half(c.horizontal@.2);
    lemma_mul_fx_half(c.vertical@.0);
    lemma_mul_fx_half(c.vertical@.1);
    lemma_mul_fx_half(c.vertical@.2);
}

} // verus!
