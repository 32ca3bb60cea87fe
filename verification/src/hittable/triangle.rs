//! The triangle primitive, intersected with the Moller-Trumbore algorithm.

use crate::fixed::{div_fx_checked, div_fx_s, eta, lemma_mul_fx_s_bound, lemma_mul_mag};
use crate::hittable::{
    hit_rec_ok, opt_hit_view, HitRecord, DIST_MAX, HIT_N_MAX, TRI_COORD_MAX,
};
use crate::ray::{ray_ok_s, Ray};
use crate::vector::{
    bounded3, cross3_s, dot3_s, lemma_cross3_bound, lemma_dot3_bound, normalize_s, vadd_s,
    vec_add, vec_cross, vec_dot, vec_normalize, vec_scale, vec_sub, vscale_s, vsub_s, Vec3,
};
use vstd::prelude::*;

verus! {

/// The "handedness" of the coordinate system used to define the triangle:
/// the winding direction of its vertices, which fixes the sign of the
/// normal.
#[derive(Clone, Copy, PartialEq, Eq, Structural, Debug)]
pub enum TriangleHandedness {
    Clockwise,
    CounterClockwise,
}

/// The conventional handedness of this renderer: counterclockwise vertices.
pub fn default_handedness() -> (r: TriangleHandedness)
    ensures
        r == TriangleHandedness::CounterClockwise,
{
    TriangleHandedness::CounterClockwise
}

/// The parameters for a triangle as the user inputs them; `init` converts
/// them into the `Triangle` the renderer uses at runtime.
#[derive(Clone, Copy, PartialEq, Eq, Debug)]
pub struct TriangleParameters {
    /// The coordinates defining the bounds of the triangle in world space.
    pub vertices: [Vec3; 3],
    /// The direction in which the vertices are evaluated to compute the
    /// normal vector.
    pub handedness: TriangleHandedness,
}

/// Triangle vertices within the range the scene binding accepts.
pub open spec fn triangle_params_ok_s(p: TriangleParameters) -> bool {
    &&& bounded3(p.vertices@[0]@, TRI_COORD_MAX as int)
    &&& bounded3(p.vertices@[1]@, TRI_COORD_MAX as int)
    &&& bounded3(p.vertices@[2]@, TRI_COORD_MAX as int)
}

impl Default for TriangleParameters {
    /// Zeroed vertices (not a valid triangle by themselves) with the
    /// conventional counterclockwise handedness.
    fn default() -> (r: TriangleParameters)
        ensures
            r.vertices@[0]@ == (0int, 0int, 0int),
            r.vertices@[1]@ == (0int, 0int, 0int),
            r.vertices@[2]@ == (0int, 0int, 0int),
            r.handedness == TriangleHandedness::CounterClockwise,
    {
        let zeroes = Vec3 { x: 0, y: 0, z: 0 };
        TriangleParameters {
            vertices: [zeroes, zeroes, zeroes],
            handedness: TriangleHandedness::CounterClockwise,
        }
    }
}

/// A triangle with its cached edges and unit normal, ready for
/// intersection tests.
#[derive(Clone, Copy, PartialEq, Eq, Debug)]
pub struct Triangle {
    /// The world-space coordinates of the vertices.
    pub vertices: [Vec3; 3],
    /// The two edges used by the intersection algorithm, precomputed.
    pub edges: [Vec3; 2],
    /// The unit normal of the triangle's supporting plane, precomputed.
    pub normal: Vec3,
}

/// A well-formed runtime triangle: vertices within the scene range, edges
/// within twice of it, and a near-unit normal.
pub open spec fn triangle_ok_s(t: Triangle) -> bool {
    &&& bounded3(t.vertices@[0]@, TRI_COORD_MAX as int)
    &&& bounded3(t.vertices@[1]@, TRI_COORD_MAX as int)
    &&& bounded3(t.vertices@[2]@, TRI_COORD_MAX as int)
    &&& bounded3(t.edges@[0]@, 2 * TRI_COORD_MAX as int)
    &&& bounded3(t.edges@[1]@, 2 * TRI_COORD_MAX as int)
    &&& bounded3(t.normal@, HIT_N_MAX as int)
}

/// How a runtime triangle relates to the parameters it was built from:
/// same vertices, edges ordered by the handedness, and the normal the
/// normalized cross product of the edges.
pub open spec fn triangle_from_params_s(p: TriangleParameters, t: Triangle) -> bool {
    &&& t.vertices@ == p.vertices@
    &&& (p.handedness == TriangleHandedness::Clockwise ==> {
        &&& t.edges@[0]@ == vsub_s(p.vertices@[1]@, p.vertices@[0]@)
        &&& t.edges@[1]@ == vsub_s(p.vertices@[2]@, p.vertices@[0]@)
        &&& t.normal@ == normalize_s(cross3_s(t.edges@[0]@, t.edges@[1]@))
    })
    &&& (p.handedness == TriangleHandedness::CounterClockwise ==> {
        &&& t.edges@[0]@ == vsub_s(p.vertices@[2]@, p.vertices@[0]@)
        &&& t.edges@[1]@ == vsub_s(p.vertices@[1]@, p.vertices@[0]@)
        &&& t.normal@ == normalize_s(cross3_s(t.edges@[0]@, t.edges@[1]@))
    })
}

impl TriangleParameters {
    /// Initialize a `Triangle` from its parameters: compute the two edges
    /// and the unit normal, whose sign follows the handedness.
    pub fn init(self) -> (r: Triangle)
        requires
            triangle_params_ok_s(self),
        ensures
            triangle_from_params_s(self, r),
            triangle_ok_s(r),
    {
        let a: Vec3 = vec_sub(self.vertices[2], self.vertices[0]);
        let b: Vec3 = vec_sub(self.vertices[1], self.vertices[0]);
        proof {
            lemma_cross3_bound(
                a@,
                b@,
                600_000_000,
                600_000_000,
                360_000_000_000,
            );
            lemma_cross3_bound(
                b@,
                a@,
                600_000_000,
                600_000_000,
                360_000_000_000,
            );
        }
        match self.handedness {
            TriangleHandedness::Clockwise => {
                let n: Vec3 = vec_normalize(vec_cross(b, a));
                Triangle { vertices: self.vertices, edges: [b, a], normal: n }
            },
            TriangleHandedness::CounterClockwise => {
                let n: Vec3 = vec_normalize(vec_cross(a, b));
                Triangle { vertices: self.vertices, edges: [a, b], normal: n }
            },
        }
    }
}

/// What `Triangle::hit` returns: the Moller-Trumbore intersection over the
/// fixed-point scalar, down to each truncation.
///
/// A determinant below the error threshold rejects the parallel case and
/// culls back faces in one test. The barycentric bounds are checked against
/// the unscaled determinant. The hit point is `origin + t d`, and the
/// distance is rejected when it lies beyond the supported range.
pub open spec fn triangle_hit_s(t: Triangle, ray: Ray) -> Option<
    ((int, int, int), (int, int, int), int),
> {
    let pv = cross3_s(ray.direction@, t.edges@[1]@);
    let det = dot3_s(t.edges@[0]@, pv);
    if det < 1 {
        None
    } else {
        let tv = vsub_s(ray.origin@, t.vertices@[0]@);
        let u = dot3_s(tv, pv);
        if u < 0 || u > det {
            None
        } else {
            let q = cross3_s(tv, t.edges@[0]@);
            let v = dot3_s(ray.direction@, q);
            if v < 0 || u + v > det {
                None
            } else {
                let dist = div_fx_s(dot3_s(t.edges@[1]@, q), det);
                if !(-(DIST_MAX as int) <= dist <= DIST_MAX as int) {
                    None
                } else {
                    let p = vadd_s(ray.origin@, vscale_s(ray.direction@, dist));
                    Some((p, t.normal@, dist))
                }
            }
        }
    }
}

impl Triangle {
    /// Whether the ray hits the front face of this triangle, and where.
    /// Back faces are culled, so a hit behind the ray's origin can be
    /// reported with a negative distance; the acceleration layer filters
    /// those out.
    pub fn hit(&self, ray: &Ray) -> (r: Option<HitRecord>)
        requires
            ray_ok_s(ray@),
            triangle_ok_s(*self),
        ensures
            opt_hit_view(r) == triangle_hit_s(*self, *ray),
            r is Some ==> hit_rec_ok(r->Some_0@),
    {
        proof {
            lemma_cross3_bound(
                ray.direction@,
                self.edges@[1]@,
                4_000_000,
                600_000_000,
                2_400_000_000,
            );
        }
        let pv: Vec3 = vec_cross(ray.direction, self.edges[1]);
        proof {
            lemma_dot3_bound(
                self.edges@[0]@,
                pv@,
                600_000_000,
                4_800_000_000,
                2_880_000_000_000,
            );
        }
        let det: i64 = vec_dot(self.edges[0], pv);

        // The ray is parallel to the triangle's plane, or approaches the
        // back face: both are rejected by the one threshold test.
        if det < eta() {
            return None;
        }
        let tv: Vec3 = vec_sub(ray.origin, self.vertices[0]);
        proof {
            lemma_dot3_bound(
                tv@,
                pv@,
                101_000_000_000,
                4_800_000_000,
                484_800_000_000_000,
            );
        }
        let u: i64 = vec_dot(tv, pv);
        if u < 0 || u > det {
            return None;
        }
        proof {
            lemma_cross3_bound(
                tv@,
                self.edges@[0]@,
                101_000_000_000,
                600_000_000,
                60_600_000_000_000,
            );
        }
        let q: Vec3 = vec_cross(tv, self.edges[0]);
        proof {
            lemma_dot3_bound(
                ray.direction@,
                q@,
                4_000_000,
                121_200_000_000_000,
                484_800_000_000_000,
            );
        }
        let v: i64 = vec_dot(ray.direction, q);
        if v < 0 || u + v > det {
            return None;
        }
        proof {
            lemma_dot3_bound(
                self.edges@[1]@,
                q@,
                600_000_000,
                121_200_000_000_000,
                72_720_000_000_000_000,
            );
        }
        let e1q: i64 = vec_dot(self.edges[1], q);
        let dist: i64 = match div_fx_checked(e1q, det) {
            Some(d) => d,
            None => {
                return None;
            },
        };
        if dist < -DIST_MAX || dist > DIST_MAX {
            return None;
        }
        proof {
            lemma_mul_mag(ray.direction@.0, dist as int, 4_000_000, 1_000_000_000_000);
            lemma_mul_mag(ray.direction@.1, dist as int, 4_000_000, 1_000_000_000_000);
            lemma_mul_mag(ray.direction@.2, dist as int, 4_000_000, 1_000_000_000_000);
            lemma_mul_fx_s_bound(ray.direction@.0, dist as int, 4_000_000_000_000);
            lemma_mul_fx_s_bound(ray.direction@.1, dist as int, 4_000_000_000_000);
            lemma_mul_fx_s_bound(ray.direction@.2, dist as int, 4_000_000_000_000);
        }
        let scaled: Vec3 = vec_scale(ray.direction, dist);
        let p: Vec3 = vec_add(ray.origin, scaled);
        Some(HitRecord { p, normal: self.normal, distance: dist })
    }
}

/// For a triangle built from parameters whose edge cross product is not
/// degenerate (at least half a unit long), the precomputed plane normal is
/// near unit length: its squared magnitude is within a few millionths of
/// one. Every hit on such a triangle reports that normal.
pub proof fn lemma_triangle_normal_near_unit(p: TriangleParameters, t: Triangle)
    requires
        triangle_from_params_s(p, t),
        crate::vector::mag2_s(cross3_s(t.edges@[0]@, t.edges@[1]@)) >= 250_000,
    ensures
        1_000_000 - 8 <= crate::vector::mag2_s(t.normal@) <= 1_000_000 + 18,
{
    crate::vector::lemma_normalize_near_unit(cross3_s(t.edges@[0]@, t.edges@[1]@));
}

/// For every ray and every triangle, a reported hit carries the triangle's
/// precomputed plane normal and a distance within the supported range;
/// because back faces are culled without a sign test on the distance, the
/// distance can be negative, and the acceleration layer filters such hits.
pub proof fn lemma_triangle_hit_bounds(t: Triangle, ray: Ray)
    ensures
        match triangle_hit_s(t, ray) {
            Some(h) => -(DIST_MAX as int) <= h.2 <= DIST_MAX as int && h.1 == t.normal@,
            None => true,
        },
{
}

} // verus!
