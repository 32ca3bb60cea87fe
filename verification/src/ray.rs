//! A ray: an origin point and a direction vector.

use crate::vector::{bounded3, mag2_s, Vec3};
use vstd::prelude::*;

verus! {

/// Largest magnitude a ray-origin component may have for the intersection
/// arithmetic to stay within the 64-bit scalar.
pub const ORIGIN_MAX: i64 = 100_000_000_000;

/// Largest magnitude a ray-direction component may have. Directions are kept
/// near unit length, so twice the vector-normalization bound is ample.
pub const DIR_MAX: i64 = 4_000_000;

/// Smallest squared magnitude a usable ray direction may have (half a unit
/// squared): shorter directions are treated as degenerate.
pub const DIR_MIN_MAG2: i64 = 500_000;

/// A ray with an origin point and a direction vector. The direction is kept
/// near unit length by the cameras and the materials.
#[derive(Clone, Copy, PartialEq, Eq, Structural, Debug)]
pub struct Ray {
    /// The origin point of the ray in world space.
    pub origin: Vec3,
    /// The direction of the ray.
    pub direction: Vec3,
}

impl View for Ray {
    type V = ((int, int, int), (int, int, int));

    open spec fn view(&self) -> ((int, int, int), (int, int, int)) {
        (self.origin@, self.direction@)
    }
}

/// A ray the intersection routines accept: origin within the supported
/// world volume and a near-unit direction.
pub open spec fn ray_ok_s(r: ((int, int, int), (int, int, int))) -> bool {
    &&& bounded3(r.0, ORIGIN_MAX as int)
    &&& bounded3(r.1, DIR_MAX as int)
    &&& mag2_s(r.1) >= DIR_MIN_MAG2 as int
}

/// The ray with the given origin and direction views; meaningful when the
/// components lie within the 64-bit scalar, as every ray of the renderer
/// does.
pub open spec fn ray_of_s(o: (int, int, int), d: (int, int, int)) -> Ray {
    Ray {
        origin: Vec3 { x: o.0 as i64, y: o.1 as i64, z: o.2 as i64 },
        direction: Vec3 { x: d.0 as i64, y: d.1 as i64, z: d.2 as i64 },
    }
}

impl Ray {
    /// A convenience method to create a new ray given an origin and direction.
    pub fn new(origin: Vec3, direction: Vec3) -> (r: Ray)
        ensures
            r@ == (origin@, direction@),
    {
        Ray { origin, direction }
    }

    /// Whether this ray is within the volume and direction ranges that the
    /// intersection routines support; the integrators treat any other ray
    /// as escaped.
    pub fn is_supported(&self) -> (r: bool)
        ensures
            r == ray_ok_s(self@),
    {
        let o = self.origin;
        let d = self.direction;
        if o.x < -ORIGIN_MAX || o.x > ORIGIN_MAX || o.y < -ORIGIN_MAX || o.y > ORIGIN_MAX || o.z
            < -ORIGIN_MAX || o.z > ORIGIN_MAX {
            return false;
        }
        if d.x < -DIR_MAX || d.x > DIR_MAX || d.y < -DIR_MAX || d.y > DIR_MAX || d.z < -DIR_MAX
            || d.z > DIR_MAX {
            return false;
        }
        let m2: i64 = crate::vector::vec_mag2(d);
        m2 >= DIR_MIN_MAG2
    }
}

} // verus!
