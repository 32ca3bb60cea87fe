//! Objects in a scene that a ray can intersect with.
//!
//! The geometric primitives form a closed set dispatched from the scene
//! description, so they are a tagged union rather than an open trait; the
//! acceleration layer and the integrators see only this union.

use crate::material::{material_ok_s, SerializedMaterial};
use crate::vector::{bounded3, Vec3};
use vstd::prelude::*;

pub mod sphere;
pub mod triangle;

pub use sphere::Sphere;
pub use triangle::Triangle;
pub use triangle::TriangleParameters;

verus! {

/// Largest magnitude a scene coordinate (a sphere's center or radius) may
/// have: a bound the scene binding enforces so every intersection stays
/// within the 64-bit scalar.
pub const COORD_MAX: i64 = 10_000_000_000;

/// Largest magnitude a triangle vertex coordinate may have; triangles go
/// through a cross product of their edges, which squares the coordinates,
/// so their limit is tighter than the spheres'.
pub const TRI_COORD_MAX: i64 = 300_000_000;

/// The largest intersection distance the renderer reports; a hit farther
/// away than this (a million world units) is treated as no hit.
pub const DIST_MAX: i64 = 1_000_000_000_000;

/// Largest magnitude a reported hit point's component may have.
pub const HIT_P_MAX: i64 = 5_000_000_000_000;

/// Largest magnitude a reported hit normal's component may have: normals
/// are near unit length.
pub const HIT_N_MAX: i64 = 2_000_000;

/// Information pertaining to a ray intersection: where the object was hit,
/// the surface normal there, and the ray parameter of the hit.
#[derive(Clone, Copy, PartialEq, Eq, Structural, Debug)]
pub struct HitRecord {
    /// The point in space where the object was hit.
    pub p: Vec3,
    /// The normal vector for the intersection.
    pub normal: Vec3,
    /// The distance along the ray at which the collision happened.
    pub distance: i64,
}

impl View for HitRecord {
    type V = ((int, int, int), (int, int, int), int);

    open spec fn view(&self) -> ((int, int, int), (int, int, int), int) {
        (self.p@, self.normal@, self.distance as int)
    }
}

/// The view of an optional hit record.
pub open spec fn opt_hit_view(r: Option<HitRecord>) -> Option<
    ((int, int, int), (int, int, int), int),
> {
    match r {
        Some(h) => Some(h@),
        None => None,
    }
}

/// Every hit record the primitives report is bounded: the hit point lies in
/// the supported volume and the normal is near unit length.
pub open spec fn hit_rec_ok(h: ((int, int, int), (int, int, int), int)) -> bool {
    &&& bounded3(h.0, HIT_P_MAX as int)
    &&& bounded3(h.1, HIT_N_MAX as int)
    &&& -(DIST_MAX as int) <= h.2 <= DIST_MAX as int
}

/// Any geometric primitive of the scene that a ray can hit.
#[derive(Clone, Copy, PartialEq, Eq, Debug)]
pub enum Hittable {
    Sphere(Sphere),
    Triangle(Triangle),
}

/// A well-formed primitive: one whose coordinates the scene binding has
/// checked against the supported ranges.
pub open spec fn hittable_ok_s(h: Hittable) -> bool {
    match h {
        Hittable::Sphere(s) => sphere::sphere_ok_s(s),
        Hittable::Triangle(t) => triangle::triangle_ok_s(t),
    }
}

/// What `Hittable::hit` returns for each primitive.
pub open spec fn hittable_hit_s(h: Hittable, ray: crate::ray::Ray) -> Option<
    ((int, int, int), (int, int, int), int),
> {
    match h {
        Hittable::Sphere(s) => sphere::sphere_hit_s(s, ray),
        Hittable::Triangle(t) => triangle::triangle_hit_s(t, ray),
    }
}

/// The different primitives that can appear in a scene description; a
/// triangle arrives as its parameters and is initialized into its runtime
/// form by the scene binding.
#[derive(Clone, Copy, PartialEq, Eq, Debug)]
pub enum SerializedHittable {
    Sphere(Sphere),
    Triangle(TriangleParameters),
}

/// A well-formed serialized primitive: coordinates within the ranges the
/// scene binding accepts.
pub open spec fn serialized_hittable_ok_s(h: SerializedHittable) -> bool {
    match h {
        SerializedHittable::Sphere(s) => sphere::sphere_ok_s(s),
        SerializedHittable::Triangle(p) => triangle::triangle_params_ok_s(p),
    }
}

/// An object in the scene that can be intersected geometrically and that
/// carries the material telling how light scatters off it.
#[derive(Clone, Copy, PartialEq, Eq, Debug)]
pub struct Textured {
    /// The geometric primitive that might be hit by a ray.
    pub geometry: Hittable,
    /// The material paired with the geometry.
    pub mat: SerializedMaterial,
}

/// A serializable pairing of a primitive and a material.
#[derive(Clone, Copy, PartialEq, Eq, Debug)]
pub struct SerializedTextured {
    /// The geometric primitive that might be hit by a ray.
    pub geometry: SerializedHittable,
    /// The material paired with the geometry.
    pub mat: SerializedMaterial,
}

/// A well-formed scene object: checked geometry and a checked material.
pub open spec fn textured_ok_s(t: Textured) -> bool {
    &&& hittable_ok_s(t.geometry)
    &&& material_ok_s(t.mat)
}

impl SerializedTextured {
    /// Turn the serialized pairing into the runtime object: a triangle's
    /// parameters are initialized, a sphere is used as it stands.
    pub fn to_textured(self) -> (r: Textured)
        requires
            serialized_hittable_ok_s(self.geometry),
        ensures
            r.mat == self.mat,
            match self.geometry {
                SerializedHittable::Sphere(s) => r.geometry == Hittable::Sphere(s),
                SerializedHittable::Triangle(p) => r.geometry is Triangle
                    && triangle::triangle_from_params_s(p, r.geometry->Triangle_0),
            },
            hittable_ok_s(r.geometry),
    {
        let geometry: Hittable = match self.geometry {
            SerializedHittable::Sphere(s) => Hittable::Sphere(s),
            SerializedHittable::Triangle(p) => Hittable::Triangle(p.init()),
        };
        Textured { geometry, mat: self.mat }
    }
}

impl Hittable {
    /// Whether the ray hits this primitive, and where.
    pub fn hit(&self, ray: &crate::ray::Ray) -> (r: Option<HitRecord>)
        requires
            crate::ray::ray_ok_s(ray@),
            hittable_ok_s(*self),
        ensures
            opt_hit_view(r) == hittable_hit_s(*self, *ray),
            r is Some ==> hit_rec_ok(r->Some_0@),
    {
        match self {
            Hittable::Sphere(s) => s.hit(ray),
            Hittable::Triangle(t) => t.hit(ray),
        }
    }
}

} // verus!
