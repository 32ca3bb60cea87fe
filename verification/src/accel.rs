//! The acceleration structure: the closest-intersection query over the
//! scene's objects.

use crate::fixed::ETA;
use crate::hittable::{hit_rec_ok, hittable_hit_s, textured_ok_s, HitRecord, Textured};
use crate::ray::{ray_ok_s, Ray};
use vstd::prelude::*;

pub mod list;

pub use list::{ObjectList, ObjectListParams};

verus! {

/// An error associated with acceleration structures.
#[derive(Clone, Copy, PartialEq, Eq, Structural, Debug)]
pub enum AccelError {
    /// There must be at least one object passed to the constructor.
    NoObjects,
}

impl AccelError {
    /// A human-readable description of the error.
    pub fn message(&self) -> (r: &'static str)
        ensures
            r@ == "There must be at least one object passed to the constructor"@,
    {
        "There must be at least one object passed to the constructor"
    }
}

/// A result that can return an `AccelError`.
pub type AccelResult<T> = Result<T, AccelError>;

/// Every object of an arena is well formed: the scene binding checks each
/// one as it builds the arena.
pub open spec fn arena_ok_s(objs: Seq<Textured>) -> bool {
    forall|i: int| 0 <= i < objs.len() ==> textured_ok_s(#[trigger] objs[i])
}

/// The result of a query to an acceleration structure: the collision
/// details plus the index of the textured object that was hit.
#[derive(Clone, Copy, PartialEq, Eq, Structural, Debug)]
pub struct AccelRecord {
    /// The details of the collision.
    pub hit_record: HitRecord,
    /// The index, in the arena, of the object that was hit.
    pub object: usize,
}

/// The closest acceptable hit among the first `n` objects of the arena:
/// hits closer than `ETA` are rejected to avoid self-intersection, and of
/// two equally distant hits the earlier object wins.
pub open spec fn collision_upto_s(objs: Seq<Textured>, ray: Ray, n: int) -> Option<
    (int, ((int, int, int), (int, int, int), int)),
>
    decreases n,
{
    if n <= 0 {
        None
    } else {
        let prev = collision_upto_s(objs, ray, n - 1);
        match hittable_hit_s(objs[n - 1].geometry, ray) {
            Some(h) => {
                if h.2 < ETA as int {
                    prev
                } else {
                    match prev {
                        Some(ph) => {
                            if h.2 < ph.1.2 {
                                Some((n - 1, h))
                            } else {
                                prev
                            }
                        },
                        None => Some((n - 1, h)),
                    }
                }
            },
            None => prev,
        }
    }
}

/// What an acceleration query over the whole arena returns. The query is
/// total: a degenerate ray — outside the supported world volume, or with
/// a direction too short to intersect anything meaningfully — collides
/// with nothing.
pub open spec fn collision_s(objs: Seq<Textured>, ray: Ray) -> Option<
    (int, ((int, int, int), (int, int, int), int)),
> {
    if !ray_ok_s(ray@) {
        None
    } else {
        collision_upto_s(objs, ray, objs.len() as int)
    }
}

/// An empty arena collides with nothing, whatever the ray.
pub proof fn lemma_empty_arena_no_collision(objs: Seq<Textured>, ray: Ray)
    requires
        objs.len() == 0,
    ensures
        collision_s(objs, ray) is None,
{
}

/// Whatever the acceleration query returns lies no closer than `ETA`:
/// intersections within the error threshold of the ray origin are
/// rejected, so a reported collision always has `distance >= ETA`.
pub proof fn lemma_collision_distance_at_least_eta(objs: Seq<Textured>, ray: Ray, n: int)
    ensures
        match collision_upto_s(objs, ray, n) {
            Some(c) => c.1.2 >= ETA as int && 0 <= c.0 < n,
            None => true,
        },
    decreases n,
{
    if n > 0 {
        lemma_collision_distance_at_least_eta(objs, ray, n - 1);
    }
}

/// The different acceleration structures that a scene description can ask
/// for.
#[derive(Clone, Copy, PartialEq, Eq, Structural, Debug)]
pub enum SerializedAccelerationStruct {
    ObjectList(ObjectListParams),
}

/// Any acceleration structure the renderer can run with.
#[derive(Clone, PartialEq, Eq, Debug)]
pub enum Accel {
    ObjectList(ObjectList),
}

/// The arena an acceleration structure holds.
pub open spec fn accel_arena_s(a: Accel) -> Seq<Textured> {
    match a {
        Accel::ObjectList(l) => l.objects@,
    }
}

impl SerializedAccelerationStruct {
    /// Construct an acceleration structure over the given arena.
    pub fn to_accel(self, arena: Vec<Textured>) -> (r: AccelResult<Accel>)
        ensures
            match r {
                Ok(a) => accel_arena_s(a) == arena@,
                Err(_) => false,
            },
    {
        match self {
            SerializedAccelerationStruct::ObjectList(_params) => {
                match ObjectList::new(arena) {
                    Ok(l) => Ok(Accel::ObjectList(l)),
                    Err(e) => Err(e),
                }
            },
        }
    }
}

impl Accel {
    /// The arena object at the given index.
    pub fn object_at(&self, i: usize) -> (r: &Textured)
        requires
            i < accel_arena_s(*self).len(),
        ensures
            *r == accel_arena_s(*self)[i as int],
    {
        match self {
            Accel::ObjectList(l) => &l.objects[i],
        }
    }

    /// Return the closest collision of the ray with the scene, if any:
    /// the hit with the smallest distance at least `ETA`.
    pub fn collision(&self, ray: &Ray) -> (r: Option<AccelRecord>)
        requires
            arena_ok_s(accel_arena_s(*self)),
        ensures
            match r {
                Some(a) => collision_s(accel_arena_s(*self), *ray) == Some(
                    (a.object as int, a.hit_record@),
                ) && a.object < accel_arena_s(*self).len() && hit_rec_ok(a.hit_record@)
                    && a.hit_record.distance >= ETA,
                None => collision_s(accel_arena_s(*self), *ray) is None,
            },
    {
        match self {
            Accel::ObjectList(l) => l.collision(ray),
        }
    }
}

} // verus!
