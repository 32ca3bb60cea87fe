//! The "list" acceleration structure: a linear scan over every object.

use crate::accel::{arena_ok_s, collision_s, collision_upto_s, AccelRecord, AccelResult};
use crate::fixed::{eta, ETA};
use crate::hittable::{hit_rec_ok, HitRecord, Textured};
use crate::ray::{ray_ok_s, Ray};
use vstd::prelude::*;

verus! {

/// The parameters for a basic object list; the list takes none.
#[derive(Clone, Copy, PartialEq, Eq, Structural, Debug)]
pub struct ObjectListParams {}

/// A naive list "acceleration structure": every query traverses every
/// object in the scene and keeps the closest acceptable intersection.
#[derive(Clone, PartialEq, Eq, Debug)]
pub struct ObjectList {
    /// Every object in the scene.
    pub objects: Vec<Textured>,
}

impl ObjectList {
    /// Build the list over the given arena.
    pub fn new(objects: Vec<Textured>) -> (r: AccelResult<ObjectList>)
        ensures
            match r {
                Ok(l) => l.objects@ == objects@,
                Err(_) => false,
            },
    {
        Ok(ObjectList { objects })
    }

    /// Return the closest collision of the ray with any object: the hit
    /// with the smallest distance, among those at least `ETA` away. Of two
    /// equally distant hits the earlier object wins.
    pub fn collision(&self, ray: &Ray) -> (r: Option<AccelRecord>)
        requires
            arena_ok_s(self.objects@),
        ensures
            match r {
                Some(a) => collision_s(self.objects@, *ray) == Some(
                    (a.object as int, a.hit_record@),
                ) && a.object < self.objects@.len() && hit_rec_ok(a.hit_record@)
                    && a.hit_record.distance >= ETA,
                None => collision_s(self.objects@, *ray) is None,
            },
    {
        // A degenerate ray cannot be intersected with anything: the query
        // answers that nothing was hit.
        if !ray.is_supported() {
            return None;
        }
        let mut best: Option<AccelRecord> = None;
        let mut i: usize = 0;
        let threshold: i64 = eta();
        while i < self.objects.len()
            invariant
                i <= self.objects@.len(),
                ray_ok_s(ray@),
                arena_ok_s(self.objects@),
                threshold == ETA,
                match best {
                    Some(a) => collision_upto_s(self.objects@, *ray, i as int) == Some(
                        (a.object as int, a.hit_record@),
                    ) && a.object < i && hit_rec_ok(a.hit_record@) && a.hit_record.distance
                        >= ETA,
                    None => collision_upto_s(self.objects@, *ray, i as int) is None,
                },
            decreases self.objects@.len() - i,
        {
            let obj: &Textured = &self.objects[i];
            let hit: Option<HitRecord> = obj.geometry.hit(ray);
            match hit {
                Some(h) => {
                    if h.distance >= threshold {
                        match best {
                            Some(b) => {
                                if h.distance < b.hit_record.distance {
                                    best = Some(AccelRecord { hit_record: h, object: i });
                                }
                            },
                            None => {
                                best = Some(AccelRecord { hit_record: h, object: i });
                            },
                        }
                    }
                },
                None => {},
            }
            i = i + 1;
        }
        best
    }
}

} // verus!
