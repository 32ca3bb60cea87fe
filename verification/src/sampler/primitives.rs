//! Sampling functions for geometric primitives.
//!
//! Both samplers reject candidates by magnitude, so the number of draws a
//! call consumes depends on the stream. The rejection loop carries a very
//! large retry budget; if every candidate were rejected the sampler returns
//! the center of the primitive, so the results below are total functions of
//! the seed and the stream position.

use crate::sampler::random::{drawn_of, seed_of, stream_fx, Random};
use crate::vector::{bounded3, mag2_s, vec_mag2, Vec3};
use vstd::prelude::*;

verus! {

/// The number of candidates a rejection sampler will try before settling
/// on the center point. Each candidate lands inside the primitive with
/// probability near one half, so the budget is never exhausted in practice.
pub const REJECT_BUDGET: u32 = 1000;

/// The candidate vector for the unit-sphere sampler at stream position
/// `idx`: three samples stretched from `[0, 1)` to `[-1, 1)`.
pub open spec fn sphere_cand_s(seed: u64, idx: nat) -> (int, int, int) {
    (
        2 * stream_fx(seed, idx) - 1_000_000,
        2 * stream_fx(seed, (idx + 1) as nat) - 1_000_000,
        2 * stream_fx(seed, (idx + 2) as nat) - 1_000_000,
    )
}

/// What the unit-sphere sampler returns and where it leaves the stream:
/// the first candidate with squared magnitude below one, or the center
/// once the retry budget runs out.
pub open spec fn sphere_pick_s(seed: u64, idx: nat, fuel: nat) -> ((int, int, int), nat)
    decreases fuel,
{
    let v = sphere_cand_s(seed, idx);
    if mag2_s(v) < 1_000_000 {
        (v, (idx + 3) as nat)
    } else if fuel == 0 {
        ((0int, 0int, 0int), (idx + 3) as nat)
    } else {
        sphere_pick_s(seed, (idx + 3) as nat, (fuel - 1) as nat)
    }
}

/// The candidate vector for the unit-disk sampler at stream position `idx`:
/// two samples stretched to `[-1, 1)`, in the `xy` plane.
pub open spec fn disk_cand_s(seed: u64, idx: nat) -> (int, int, int) {
    (2 * stream_fx(seed, idx) - 1_000_000, 2 * stream_fx(seed, (idx + 1) as nat) - 1_000_000, 0int)
}

/// What the unit-disk sampler returns and where it leaves the stream.
pub open spec fn disk_pick_s(seed: u64, idx: nat, fuel: nat) -> ((int, int, int), nat)
    decreases fuel,
{
    let v = disk_cand_s(seed, idx);
    if mag2_s(v) < 1_000_000 {
        (v, (idx + 2) as nat)
    } else if fuel == 0 {
        ((0int, 0int, 0int), (idx + 2) as nat)
    } else {
        disk_pick_s(seed, (idx + 2) as nat, (fuel - 1) as nat)
    }
}

fn sphere_helper(s: &mut Random, fuel: u32) -> (r: Vec3)
    ensures
        seed_of(*final(s)) == seed_of(*old(s)),
        (r@, drawn_of(*final(s))) == sphere_pick_s(seed_of(*old(s)), drawn_of(*old(s)), fuel as nat),
        mag2_s(r@) < 1_000_000,
        bounded3(r@, 1_000_000),
    decreases fuel,
{
    let a: i64 = s.next_fx();
    let b: i64 = s.next_fx();
    let c: i64 = s.next_fx();
    let v = Vec3 { x: 2 * a - 1_000_000, y: 2 * b - 1_000_000, z: 2 * c - 1_000_000 };
    assert(v@ == sphere_cand_s(seed_of(*old(s)), drawn_of(*old(s))));
    let m2: i64 = vec_mag2(v);
    if m2 < 1_000_000 {
        v
    } else if fuel == 0 {
        let zero = Vec3 { x: 0, y: 0, z: 0 };
        assert(mag2_s(zero@) == 0) by {
            assert(crate::fixed::mul_fx_s(0, 0) == 0);
        }
        zero
    } else {
        sphere_helper(s, fuel - 1)
    }
}

/// Generate a random sample in the unit sphere by rejection sampling: the
/// returned vector always has squared magnitude below one.
pub fn sample_unit_sphere(s: &mut Random) -> (r: Vec3)
    ensures
        seed_of(*final(s)) == seed_of(*old(s)),
        (r@, drawn_of(*final(s))) == sphere_pick_s(seed_of(*old(s)), drawn_of(*old(s)), REJECT_BUDGET as nat),
        mag2_s(r@) < 1_000_000,
        bounded3(r@, 1_000_000),
{
    sphere_helper(s, REJECT_BUDGET)
}

fn disk_helper(s: &mut Random, fuel: u32) -> (r: Vec3)
    ensures
        seed_of(*final(s)) == seed_of(*old(s)),
        (r@, drawn_of(*final(s))) == disk_pick_s(seed_of(*old(s)), drawn_of(*old(s)), fuel as nat),
        mag2_s(r@) < 1_000_000,
        bounded3(r@, 1_000_000),
        r@.2 == 0,
    decreases fuel,
{
    let a: i64 = s.next_fx();
    let b: i64 = s.next_fx();
    let v = Vec3 { x: 2 * a - 1_000_000, y: 2 * b - 1_000_000, z: 0 };
    assert(v@ == disk_cand_s(seed_of(*old(s)), drawn_of(*old(s))));
    let m2: i64 = vec_mag2(v);
    if m2 < 1_000_000 {
        v
    } else if fuel == 0 {
        let zero = Vec3 { x: 0, y: 0, z: 0 };
        assert(mag2_s(zero@) == 0) by {
            assert(crate::fixed::mul_fx_s(0, 0) == 0);
        }
        zero
    } else {
        disk_helper(s, fuel - 1)
    }
}

/// Generate a random sample in the unit disk of the `xy` plane by rejection
/// sampling: the returned vector has squared magnitude below one and a zero
/// `z` component.
pub fn sample_unit_disk(s: &mut Random) -> (r: Vec3)
    ensures
        seed_of(*final(s)) == seed_of(*old(s)),
        (r@, drawn_of(*final(s))) == disk_pick_s(seed_of(*old(s)), drawn_of(*old(s)), REJECT_BUDGET as nat),
        mag2_s(r@) < 1_000_000,
        bounded3(r@, 1_000_000),
        r@.2 == 0,
{
    disk_helper(s, REJECT_BUDGET)
}

} // verus!
