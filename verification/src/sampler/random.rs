//! A basic random sampler, deterministic in its 64-bit seed.
//!
//! The pseudo-random stream itself comes from the `rand` crate's standard
//! generator. What that generator emits is a pure function of the seed and
//! of how many values have been drawn, so the stream is given a name,
//! `std_rng_out`, and every verified contract above this module speaks of
//! the stream through that name.

use crate::sampler::{InPlace, Sampler, SamplerResult, Sequential};
use vstd::arithmetic::div_mod::{lemma_div_is_ordered, lemma_div_pos_is_pos};
use vstd::prelude::*;

verus! {

#[verifier::external_type_specification]
#[verifier::external_body]
pub struct ExStdRng(rand::rngs::StdRng);

/// The value that the standard generator seeded with `seed` emits as its
/// `idx`-th 32-bit output. The generator is a pure function of its seed, so
/// the whole stream is one as well; no contract says what the values are.
pub uninterp spec fn std_rng_out(seed: u64, idx: nat) -> u32;

/// The `idx`-th fixed-point sample of the stream for `seed`: the 32-bit
/// output scaled into `[0, SCALE)`.
pub open spec fn stream_fx(seed: u64, idx: nat) -> int {
    ((std_rng_out(seed, idx) as int) * 1_000_000) / 0x1_0000_0000
}

/// An implementation of a basic random sampler.
///
/// The sampler is deterministic given its seed: the ghost fields record the
/// seed and how many values have been drawn, and every draw is specified as
/// the named stream value at that position.
pub struct Random {
    prng: rand::rngs::StdRng,
    seed: Ghost<u64>,
    drawn: Ghost<nat>,
}

/// The seed a sampler's stream was started from.
pub closed spec fn seed_of(s: Random) -> u64 {
    s.seed@
}

/// How many 32-bit values a sampler has drawn so far.
pub closed spec fn drawn_of(s: Random) -> nat {
    s.drawn@
}

/// Relies on `rand::rngs::StdRng::seed_from_u64`: the generator state is a
/// pure function of the seed. `Random::with_seed` records that seed in its
/// ghost fields, and `Random::next_raw` states what each draw from such a
/// state returns.
#[verifier::external_body]
fn fresh_rng(seed: u64) -> rand::rngs::StdRng {
    <rand::rngs::StdRng as rand::SeedableRng>::seed_from_u64(seed)
}

/// Relies on `rand::rngs::StdRng`'s `Clone`: the clone carries the whole
/// generator state over unchanged, so it continues the same stream.
#[verifier::external_body]
fn clone_rng(r: &rand::rngs::StdRng) -> rand::rngs::StdRng {
    r.clone()
}

impl Random {
    /// Create a new random sampler with a given seed.
    pub fn with_seed(seed: u64) -> (r: Random)
        ensures
            seed_of(r) == seed,
            drawn_of(r) == 0,
    {
        Random { prng: fresh_rng(seed), seed: Ghost(seed), drawn: Ghost(0nat) }
    }

    /// A copy of this sampler that continues the same stream.
    pub fn replicate(&self) -> (r: Random)
        ensures
            seed_of(r) == seed_of(*self),
            drawn_of(r) == drawn_of(*self),
    {
        Random { prng: clone_rng(&self.prng), seed: Ghost(self.seed@), drawn: Ghost(self.drawn@) }
    }

    /// Relies on `rand::rngs::StdRng::next_u32` (through `rand::RngCore`):
    /// the next output is a pure function of the generator state, which is in
    /// turn a pure function of the seed and the number of values drawn.
    #[verifier::external_body]
    fn next_raw(&mut self) -> (r: u32)
        ensures
            seed_of(*final(self)) == seed_of(*old(self)),
            drawn_of(*final(self)) == drawn_of(*old(self)) + 1,
            r == std_rng_out(seed_of(*old(self)), drawn_of(*old(self))),
    {
        <rand::rngs::StdRng as rand::RngCore>::next_u32(&mut self.prng)
    }

    /// Draw the next fixed-point sample in `[0, SCALE)`.
    pub fn next_fx(&mut self) -> (r: i64)
        ensures
            seed_of(*final(self)) == seed_of(*old(self)),
            drawn_of(*final(self)) == drawn_of(*old(self)) + 1,
            r == stream_fx(seed_of(*old(self)), drawn_of(*old(self))),
            0 <= r < 1_000_000,
    {
        let raw: u32 = self.next_raw();
        let wide: u64 = (raw as u64) * 1_000_000;
        let scaled: u64 = wide / 4_294_967_296;
        proof {
            lemma_div_pos_is_pos(wide as int, 0x1_0000_0000);
            lemma_div_is_ordered(wide as int, 4_294_967_295_000_000int, 0x1_0000_0000);
        }
        scaled as i64
    }
}

impl Default for Random {
    /// The default sampler uses the fixed seed the renderer has always used.
    fn default() -> (r: Random)
        ensures
            seed_of(r) == 42u64,
            drawn_of(r) == 0,
    {
        Random::with_seed(42)
    }
}

impl Sequential for Random {
    /// The random sampler never fails: every call succeeds with exactly
    /// the requested number of consecutive stream values.
    fn get_next(&mut self, dimensions: u32) -> (r: SamplerResult<Vec<i64>>)
        ensures
            r is Ok,
            seed_of(*final(self)) == seed_of(*old(self)),
            drawn_of(*final(self)) == drawn_of(*old(self)) + dimensions,
            r matches Ok(v) ==> v@.len() == dimensions && forall|i: int|
                0 <= i < dimensions ==> v@[i] == stream_fx(
                    seed_of(*old(self)),
                    (drawn_of(*old(self)) + i) as nat,
                ) && 0 <= #[trigger] v@[i] < 1_000_000,
    {
        Ok(self.draw_vec(dimensions))
    }
}

impl InPlace for Random {
    /// The random sampler never fails: every call succeeds with the next
    /// stream value, whatever index and dimension are asked for.
    fn sample(&mut self, _index: u32, _dim: u32) -> (r: SamplerResult<i64>)
        ensures
            r is Ok,
            seed_of(*final(self)) == seed_of(*old(self)),
            drawn_of(*final(self)) == drawn_of(*old(self)) + 1,
            r matches Ok(x) ==> x == stream_fx(seed_of(*old(self)), drawn_of(*old(self))) && 0
                <= x < 1_000_000,
    {
        Ok(self.next_fx())
    }
}

impl Sampler for Random {
    /// The random sampler never fails: every call succeeds with the next
    /// stream value, whatever index is asked for.
    fn sample_idx(&mut self, _index: u32) -> (r: SamplerResult<i64>)
        ensures
            r is Ok,
            seed_of(*final(self)) == seed_of(*old(self)),
            drawn_of(*final(self)) == drawn_of(*old(self)) + 1,
            r matches Ok(x) ==> x == stream_fx(seed_of(*old(self)), drawn_of(*old(self))) && 0
                <= x < 1_000_000,
    {
        Ok(self.next_fx())
    }

    /// The random sampler never fails: every call succeeds with exactly
    /// the requested number of consecutive stream values.
    fn sampler_idx_dims(&mut self, _index: u32, dimensions: u32) -> (r: SamplerResult<Vec<i64>>)
        ensures
            r is Ok,
            seed_of(*final(self)) == seed_of(*old(self)),
            drawn_of(*final(self)) == drawn_of(*old(self)) + dimensions,
            r matches Ok(v) ==> v@.len() == dimensions && forall|i: int|
                0 <= i < dimensions ==> v@[i] == stream_fx(
                    seed_of(*old(self)),
                    (drawn_of(*old(self)) + i) as nat,
                ) && 0 <= #[trigger] v@[i] < 1_000_000,
    {
        Ok(self.draw_vec(dimensions))
    }

    /// The random sampler never fails: every call succeeds with exactly
    /// the requested number of consecutive stream values.
    fn next(&mut self, dimensions: u32) -> (r: SamplerResult<Vec<i64>>)
        ensures
            r is Ok,
            seed_of(*final(self)) == seed_of(*old(self)),
            drawn_of(*final(self)) == drawn_of(*old(self)) + dimensions,
            r matches Ok(v) ==> v@.len() == dimensions && forall|i: int|
                0 <= i < dimensions ==> v@[i] == stream_fx(
                    seed_of(*old(self)),
                    (drawn_of(*old(self)) + i) as nat,
                ) && 0 <= #[trigger] v@[i] < 1_000_000,
    {
        Ok(self.draw_vec(dimensions))
    }
}

impl Random {
    /// Draw a vector of consecutive stream samples.
    pub fn draw_vec(&mut self, dimensions: u32) -> (r: Vec<i64>)
        ensures
            seed_of(*final(self)) == seed_of(*old(self)),
            drawn_of(*final(self)) == drawn_of(*old(self)) + dimensions,
            r@.len() == dimensions,
            forall|i: int|
                0 <= i < dimensions ==> r@[i] == stream_fx(
                    seed_of(*old(self)),
                    (drawn_of(*old(self)) + i) as nat,
                ) && 0 <= #[trigger] r@[i] < 1_000_000,
    {
        let mut v: Vec<i64> = Vec::new();
        let mut i: u32 = 0;
        while i < dimensions
            invariant
                i <= dimensions,
                v@.len() == i,
                seed_of(*self) == seed_of(*old(self)),
                drawn_of(*self) == drawn_of(*old(self)) + i,
                forall|j: int|
                    0 <= j < i ==> v@[j] == stream_fx(
                        seed_of(*old(self)),
                        (drawn_of(*old(self)) + j) as nat,
                    ) && 0 <= #[trigger] v@[j] < 1_000_000,
            decreases dimensions - i,
        {
            let x: i64 = self.next_fx();
            v.push(x);
            i = i + 1;
        }
        v
    }
}

} // verus!
