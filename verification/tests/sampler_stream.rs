//! Sampler tests: range, determinism, and the primitive samplers.

use tracer::sampler::primitives::{sample_unit_disk, sample_unit_sphere};
use tracer::sampler::random::Random;
use tracer::sampler::{InPlace, Sampler, SamplerError, Sequential};
use tracer::types::Dimension;

#[test]
fn test_sample_unit_sphere() {
    let mut sampler = Random::default();

    for _ in 0..100 {
        let sphere_coordinates = sample_unit_sphere(&mut sampler);

        // Basic sanity check: every coordinate lies within the proper range.
        assert!(sphere_coordinates.x >= -1_000_000 && sphere_coordinates.x <= 1_000_000);
        assert!(sphere_coordinates.y >= -1_000_000 && sphere_coordinates.y <= 1_000_000);
        assert!(sphere_coordinates.z >= -1_000_000 && sphere_coordinates.z <= 1_000_000);
    }
}

// Every sphere sample lies strictly inside the unit sphere, and every
// disk sample strictly inside the unit disk with a zero z component.
#[test]
fn primitive_samples_lie_inside() {
    let mut sampler = Random::with_seed(7);
    for _ in 0..200 {
        let s = sample_unit_sphere(&mut sampler);
        let m2 = (s.x * s.x + s.y * s.y + s.z * s.z) / 1_000_000;
        assert!(m2 < 1_000_000);
        let d = sample_unit_disk(&mut sampler);
        assert!(d.z == 0);
        assert!((d.x * d.x + d.y * d.y) / 1_000_000 < 1_000_000);
    }
}

// Every sampler draw lies in [0, 1).
#[test]
fn samples_in_unit_interval() {
    let mut sampler = Random::with_seed(99);
    for _ in 0..100 {
        let x = sampler.next_fx();
        assert!(0 <= x && x < 1_000_000);
    }
    let batch = sampler.next(16).unwrap();
    assert_eq!(batch.len(), 16);
    for x in batch {
        assert!(0 <= x && x < 1_000_000);
    }
}

// The stream is deterministic in the seed: the same seed reproduces the
// same values, and different seeds give a different stream.
#[test]
fn stream_is_deterministic_in_seed() {
    let mut a = Random::with_seed(42);
    let mut b = Random::with_seed(42);
    let va = a.get_next(32).unwrap();
    let vb = b.get_next(32).unwrap();
    assert_eq!(va, vb);

    let mut c = Random::with_seed(43);
    let vc = c.get_next(32).unwrap();
    assert_ne!(va, vc);

    // A replica continues the same stream as its original.
    let mut d = Random::with_seed(42);
    let _ = d.get_next(32).unwrap();
    let mut e = d.replicate();
    assert_eq!(d.get_next(8).unwrap(), e.get_next(8).unwrap());
}

// The in-place and indexed interfaces draw from the same underlying
// stream as the sequential one.
#[test]
fn trait_interfaces_share_the_stream() {
    let mut a = Random::with_seed(17);
    let mut b = Random::with_seed(17);
    let first = a.next_fx();
    let second = a.next_fx();
    assert_eq!(b.sample(0, 0).unwrap(), first);
    assert_eq!(b.sample_idx(5).unwrap(), second);
    let mut c = Random::with_seed(17);
    let pair = c.sampler_idx_dims(9, 2).unwrap();
    assert_eq!(pair, vec![first, second]);
}

// The error type carries its variants.
#[test]
fn sampler_error_variants() {
    let e = SamplerError::TooManyDims;
    assert_eq!(e, SamplerError::TooManyDims);
    assert_ne!(SamplerError::NoSamplesRemaining, SamplerError::TooManyDims);
}

// The dimension helper walks x, y, z in component order.
#[test]
fn dimension_order() {
    let dims = Dimension::iterator();
    assert_eq!(dims.len(), 3);
    assert_eq!(dims[0].index(), 0);
    assert_eq!(dims[1].index(), 1);
    assert_eq!(dims[2].index(), 2);
    assert_eq!(dims[0].next(), Some(Dimension::Y));
    assert_eq!(dims[1].next(), Some(Dimension::Z));
    assert_eq!(dims[2].next(), None);
    assert_eq!(dims[0].label(), "X");
}
