//! The sampler interface.
//!
//! A sampler feeds reproducible uniform values in `[0, 1)` — in raw scalar
//! terms, in `[0, SCALE)` — to every stochastic step of the renderer.

use vstd::prelude::*;

pub mod primitives;
pub mod random;

verus! {

/// The possible errors that a sampler can return.
#[derive(Debug, Clone, PartialEq, Eq)]
pub enum SamplerError {
    /// The caller requested more dimensions than the sampler could provide.
    TooManyDims,
    /// The sampler has been exhausted and cannot generate any more samples.
    NoSamplesRemaining,
    /// The sampler could supply some, but not all, of the requested
    /// dimensions; the partial sample is handed back.
    IncompleteDimensions { sample: Vec<i64>, requested: u32, provided: u32 },
}

/// A convenient type alias for when a result can return a `SamplerError`.
pub type SamplerResult<T> = Result<T, SamplerError>;

/// Every value a sampler hands out lies in `[0, SCALE)`: a uniform sample
/// in `[0, 1)` of the fixed-point scalar.
pub open spec fn sample_in_range(v: int) -> bool {
    0 <= v < 1_000_000
}

/// All values of a sample vector lie in `[0, SCALE)`.
pub open spec fn samples_in_range(v: Seq<i64>) -> bool {
    forall|i: int| 0 <= i < v.len() ==> sample_in_range(#[trigger] v[i] as int)
}

/// The interface for a sampler that is queried sequentially.
pub trait Sequential {
    /// Retrieve the requested number of dimensions of the next sample.
    fn get_next(&mut self, dimensions: u32) -> (r: SamplerResult<Vec<i64>>)
        ensures
            match r {
                Ok(v) => v@.len() == dimensions && samples_in_range(v@),
                Err(_) => true,
            },
    ;
}

/// The interface for an in-place sampler that can produce any sample
/// on the fly.
pub trait InPlace {
    /// Sample a particular dimension and index.
    fn sample(&mut self, index: u32, dim: u32) -> (r: SamplerResult<i64>)
        ensures
            match r {
                Ok(v) => sample_in_range(v as int),
                Err(_) => true,
            },
    ;
}

/// The generic interface for a rendering sampler.
pub trait Sampler {
    /// Sample a particular index.
    fn sample_idx(&mut self, index: u32) -> (r: SamplerResult<i64>)
        ensures
            match r {
                Ok(v) => sample_in_range(v as int),
                Err(_) => true,
            },
    ;

    /// Request a certain number of dimensions for a particular index.
    fn sampler_idx_dims(&mut self, index: u32, dimensions: u32) -> (r: SamplerResult<Vec<i64>>)
        ensures
            match r {
                Ok(v) => v@.len() == dimensions && samples_in_range(v@),
                Err(_) => true,
            },
    ;

    /// Get the next `dimensions` samples.
    fn next(&mut self, dimensions: u32) -> (r: SamplerResult<Vec<i64>>)
        ensures
            match r {
                Ok(v) => v@.len() == dimensions && samples_in_range(v@),
                Err(_) => true,
            },
    ;
}

} // verus!
