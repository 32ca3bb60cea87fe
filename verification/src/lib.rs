//! An offline path-tracing renderer verified over a fixed-point scalar.
//!
//! Every geometric quantity in this crate is a signed 64-bit integer counting
//! millionths of a world unit, so the smallest representable positive scalar
//! is exactly the self-intersection threshold `ETA` of the renderer. All of
//! the rendering logic — primitives, the acceleration query, the materials,
//! the cameras, the integrators and the pixel driver — is verified against
//! specification-level mirrors of that arithmetic.

pub mod accel;
pub mod camera;
pub mod fixed;
pub mod hittable;
pub mod image_exporter;
pub mod integrator;
pub mod material;
pub mod math;
pub mod ray;
pub mod renderer;
pub mod sampler;
pub mod scene;
pub mod types;
pub mod vector;
