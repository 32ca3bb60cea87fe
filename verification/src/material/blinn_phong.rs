//! The Blinn-Phong reflective model: a placeholder for a partially glossy
//! surface model that the renderer does not dispatch yet.

use vstd::prelude::*;

verus! {

/// An approximation of partially glossy surfaces pioneered by Blinn and
/// Phong; not yet wired into the material dispatch.
#[derive(Clone, Copy, PartialEq, Eq, Structural, Debug)]
pub struct BlinnPhong {}

} // verus!
