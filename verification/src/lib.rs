//! A finite-element hexahedral mesh model with a verified wireframe
//! extractor, and the decision core of an orbit/zoom camera controller.
//!
//! The library works entirely on exact values: node coordinates travel
//! through it as raw 64-bit scalar encodings that are never interpreted
//! numerically, and material properties are held in fixed decimal units.
//! Floating-point work (scaling coordinates for display, the orbit
//! arithmetic itself) belongs to the rendering host, which feeds its
//! outcomes back in as plain values.

use vstd::prelude::*;

pub mod material;
pub mod mesh;
pub mod render;
pub mod vec3d;

verus! {

/// Divisor applied to every node coordinate when the mesh is prepared for
/// display. The division is floating-point work and is performed by the
/// rendering host; the library only publishes the agreed factor.
pub const DISPLAY_SCALE: u64 = 50;

} // verus!
