use vstd::prelude::*;

verus! {

/// A three-component point.
///
/// Each component carries the raw 64-bit encoding of one coordinate scalar.
/// The library moves these encodings around without interpreting them
/// numerically, so everything it proves about meshes is exact; the rendering
/// host decodes them when it builds its display buffers.
#[derive(Clone, Copy, Debug, PartialEq, Eq, Structural)]
pub struct Vec3d {
    pub x: u64,
    pub y: u64,
    pub z: u64,
}

impl Vec3d {
    pub fn new(x: u64, y: u64, z: u64) -> (v: Vec3d)
        ensures
            v == (Vec3d { x, y, z }),
    {
        Vec3d { x, y, z }
    }
}

} // verus!
