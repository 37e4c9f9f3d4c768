use vstd::prelude::*;

use crate::material::Rgb;
use crate::vec3d::Vec3d;

verus! {

/// The sign bit of a 64-bit scalar encoding. Flipping it negates the
/// encoded value, since the encoding keeps sign and magnitude apart.
pub const SIGN_BIT: u64 = 0x8000_0000_0000_0000;

/// One render-facing vertex: the coordinate encodings of a node and the
/// color the mesh's material tints it with. The rendering host decodes the
/// position and applies the display scale when it fills its buffers.
#[derive(Clone, Copy, Debug, PartialEq, Eq, Structural)]
pub struct Vertex {
    pub position: Vec3d,
    pub color: Rgb,
}

impl Vertex {
    /// Pairs one node position with a color.
    pub fn from_vec3d(vector: &Vec3d, color: Rgb) -> (v: Vertex)
        ensures
            v == (Vertex { position: *vector, color }),
    {
        Vertex { position: *vector, color }
    }

    /// Mirrors the vertex across the y = 0 plane by flipping the sign bit
    /// of the y encoding; x, z and the color are untouched.
    pub fn mirror(&self) -> (v: Vertex)
        ensures
            v.position.x == self.position.x,
            v.position.y == self.position.y ^ SIGN_BIT,
            v.position.z == self.position.z,
            v.color == self.color,
    {
        Vertex {
            position: Vec3d { x: self.position.x, y: self.position.y ^ SIGN_BIT, z: self.position.z },
            color: self.color,
        }
    }
}

} // verus!
