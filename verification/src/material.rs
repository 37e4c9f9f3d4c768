use vstd::prelude::*;

verus! {

/// A color triple. Channels are stored in thousandths of the unit range, so
/// `Rgb { r: 800, g: 800, b: 900 }` names the unit-range color
/// (0.8, 0.8, 0.9); the rendering host divides by 1000 when it uploads.
#[derive(Clone, Copy, Debug, PartialEq, Eq, Structural)]
pub struct Rgb {
    pub r: u16,
    pub g: u16,
    pub b: u16,
}

/// A static physical-property record for one alloy. The mesh copies the
/// record by value at construction time and uses only its color; the other
/// properties are carried for the caller.
///
/// The library holds every property in a fixed decimal unit so that the
/// record stays exact: `density` in ten-thousandths of a pound per cubic
/// inch, `yield_strength` and `ultimate_strength` in pounds per square inch,
/// `modulus_of_elasticity` in kips per square inch, and `poissons_ratio` in
/// hundredths.
#[derive(Clone, Copy, Debug, PartialEq)]
pub struct Material {
    pub name: &'static str,
    pub color: Rgb,
    pub density: u32,
    pub yield_strength: u32,
    pub ultimate_strength: u32,
    pub modulus_of_elasticity: u32,
    pub poissons_ratio: u32,
}

impl Material {
    /// The 6061-T6 aluminum entry of the material catalog.
    pub fn aluminum_6061() -> (m: Material)
        ensures
            m.name@ == "6061 T6 Aluminum"@,
            m.color == (Rgb { r: 800, g: 800, b: 900 }),
            m.density == 975,
            m.yield_strength == 40000,
            m.ultimate_strength == 45000,
            m.modulus_of_elasticity == 10000,
            m.poissons_ratio == 33,
    {
        Material {
            name: "6061 T6 Aluminum",
            color: Rgb { r: 800, g: 800, b: 900 },
            density: 975,
            yield_strength: 40000,
            ultimate_strength: 45000,
            modulus_of_elasticity: 10000,
            poissons_ratio: 33,
        }
    }

    /// The 7075-T6 aluminum entry of the material catalog.
    pub fn aluminum_7075() -> (m: Material)
        ensures
            m.name@ == "7075 T6 Aluminum"@,
            m.color == (Rgb { r: 800, g: 800, b: 900 }),
            m.density == 1020,
            m.yield_strength == 73000,
            m.ultimate_strength == 83000,
            m.modulus_of_elasticity == 10400,
            m.poissons_ratio == 33,
    {
        Material {
            name: "7075 T6 Aluminum",
            color: Rgb { r: 800, g: 800, b: 900 },
            density: 1020,
            yield_strength: 73000,
            ultimate_strength: 83000,
            modulus_of_elasticity: 10400,
            poissons_ratio: 33,
        }
    }
}

} // verus!
