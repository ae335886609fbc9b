//! The fixed six-color rainbow table that the squares are painted from.

use vstd::prelude::*;

verus! {

/// An RGBA color with 8-bit channels. The render backend divides each
/// channel by 255 to obtain its unit-interval component.
#[derive(Clone, Copy, PartialEq, Eq, Structural, Debug)]
pub struct Rgba {
    pub r: u8,
    pub g: u8,
    pub b: u8,
    pub a: u8,
}

/// How many colors the rainbow table holds.
pub const COLOR_COUNT: usize = 6;

/// The rainbow spectrum: red, orange, yellow, green, blue, violet.
pub open spec fn spec_rainbow(i: int) -> Rgba {
    if i == 0 {
        (Rgba { r: 255, g: 0, b: 0, a: 255 })
    } else if i == 1 {
        (Rgba { r: 255, g: 127, b: 0, a: 255 })
    } else if i == 2 {
        (Rgba { r: 255, g: 255, b: 0, a: 255 })
    } else if i == 3 {
        (Rgba { r: 0, g: 255, b: 0, a: 255 })
    } else if i == 4 {
        (Rgba { r: 0, g: 0, b: 255, a: 255 })
    } else {
        (Rgba { r: 143, g: 0, b: 255, a: 255 })
    }
}

/// Look up the rainbow color at index `i`.
pub fn rainbow(i: usize) -> (c: Rgba)
    requires
        i < COLOR_COUNT,
    ensures
        c == spec_rainbow(i as int),
{
    if i == 0 {
        Rgba { r: 255, g: 0, b: 0, a: 255 }
    } else if i == 1 {
        Rgba { r: 255, g: 127, b: 0, a: 255 }
    } else if i == 2 {
        Rgba { r: 255, g: 255, b: 0, a: 255 }
    } else if i == 3 {
        Rgba { r: 0, g: 255, b: 0, a: 255 }
    } else if i == 4 {
        Rgba { r: 0, g: 0, b: 255, a: 255 }
    } else {
        Rgba { r: 143, g: 0, b: 255, a: 255 }
    }
}

} // verus!
