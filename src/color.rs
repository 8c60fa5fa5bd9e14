//! RGBA colours and their packed 32-bit form.
use vstd::prelude::*;

verus! {

/// One RGBA pixel with 8-bit channels.
#[derive(Clone, Copy, Debug, PartialEq, Eq, Structural)]
pub struct Color {
    pub r: u8,
    pub g: u8,
    pub b: u8,
    pub a: u8,
}

/// A fully opaque colour.
pub open spec fn opaque(r: u8, g: u8, b: u8) -> Color {
    Color { r, g, b, a: 255 }
}

/// The colour of points that never escape: opaque black.
pub open spec fn interior_spec() -> Color {
    opaque(0, 0, 0)
}

/// The packed form of a colour: red in the lowest byte, then green, blue,
/// and alpha in the highest byte.
pub open spec fn packed(c: Color) -> int {
    c.r as int + 256 * c.g as int + 65536 * c.b as int + 16777216 * c.a as int
}

impl Color {
    /// The same colour, fully opaque.
    pub open spec fn with_alpha(self) -> Color {
        Color { a: 255, ..self }
    }

    /// Builds a fully opaque colour.
    pub fn rgb(r: u8, g: u8, b: u8) -> (c: Color)
        ensures
            c == opaque(r, g, b),
    {
        Color { r, g, b, a: 255 }
    }

    /// Opaque black, used for points of the set.
    pub fn interior() -> (c: Color)
        ensures
            c == interior_spec(),
    {
        Color::rgb(0, 0, 0)
    }

    /// Packs the colour into one 32-bit word, red in the lowest byte.
    pub fn pack(&self) -> (w: u32)
        ensures
            w as int == packed(*self),
    {
        let r = self.r as u32;
        let g = self.g as u32;
        let b = self.b as u32;
        let a = self.a as u32;
        let w = r | (g << 8u32) | (b << 16u32) | (a << 24u32);
        assert(w == r + 256 * g + 65536 * b + 16777216 * a) by (bit_vector)
            requires
                r < 256,
                g < 256,
                b < 256,
                a < 256,
                w == r | (g << 8u32) | (b << 16u32) | (a << 24u32),
        ;
        w
    }
}

} // verus!
