//! The color value type: four independent 8-bit channels, addressed as
//! red, green, blue and white.  On the strip wire the channels are
//! emitted in the order green, red, blue, white.

use vstd::prelude::*;

verus! {

/// One pixel color: four independent 8-bit channel values.
#[derive(Debug, Clone, Copy, PartialEq, Eq, Structural)]
pub struct Color {
    pub r: u8,
    pub g: u8,
    pub b: u8,
    pub w: u8,
}

/// The all-channels-off color.
pub open spec fn off_color() -> Color {
    Color { r: 0, g: 0, b: 0, w: 0 }
}

impl Color {
    /// The all-channels-off color, used to pad sparse frame writes.
    pub fn off() -> (c: Color)
        ensures
            c == off_color(),
    {
        Color { r: 0, g: 0, b: 0, w: 0 }
    }

    /// A color from red, green and blue; the white channel defaults to 0.
    pub fn rgb(r: u8, g: u8, b: u8) -> (c: Color)
        ensures
            c == (Color { r, g, b, w: 0 }),
    {
        Color { r, g, b, w: 0 }
    }

    /// A color from all four channels.
    pub fn rgbw(r: u8, g: u8, b: u8, w: u8) -> (c: Color)
        ensures
            c == (Color { r, g, b, w }),
    {
        Color { r, g, b, w }
    }
}

} // verus!
