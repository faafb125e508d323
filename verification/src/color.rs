//! Colours and the palette the game paints with.

use vstd::prelude::*;

verus! {

/// A colour as red, green, blue and opacity.
#[derive(Clone, Copy, Debug, PartialEq, Eq, Structural)]
pub struct Color {
    pub r: u8,
    pub g: u8,
    pub b: u8,
    pub a: u8,
}

impl Color {
    #[verifier::allow_in_spec]
    pub fn new(r: u8, g: u8, b: u8, a: u8) -> Color
        returns
            (Color { r, g, b, a }),
    {
        Color { r, g, b, a }
    }

    #[verifier::allow_in_spec]
    pub fn white() -> Color
        returns
            (Color { r: 255, g: 255, b: 255, a: 255 }),
    {
        Color { r: 255, g: 255, b: 255, a: 255 }
    }

    #[verifier::allow_in_spec]
    pub fn black() -> Color
        returns
            (Color { r: 0, g: 0, b: 0, a: 255 }),
    {
        Color { r: 0, g: 0, b: 0, a: 255 }
    }

    #[verifier::allow_in_spec]
    pub fn red() -> Color
        returns
            (Color { r: 255, g: 0, b: 0, a: 255 }),
    {
        Color { r: 255, g: 0, b: 0, a: 255 }
    }

    #[verifier::allow_in_spec]
    pub fn yellow() -> Color
        returns
            (Color { r: 255, g: 255, b: 0, a: 255 }),
    {
        Color { r: 255, g: 255, b: 0, a: 255 }
    }

    #[verifier::allow_in_spec]
    pub fn green() -> Color
        returns
            (Color { r: 0, g: 128, b: 0, a: 255 }),
    {
        Color { r: 0, g: 128, b: 0, a: 255 }
    }

    #[verifier::allow_in_spec]
    pub fn dark_green() -> Color
        returns
            (Color { r: 0, g: 100, b: 0, a: 255 }),
    {
        Color { r: 0, g: 100, b: 0, a: 255 }
    }

    #[verifier::allow_in_spec]
    pub fn gray() -> Color
        returns
            (Color { r: 128, g: 128, b: 128, a: 255 }),
    {
        Color { r: 128, g: 128, b: 128, a: 255 }
    }

    #[verifier::allow_in_spec]
    pub fn dark_gray() -> Color
        returns
            (Color { r: 169, g: 169, b: 169, a: 255 }),
    {
        Color { r: 169, g: 169, b: 169, a: 255 }
    }

    #[verifier::allow_in_spec]
    pub fn sky_blue() -> Color
        returns
            (Color { r: 135, g: 206, b: 235, a: 255 }),
    {
        Color { r: 135, g: 206, b: 235, a: 255 }
    }
}

} // verus!
