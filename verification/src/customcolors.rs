//! Custom colors given directly as RGB channels; they render as truecolor.

use vstd::prelude::*;

verus! {

/// A custom color built from its three RGB channels.
#[derive(Debug, Copy, Clone, PartialEq, Eq, Structural)]
pub struct CustomColor {
    /// Red
    pub r: u8,
    /// Green
    pub g: u8,
    /// Blue
    pub b: u8,
}

impl CustomColor {
    /// Creates a new custom color from its channels.
    pub fn new(r: u8, g: u8, b: u8) -> (c: CustomColor)
        ensures
            c == (CustomColor { r, g, b }),
    {
        CustomColor { r, g, b }
    }
}

impl From<(u8, u8, u8)> for CustomColor {
    /// Builds a custom color from an `(r, g, b)` triple.
    fn from(rgb: (u8, u8, u8)) -> (c: CustomColor)
        ensures
            c == (CustomColor { r: rgb.0, g: rgb.1, b: rgb.2 }),
    {
        CustomColor { r: rgb.0, g: rgb.1, b: rgb.2 }
    }
}

impl vstd::std_specs::convert::FromSpecImpl<(u8, u8, u8)> for CustomColor {
    open spec fn obeys_from_spec() -> bool {
        true
    }

    open spec fn from_spec(rgb: (u8, u8, u8)) -> CustomColor {
        CustomColor { r: rgb.0, g: rgb.1, b: rgb.2 }
    }
}

} // verus!
