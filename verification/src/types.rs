//! Plain value types shared by the machine and its display buffer.

use vstd::prelude::*;

verus! {

/// One pixel of video memory: an RGB triple.
#[derive(Clone, Copy, Debug, PartialEq, Eq, Structural)]
pub struct Color {
    pub r: u8,
    pub g: u8,
    pub b: u8,
}

impl Color {
    /// The colour every pixel holds after construction and after a clear.
    pub open spec fn baseline() -> Color {
        Color { r: 0, g: 0, b: 0 }
    }

    /// Builds a colour from its three channels.
    pub fn new(r: u8, g: u8, b: u8) -> (c: Color)
        ensures
            c == (Color { r, g, b }),
    {
        Color { r, g, b }
    }
}

} // verus!
