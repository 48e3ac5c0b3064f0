//! Window background colors.

use vstd::prelude::*;

verus! {

/// An RGBA color. Each channel is an intensity from 0 (none) to 255 (full);
/// an alpha of 0 makes the color fully transparent. A host that wants
/// normalized channels divides each by 255.
#[derive(Clone, Copy, PartialEq, Eq, Structural, Debug)]
pub struct Rgba {
    pub red: u8,
    pub green: u8,
    pub blue: u8,
    pub alpha: u8,
}

impl Rgba {
    /// Fully transparent black: every channel, alpha included, at zero.
    pub open spec fn spec_transparent() -> Rgba {
        Rgba { red: 0, green: 0, blue: 0, alpha: 0 }
    }

    pub fn transparent() -> (c: Rgba)
        ensures
            c == Rgba::spec_transparent(),
    {
        Rgba { red: 0, green: 0, blue: 0, alpha: 0 }
    }
}

} // verus!
