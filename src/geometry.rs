use vstd::prelude::*;

verus! {

/// Sub-pixel units per pixel. Canvas positions and the components of a
/// heading are fixed-point values on this scale.
pub const SUBPIXELS: i64 = 4096;

/// A position on the canvas in sub-pixel units; x grows to the right and y
/// grows downwards.
#[derive(Clone, Copy, Debug, PartialEq, Eq, Structural)]
pub struct Point {
    pub x: i64,
    pub y: i64,
}

/// A colour with red, green, blue and opacity channels.
#[derive(Clone, Copy, Debug, PartialEq, Eq, Structural)]
pub struct Rgba {
    pub r: u8,
    pub g: u8,
    pub b: u8,
    pub a: u8,
}

/// The direction an arm points in: the cosine and sine of its rotation,
/// each scaled by `SUBPIXELS`.
#[derive(Clone, Copy, Debug, PartialEq, Eq, Structural)]
pub struct Heading {
    pub dx: i64,
    pub dy: i64,
}

impl Heading {
    /// Both components lie within one unit of length.
    pub open spec fn is_bounded(self) -> bool {
        -SUBPIXELS <= self.dx <= SUBPIXELS && -SUBPIXELS <= self.dy <= SUBPIXELS
    }

    /// The heading of rotation zero: straight along the positive x axis.
    pub open spec fn is_level(self) -> bool {
        self.dx == SUBPIXELS && self.dy == 0
    }
}

} // verus!
