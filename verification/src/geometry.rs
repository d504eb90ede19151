//! Lengths and rectangles.

use vstd::prelude::*;

verus! {

/// A length in points, held as the bit pattern of its single-precision value.
///
/// No arithmetic is done on lengths here; they are stored, compared and handed
/// on.
#[derive(Clone, Copy, Debug, Default, PartialEq, Eq, Hash, Structural)]
pub struct Pixels {
    pub bits: u32,
}

/// A length in physical pixels of the screen.
#[derive(Clone, Copy, Debug, Default, PartialEq, Eq, Hash, Structural)]
pub struct DevicePixels(pub i32);

/// The number of physical pixels to a point, held as the bit pattern of its
/// single-precision value.
#[derive(Clone, Copy, Debug, Default, PartialEq, Eq, Hash, Structural)]
pub struct ScaleFactor {
    pub bits: u32,
}

/// A location.
#[derive(Clone, Copy, Debug, Default, PartialEq, Eq, Hash)]
pub struct Point<T> {
    pub x: T,
    pub y: T,
}

/// A width and a height.
#[derive(Clone, Copy, Debug, Default, PartialEq, Eq, Hash)]
pub struct Size<T> {
    pub width: T,
    pub height: T,
}

/// A rectangle: its top-left corner and its extent.
#[derive(Clone, Copy, Debug, Default, PartialEq, Eq, Hash)]
pub struct Bounds<T> {
    pub origin: Point<T>,
    pub size: Size<T>,
}

impl Pixels {
    /// The length of zero points.
    pub open spec fn spec_zero() -> Pixels {
        Pixels { bits: 0 }
    }

    /// The length of zero points, whose bit pattern is all zeros.
    #[verifier::when_used_as_spec(spec_zero)]
    pub fn zero() -> (length: Pixels)
        ensures
            length == Pixels::zero(),
    {
        Pixels { bits: 0 }
    }
}

impl Point<Pixels> {
    /// The top-left corner of the coordinate space.
    pub open spec fn spec_origin() -> Point<Pixels> {
        Point { x: Pixels::zero(), y: Pixels::zero() }
    }

    /// The top-left corner of the coordinate space.
    #[verifier::when_used_as_spec(spec_origin)]
    pub fn origin() -> (point: Point<Pixels>)
        ensures
            point == Point::<Pixels>::origin(),
    {
        Point { x: Pixels::zero(), y: Pixels::zero() }
    }
}

} // verus!
