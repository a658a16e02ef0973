use vstd::prelude::*;

verus! {

/// An orthographic projection, described by the pixel rectangle that it maps
/// onto the normalized device square.
///
/// The edges are pixel coordinates. `left` and `right` bound the rectangle
/// horizontally, `top` and `bottom` vertically; a `top` that is smaller than
/// `bottom` puts the origin in the upper left corner, with `y` growing
/// downward. The matrix of the projection has fractional entries and is
/// formed from these four edges by the renderer that consumes them.
#[derive(Debug, Clone, Copy, PartialEq, Eq, Structural)]
pub struct Orthographic {
    /// The pixel column that is mapped to the left edge of the device square.
    pub left: u32,
    /// The pixel column that is mapped to the right edge of the device square.
    pub right: u32,
    /// The pixel row that is mapped to the upper edge of the device square.
    pub top: u32,
    /// The pixel row that is mapped to the lower edge of the device square.
    pub bottom: u32,
}

impl Orthographic {
    /// The projection of a whole surface of the given extent: the rectangle
    /// from the origin in the upper left corner to the pixel at
    /// (`width`, `height`).
    pub open spec fn of_extent(width: u32, height: u32) -> Orthographic {
        Orthographic { left: 0, right: width, top: 0, bottom: height }
    }

    /// Builds the projection of a whole surface of the given extent.
    pub fn orthographic(width: u32, height: u32) -> (projection: Orthographic)
        ensures
            projection == Orthographic::of_extent(width, height),
    {
        Orthographic { left: 0, right: width, top: 0, bottom: height }
    }
}

} // verus!
