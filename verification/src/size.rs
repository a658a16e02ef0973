use vstd::prelude::*;

verus! {

/// The extent of a rendering surface, counted in physical device pixels.
#[derive(Debug, Clone, Copy, PartialEq, Eq, Structural)]
pub struct Size {
    /// Number of pixel columns.
    pub width: u32,
    /// Number of pixel rows.
    pub height: u32,
}

impl Size {
    /// Creates a size from its two dimensions, in the order width, height.
    pub fn new(width: u32, height: u32) -> (size: Size)
        ensures
            size == (Size { width, height }),
    {
        Size { width, height }
    }
}

} // verus!
