//! The integer core of a viewport: the physical pixel grid of a rendering
//! surface, the offset of a sub-region within it, the scale factor that
//! relates physical pixels to logical units, and the pixel rectangle that
//! the viewport's projection covers.

pub mod projection;
pub mod scale_factor;
pub mod size;
pub mod viewport;

pub use crate::projection::Orthographic;
pub use crate::scale_factor::{InvalidScaleFactor, ScaleFactor};
pub use crate::size::Size;
pub use crate::viewport::{Geometry, Viewport};
