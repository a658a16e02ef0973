use vstd::prelude::*;

use crate::projection::Orthographic;
use crate::scale_factor::ScaleFactor;
use crate::size::Size;

verus! {

/// What a viewport is made of: the values it was created from.
pub struct Geometry {
    /// The extent of the backing surface, in physical pixels.
    pub physical_size: Size,
    /// The physical pixel, as (column, row), at which the viewport's origin
    /// sits within a larger surface.
    pub physical_position: (u32, u32),
    /// The ratio of physical pixels to logical units.
    pub scale_factor: ScaleFactor,
}

impl Geometry {
    /// The geometry of a viewport that covers a whole surface: its origin is
    /// the origin of the surface.
    pub open spec fn full_surface(size: Size, scale_factor: ScaleFactor) -> Geometry {
        Geometry { physical_size: size, physical_position: (0u32, 0u32), scale_factor }
    }

    /// The geometry of a viewport whose origin sits at `position` within a
    /// larger surface.
    pub open spec fn sub_region(
        size: Size,
        position: (u32, u32),
        scale_factor: ScaleFactor,
    ) -> Geometry {
        Geometry { physical_size: size, physical_position: position, scale_factor }
    }

    /// The projection of the geometry: that of its physical extent, whatever
    /// its position and scale factor.
    pub open spec fn projection(self) -> Orthographic {
        Orthographic::of_extent(self.physical_size.width, self.physical_size.height)
    }
}

/// A viewing region for displaying computer graphics.
///
/// A viewport is created once and read from then on; a surface that is
/// resized or rescaled gets a new one.
#[derive(Debug, Clone, Copy)]
pub struct Viewport {
    physical_size: Size,
    physical_position: (u32, u32),
    scale_factor: ScaleFactor,
}

impl View for Viewport {
    type V = Geometry;

    closed spec fn view(&self) -> Geometry {
        Geometry {
            physical_size: self.physical_size,
            physical_position: self.physical_position,
            scale_factor: self.scale_factor,
        }
    }
}

impl Viewport {
    /// Creates a viewport that covers a whole surface of the given physical
    /// dimensions, with the given scale factor.
    pub fn with_physical_size(size: Size, scale_factor: ScaleFactor) -> (viewport: Viewport)
        ensures
            viewport@ == Geometry::full_surface(size, scale_factor),
    {
        Viewport { physical_size: size, physical_position: (0, 0), scale_factor }
    }

    /// Creates a viewport of the given physical dimensions whose origin sits
    /// at the given physical position, with the given scale factor.
    pub fn with_physical_size_and_position(
        size: Size,
        position: (u32, u32),
        scale_factor: ScaleFactor,
    ) -> (viewport: Viewport)
        ensures
            viewport@ == Geometry::sub_region(size, position, scale_factor),
    {
        Viewport { physical_size: size, physical_position: position, scale_factor }
    }

    /// Returns the physical size of the viewport.
    pub fn physical_size(&self) -> (size: Size)
        ensures
            size == self@.physical_size,
    {
        self.physical_size
    }

    /// Returns the physical width of the viewport.
    pub fn physical_width(&self) -> (width: u32)
        ensures
            width == self@.physical_size.width,
    {
        self.physical_size.width
    }

    /// Returns the physical height of the viewport.
    pub fn physical_height(&self) -> (height: u32)
        ensures
            height == self@.physical_size.height,
    {
        self.physical_size.height
    }

    /// Returns the physical position of the viewport's origin, as
    /// (column, row).
    pub fn physical_position(&self) -> (position: (u32, u32))
        ensures
            position == self@.physical_position,
    {
        self.physical_position
    }

    /// Returns the scale factor of the viewport, which is greater than zero.
    pub fn scale_factor(&self) -> (scale_factor: ScaleFactor)
        ensures
            scale_factor == self@.scale_factor,
            scale_factor.is_positive(),
    {
        proof {
            use_type_invariant(&self.scale_factor);
        }
        self.scale_factor
    }

    /// Returns the projection of the viewport.
    pub fn projection(&self) -> (projection: Orthographic)
        ensures
            projection == self@.projection(),
    {
        Orthographic::orthographic(self.physical_size.width, self.physical_size.height)
    }
}

/// A viewport hands back the scale factor it was created with, whichever
/// way it was created.
pub proof fn lemma_scale_factor_round_trip(
    size: Size,
    position: (u32, u32),
    scale_factor: ScaleFactor,
)
    ensures
        Geometry::full_surface(size, scale_factor).scale_factor == scale_factor,
        Geometry::sub_region(size, position, scale_factor).scale_factor == scale_factor,
{
}

/// The projection of a viewport depends on its physical size alone: two
/// viewports of one size have one projection, whatever their positions and
/// scale factors.
pub proof fn lemma_projection_depends_on_size_alone(a: Geometry, b: Geometry)
    requires
        a.physical_size == b.physical_size,
    ensures
        a.projection() == b.projection(),
{
}

/// A viewport that covers a whole surface is the sub-region whose origin is
/// the origin of the surface.
pub proof fn lemma_full_surface_is_sub_region_at_origin(size: Size, scale_factor: ScaleFactor)
    ensures
        Geometry::full_surface(size, scale_factor) == Geometry::sub_region(
            size,
            (0u32, 0u32),
            scale_factor,
        ),
{
}

} // verus!
