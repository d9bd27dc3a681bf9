use vstd::prelude::*;

verus! {

use crate::vector::Vec3D;

/// A fixed-size rectangular grid of color values, stored as a flat row-major
/// sequence of `width * height` vectors. The grid is only ever built whole:
/// no pixel access, resizing or export is offered, so well-formedness is
/// established at construction and can never be lost afterwards.
pub struct Framebuffer {
    pub width: i32,
    pub height: i32,
    pub buffer: Vec<Vec3D>,
}

impl Framebuffer {
    /// The dimensions are non-negative and the backing sequence holds exactly
    /// one vector per grid cell.
    pub open spec fn well_formed(self) -> bool {
        0 <= self.width && 0 <= self.height && self.buffer@.len() == self.width * self.height
    }

    /// Builds the grid from explicit dimensions and a backing sequence of
    /// exactly `width * height` vectors.
    pub fn new(width: i32, height: i32, buffer: Vec<Vec3D>) -> (fb: Framebuffer)
        requires
            0 <= width,
            0 <= height,
            buffer@.len() == width * height,
        ensures
            fb.width == width,
            fb.height == height,
            fb.buffer == buffer,
            fb.well_formed(),
    {
        Framebuffer { width, height, buffer }
    }
}

} // verus!
