//! The size of the drawing surface and what is derived from it.

use vstd::prelude::*;

verus! {

/// Width and height of the drawing surface, in pixels.
#[derive(Clone, Copy, Debug, PartialEq, Eq, Structural)]
pub struct Viewport {
    pub width: u32,
    pub height: u32,
}

/// The extent of a texture: width, height and number of layers.
#[derive(Clone, Copy, Debug, PartialEq, Eq, Structural)]
pub struct Extent3 {
    pub width: u32,
    pub height: u32,
    pub depth_or_array_layers: u32,
}

/// The aspect ratio as an exact fraction, width over height.
#[derive(Clone, Copy, Debug, PartialEq, Eq, Structural)]
pub struct AspectRatio {
    pub numerator: u32,
    pub denominator: u32,
}

impl Viewport {
    /// The viewport after a resize request: a request with a zero width or
    /// height (a minimised window) leaves it as it was.
    pub open spec fn resized(self, width: u32, height: u32) -> Viewport {
        if width > 0 && height > 0 {
            Viewport { width, height }
        } else {
            self
        }
    }

    /// The single-layer extent of the depth buffer that matches the surface.
    pub open spec fn depth_extent_of(self) -> Extent3 {
        Extent3 { width: self.width, height: self.height, depth_or_array_layers: 1 }
    }

    /// The aspect ratio of the surface, width over height.
    pub open spec fn aspect_of(self) -> AspectRatio {
        AspectRatio { numerator: self.width, denominator: self.height }
    }

    pub fn new(width: u32, height: u32) -> (r: Viewport)
        ensures
            r == (Viewport { width, height }),
    {
        Viewport { width, height }
    }

    /// Applies a resize request and tells whether the size was taken, in
    /// which case the size-dependent resources have to be rebuilt.
    pub fn resize(&mut self, width: u32, height: u32) -> (r: bool)
        ensures
            *final(self) == old(self).resized(width, height),
            r == (width > 0 && height > 0),
    {
        if width > 0 && height > 0 {
            self.width = width;
            self.height = height;
            true
        } else {
            false
        }
    }

    /// The extent of the depth buffer for this surface.
    pub fn depth_extent(&self) -> (r: Extent3)
        ensures
            r == self.depth_extent_of(),
    {
        Extent3 { width: self.width, height: self.height, depth_or_array_layers: 1 }
    }

    /// The aspect ratio that the projection is built from.
    pub fn aspect_ratio(&self) -> (r: AspectRatio)
        ensures
            r == self.aspect_of(),
    {
        AspectRatio { numerator: self.width, denominator: self.height }
    }
}

/// After a resize request with a nonzero width and height, the surface has
/// exactly the requested size, the aspect ratio is the new width over the new
/// height, and the depth buffer has the new surface dimensions.
pub proof fn lemma_resize_takes_new_size(v: Viewport, width: u32, height: u32)
    requires
        width > 0,
        height > 0,
    ensures
        v.resized(width, height) == (Viewport { width, height }),
        v.resized(width, height).depth_extent_of() == (Extent3 {
            width,
            height,
            depth_or_array_layers: 1,
        }),
        v.resized(width, height).aspect_of() == (AspectRatio {
            numerator: width,
            denominator: height,
        }),
{
}

} // verus!
