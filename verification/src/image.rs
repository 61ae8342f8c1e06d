//! Simple images: pixels stored row by row.

use vstd::prelude::*;
use crate::geom::Extent2;

verus! {

/// An image: `size.w` by `size.h` pixels, stored row by row.
#[derive(Debug, Clone, Hash, Eq, PartialEq)]
pub struct Image<T> {
    pub pixels: Vec<T>,
    pub size: Extent2<u32>,
}

/// The index of the pixel at column `x` and row `y` of an image `w` pixels wide.
pub open spec fn pixel_index(w: u32, x: u32, y: u32) -> int {
    w * y + x
}

impl<T> Image<T> {
    /// Can the pixel at (`x`, `y`) be reached? It must lie within the image, and its
    /// index must fit a `u32` and lie within the pixels.
    pub open spec fn reaches(&self, x: u32, y: u32) -> bool {
        &&& x < self.size.w
        &&& y < self.size.h
        &&& pixel_index(self.size.w, x, y) <= u32::MAX
        &&& pixel_index(self.size.w, x, y) < self.pixels@.len()
    }

    /// The pixel at column `x` and row `y`.
    pub fn pixel(&self, x: u32, y: u32) -> (r: &T)
        requires
            self.reaches(x, y),
        ensures
            *r == self.pixels@[pixel_index(self.size.w, x, y)],
    {
        let i = self.size.w * y + x;
        &self.pixels[i as usize]
    }

    /// Replaces the pixel at column `x` and row `y`.
    pub fn set_pixel(&mut self, x: u32, y: u32, value: T)
        requires
            old(self).reaches(x, y),
        ensures
            final(self).size == old(self).size,
            final(self).pixels@ == old(self).pixels@.update(pixel_index(old(self).size.w, x, y), value),
    {
        let i = self.size.w * y + x;
        self.pixels.set(i as usize, value);
    }
}

} // verus!
