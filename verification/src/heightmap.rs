//! A decoded heightmap: the input of the terrain builder.

use vstd::prelude::*;

verus! {

/// One sample of a heightmap. The decoder has already placed it in the
/// world and given it a texture coordinate; every component is a
/// single-precision value stored as its bit pattern.
#[derive(Clone, Copy, Debug, PartialEq, Eq)]
pub struct PixelData {
    pub height_value: u32,
    pub position: [u32; 3],
    pub tex_coords: [u32; 2],
}

/// A heightmap of `width` by `height` samples, stored row by row.
#[derive(Clone, Debug, PartialEq, Eq)]
pub struct LandscapeData {
    pub width: usize,
    pub height: usize,
    pub pixel_data: Vec<Vec<PixelData>>,
}

impl LandscapeData {
    /// The grid holds `height` rows of `width` samples each.
    pub open spec fn well_formed(&self) -> bool {
        &&& self.pixel_data@.len() == self.height
        &&& forall|y: int|
            0 <= y < self.height ==> (#[trigger] self.pixel_data@[y])@.len() == self.width
    }

    /// The sample in column `x` of row `y`.
    pub open spec fn sample(&self, x: int, y: int) -> PixelData {
        self.pixel_data@[y]@[x]
    }

    /// Whether the grid holds `height` rows of `width` samples each.
    pub fn is_well_formed(&self) -> (ok: bool)
        ensures
            ok == self.well_formed(),
    {
        if self.pixel_data.len() != self.height {
            return false;
        }
        let mut y: usize = 0;
        while y < self.height
            invariant
                y <= self.height,
                self.pixel_data@.len() == self.height,
                forall|k: int| 0 <= k < y ==> (#[trigger] self.pixel_data@[k])@.len() == self.width,
            decreases self.height - y,
        {
            if self.pixel_data[y].len() != self.width {
                return false;
            }
            y = y + 1;
        }
        true
    }
}

} // verus!
