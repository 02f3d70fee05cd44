//! The raster data the library works on: image metadata, bands of reflectance
//! samples and cloud masks.

use vstd::prelude::*;

verus! {

/// Size of an image in pixels.
#[derive(Clone, Copy, Debug, PartialEq, Eq, Structural)]
pub struct RasterSize {
    pub width: usize,
    pub height: usize,
}

/// What the classification needs to know of an opened image: how many bands it
/// has and its size in pixels.
#[derive(Clone, Copy, Debug, PartialEq, Eq, Structural)]
pub struct RasterInfo {
    pub band_count: isize,
    pub size: RasterSize,
}

/// Number of sample units in a reflectance of 1.0: bands hold reflectance as
/// whole multiples of 1/10000.
pub const REFLECTANCE_SCALE: i32 = 10000;

/// One band of an image: reflectance samples in row-major order.
pub struct Band {
    pub size: RasterSize,
    pub data: Vec<i32>,
}

/// Mask label of a clear pixel.
pub const CLEAR: u32 = 0;

/// Mask label of a cloud pixel.
pub const CLOUD: u32 = 1;

/// A per-pixel classification in row-major order, `CLEAR` or `CLOUD` for a
/// mask that a classifier made, any label for one that was loaded.
pub struct Mask {
    pub size: RasterSize,
    pub data: Vec<u32>,
}

} // verus!
