//! Band layout of the supported sensors, as a configuration file may set it.

use vstd::prelude::*;

verus! {

/// Band indices used for Landsat 8-9 images (GDAL numbers bands from 1).
pub struct LandsatConfig {
    pub green_band_index: isize,
    pub red_band_index: isize,
}

/// Band indices used for Sentinel-2 images (GDAL numbers bands from 1).
pub struct SentinelConfig {
    pub green_band_index: isize,
    pub red_band_index: isize,
}

/// The configuration of the cloud detection: one band layout per sensor.
pub struct CloudDetectionConfig {
    pub landsat: LandsatConfig,
    pub sentinel: SentinelConfig,
}

/// Band index of the green band when no configuration says otherwise.
pub const DEFAULT_GREEN_BAND_INDEX: isize = 3;

/// Band index of the red band when no configuration says otherwise.
pub const DEFAULT_RED_BAND_INDEX: isize = 4;

impl Default for CloudDetectionConfig {
    /// Green band 3 and red band 4, for both sensors.
    fn default() -> (r: Self)
        ensures
            r.landsat.green_band_index == DEFAULT_GREEN_BAND_INDEX,
            r.landsat.red_band_index == DEFAULT_RED_BAND_INDEX,
            r.sentinel.green_band_index == DEFAULT_GREEN_BAND_INDEX,
            r.sentinel.red_band_index == DEFAULT_RED_BAND_INDEX,
    {
        CloudDetectionConfig {
            landsat: LandsatConfig {
                green_band_index: DEFAULT_GREEN_BAND_INDEX,
                red_band_index: DEFAULT_RED_BAND_INDEX,
            },
            sentinel: SentinelConfig {
                green_band_index: DEFAULT_GREEN_BAND_INDEX,
                red_band_index: DEFAULT_RED_BAND_INDEX,
            },
        }
    }
}

} // verus!
