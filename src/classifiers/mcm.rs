//! Multitemporal cloud masking: a pixel is cloud when its green and red
//! reflectance both rose by more than the sensor's threshold between the
//! reference and the target image.

use vstd::prelude::*;

use crate::classifiers::util::{
    cloud_label, diff, min_nat, paired_len, threshold_mask, validate, validation_outcome,
    ValidationError,
};
use crate::persistence::config::CloudDetectionConfig;
use crate::raster::{Band, Mask, RasterInfo, RasterSize};

verus! {

/// The sensors whose images the library classifies.
#[derive(Clone, Copy, Debug, PartialEq, Eq, Structural)]
pub enum Sensor {
    /// Landsat 8-9.
    Landsat,
    /// Sentinel-2.
    Sentinel,
}

/// Reflectance rise above which a Landsat pixel counts as cloud (0.04).
pub const LANDSAT_CLOUD_THRESHOLD: i64 = 400;

/// Reflectance rise above which a Sentinel pixel counts as cloud (0.15).
pub const SENTINEL_CLOUD_THRESHOLD: i64 = 1500;

/// What the classification takes from a sensor: which bands hold green and
/// red, and the reflectance rise that marks a cloud, in units of
/// `1 / REFLECTANCE_SCALE`.
#[derive(Clone, Copy, Debug, PartialEq, Eq, Structural)]
pub struct SensorProfile {
    pub green_band_index: isize,
    pub red_band_index: isize,
    pub cloud_threshold: i64,
}

impl SensorProfile {
    /// The fewest bands an image needs so that both used bands exist.
    pub open spec fn spec_min_band_count(self) -> isize {
        if self.green_band_index >= self.red_band_index {
            self.green_band_index
        } else {
            self.red_band_index
        }
    }

    /// A profile with caller-supplied bands and threshold.
    pub fn new(green_band_index: isize, red_band_index: isize, cloud_threshold: i64) -> (r:
        SensorProfile)
        ensures
            r == (SensorProfile { green_band_index, red_band_index, cloud_threshold }),
    {
        SensorProfile { green_band_index, red_band_index, cloud_threshold }
    }

    /// The profile of `sensor`: its bands as `config` sets them and its
    /// built-in threshold.
    pub fn for_sensor(sensor: Sensor, config: &CloudDetectionConfig) -> (r: SensorProfile)
        ensures
            sensor == Sensor::Landsat ==> r == (SensorProfile {
                green_band_index: config.landsat.green_band_index,
                red_band_index: config.landsat.red_band_index,
                cloud_threshold: LANDSAT_CLOUD_THRESHOLD,
            }),
            sensor == Sensor::Sentinel ==> r == (SensorProfile {
                green_band_index: config.sentinel.green_band_index,
                red_band_index: config.sentinel.red_band_index,
                cloud_threshold: SENTINEL_CLOUD_THRESHOLD,
            }),
    {
        match sensor {
            Sensor::Landsat => SensorProfile {
                green_band_index: config.landsat.green_band_index,
                red_band_index: config.landsat.red_band_index,
                cloud_threshold: LANDSAT_CLOUD_THRESHOLD,
            },
            Sensor::Sentinel => SensorProfile {
                green_band_index: config.sentinel.green_band_index,
                red_band_index: config.sentinel.red_band_index,
                cloud_threshold: SENTINEL_CLOUD_THRESHOLD,
            },
        }
    }

    /// The fewest bands an image needs: the larger of the two band indices.
    pub fn min_band_count(&self) -> (r: isize)
        ensures
            r == self.spec_min_band_count(),
    {
        if self.green_band_index >= self.red_band_index {
            self.green_band_index
        } else {
            self.red_band_index
        }
    }
}

/// The green and red band of one image, as extracted for classification.
pub struct BandPair {
    pub green: Band,
    pub red: Band,
}

/// The labels of a classification: one per pixel that all four bands have,
/// from the deltas `target - reference` of green and of red.
pub open spec fn cloud_labels(reference: &BandPair, target: &BandPair, threshold: int) -> Seq<u32> {
    let rg = reference.green.data@;
    let rr = reference.red.data@;
    let tg = target.green.data@;
    let tr = target.red.data@;
    Seq::new(
        min_nat(paired_len(tg, rg), paired_len(tr, rr)),
        |i: int| cloud_label(tg[i] - rg[i], tr[i] - rr[i], threshold),
    )
}

/// A band that covers an image of `size`, one sample per pixel.
pub open spec fn covers(band: &Band, size: RasterSize) -> bool {
    band.size == size && band.data@.len() == size.width * size.height
}

/// A reference and a target image that passed validation for one sensor.
pub struct Classifier {
    reference: RasterInfo,
    target: RasterInfo,
    profile: SensorProfile,
}

impl Classifier {
    /// The reference image the classifier was made for.
    pub closed spec fn reference_info(&self) -> RasterInfo {
        self.reference
    }

    /// The target image the classifier was made for.
    pub closed spec fn target_info(&self) -> RasterInfo {
        self.target
    }

    /// The sensor profile the classifier applies.
    pub closed spec fn spec_profile(&self) -> SensorProfile {
        self.profile
    }

    /// Both images passed validation against the profile: every classifier
    /// that `new` makes is well formed.
    pub open spec fn wf(&self) -> bool {
        validation_outcome(
            self.reference_info(),
            self.target_info(),
            self.spec_profile().spec_min_band_count(),
        ) is Ok
    }

    /// Validates the two images against `profile` and, when they pass, makes
    /// a classifier for them.
    pub fn new(reference: RasterInfo, target: RasterInfo, profile: SensorProfile) -> (r: Result<
        Classifier,
        ValidationError,
    >)
        ensures
            match r {
                Ok(c) => {
                    &&& validation_outcome(reference, target, profile.spec_min_band_count()) is Ok
                    &&& c.wf()
                    &&& c.reference_info() == reference
                    &&& c.target_info() == target
                    &&& c.spec_profile() == profile
                },
                Err(e) => validation_outcome(reference, target, profile.spec_min_band_count())
                    == Err::<(), ValidationError>(e),
            },
    {
        let min_band_count = profile.min_band_count();
        match validate(&reference, &target, min_band_count) {
            Ok(()) => Ok(Classifier { reference, target, profile }),
            Err(e) => Err(e),
        }
    }

    /// The sensor profile the images were validated against.
    pub fn profile(&self) -> (r: SensorProfile)
        ensures
            r == self.spec_profile(),
    {
        self.profile
    }

    /// The size that both images share.
    pub fn size(&self) -> (r: RasterSize)
        ensures
            r == self.reference_info().size,
    {
        self.reference.size
    }

    /// The indices of the bands to extract from each image, green then red.
    pub fn band_indices(&self) -> (r: Vec<isize>)
        ensures
            r@ == seq![self.spec_profile().green_band_index, self.spec_profile().red_band_index],
    {
        vec![self.profile.green_band_index, self.profile.red_band_index]
    }

    /// Labels each pixel of the target image as cloud or clear, from the bands
    /// that `band_indices` names, extracted from both images.
    pub fn classify(&self, reference: &BandPair, target: &BandPair) -> (mask: Mask)
        ensures
            mask.size == reference.green.size,
            mask.data@ == cloud_labels(reference, target, self.spec_profile().cloud_threshold as int),
            ({
                let size = self.reference_info().size;
                covers(&reference.green, size) && covers(&reference.red, size) && covers(
                    &target.green,
                    size,
                ) && covers(&target.red, size)
            }) ==> mask.size == self.reference_info().size && mask.data@.len()
                == self.reference_info().size.width * self.reference_info().size.height,
    {
        let delta_green = diff(&target.green.data, &reference.green.data);
        let delta_red = diff(&target.red.data, &reference.red.data);
        let data = threshold_mask(&delta_green, &delta_red, self.profile.cloud_threshold);
        let ghost expected = cloud_labels(reference, target, self.profile.cloud_threshold as int);
        assert(data@ =~= expected);
        Mask { size: reference.green.size, data }
    }
}

} // verus!
