use cloud_mask::classifiers::mcm::{
    BandPair, Classifier, Sensor, SensorProfile, LANDSAT_CLOUD_THRESHOLD,
    SENTINEL_CLOUD_THRESHOLD,
};
use cloud_mask::classifiers::util::{diff, threshold_mask, validate, ImageSide, ValidationError};
use cloud_mask::persistence::config::CloudDetectionConfig;
use cloud_mask::raster::{Band, RasterInfo, RasterSize, CLEAR, CLOUD, REFLECTANCE_SCALE};

fn info(band_count: isize, width: usize, height: usize) -> RasterInfo {
    RasterInfo { band_count, size: RasterSize { width, height } }
}

fn band(width: usize, height: usize, data: Vec<i32>) -> Band {
    Band { size: RasterSize { width, height }, data }
}

fn reflectance(value: f64) -> i32 {
    (value * REFLECTANCE_SCALE as f64).round() as i32
}

fn scenario_bands() -> (BandPair, BandPair) {
    let reference = BandPair {
        green: band(3, 1, vec![reflectance(0.10), reflectance(0.20), reflectance(0.30)]),
        red: band(3, 1, vec![reflectance(0.10), reflectance(0.10), reflectance(0.10)]),
    };
    let target = BandPair {
        green: band(3, 1, vec![reflectance(0.20), reflectance(0.30), reflectance(0.40)]),
        red: band(3, 1, vec![reflectance(0.20), reflectance(0.20), reflectance(0.20)]),
    };
    (reference, target)
}

#[test]
fn diff_subtracts_element_wise() {
    assert_eq!(diff(&vec![5, 0, -3], &vec![2, 7, -3]), vec![3i64, -7, 0]);
}

#[test]
fn diff_of_empty_sequences_is_empty() {
    assert_eq!(diff(&vec![], &vec![]), Vec::<i64>::new());
}

#[test]
fn diff_stops_at_the_shorter_sequence() {
    assert_eq!(diff(&vec![10, 20, 30], &vec![1, 2]), vec![9i64, 18]);
}

#[test]
fn diff_does_not_overflow_at_the_extremes() {
    assert_eq!(diff(&vec![i32::MAX], &vec![i32::MIN]), vec![i32::MAX as i64 - i32::MIN as i64]);
    assert_eq!(diff(&vec![i32::MIN], &vec![i32::MAX]), vec![i32::MIN as i64 - i32::MAX as i64]);
}

#[test]
fn threshold_is_strict_and_needs_both_bands() {
    let green = vec![401i64, 400, 500, 100, -500];
    let red = vec![401i64, 500, 400, 600, -500];
    assert_eq!(threshold_mask(&green, &red, 400), vec![CLOUD, CLEAR, CLEAR, CLEAR, CLEAR]);
}

#[test]
fn threshold_mask_with_negative_threshold() {
    assert_eq!(threshold_mask(&vec![0i64, -2], &vec![0i64, 0], -1), vec![CLOUD, CLEAR]);
}

#[test]
fn validate_accepts_matching_images() {
    assert_eq!(validate(&info(6, 10, 20), &info(7, 10, 20), 6), Ok(()));
}

#[test]
fn validate_reports_reference_without_enough_bands() {
    assert_eq!(
        validate(&info(3, 2, 2), &info(6, 2, 2), 6),
        Err(ValidationError::InsufficientBands { side: ImageSide::Reference, required: 6, actual: 3 })
    );
}

#[test]
fn validate_reports_target_without_enough_bands() {
    assert_eq!(
        validate(&info(6, 2, 2), &info(5, 2, 2), 6),
        Err(ValidationError::InsufficientBands { side: ImageSide::Target, required: 6, actual: 5 })
    );
}

#[test]
fn validate_checks_reference_bands_before_target_bands() {
    assert_eq!(
        validate(&info(1, 2, 2), &info(2, 3, 3), 4),
        Err(ValidationError::InsufficientBands { side: ImageSide::Reference, required: 4, actual: 1 })
    );
}

#[test]
fn validate_reports_dimension_mismatch() {
    assert_eq!(
        validate(&info(6, 2, 2), &info(6, 3, 3), 6),
        Err(ValidationError::DimensionMismatch {
            reference: RasterSize { width: 2, height: 2 },
            target: RasterSize { width: 3, height: 3 },
        })
    );
}

#[test]
fn validate_reports_swapped_width_and_height() {
    assert!(matches!(
        validate(&info(4, 2, 3), &info(4, 3, 2), 4),
        Err(ValidationError::DimensionMismatch { .. })
    ));
}

#[test]
fn default_config_uses_bands_three_and_four() {
    let config = CloudDetectionConfig::default();
    assert_eq!(config.landsat.green_band_index, 3);
    assert_eq!(config.landsat.red_band_index, 4);
    assert_eq!(config.sentinel.green_band_index, 3);
    assert_eq!(config.sentinel.red_band_index, 4);
}

#[test]
fn sensor_profiles_take_bands_from_config() {
    let mut config = CloudDetectionConfig::default();
    config.sentinel.green_band_index = 3;
    config.sentinel.red_band_index = 2;
    let landsat = SensorProfile::for_sensor(Sensor::Landsat, &config);
    assert_eq!(landsat, SensorProfile::new(3, 4, LANDSAT_CLOUD_THRESHOLD));
    assert_eq!(landsat.cloud_threshold, reflectance(0.04) as i64);
    let sentinel = SensorProfile::for_sensor(Sensor::Sentinel, &config);
    assert_eq!(sentinel, SensorProfile::new(3, 2, SENTINEL_CLOUD_THRESHOLD));
    assert_eq!(sentinel.cloud_threshold, reflectance(0.15) as i64);
}

#[test]
fn min_band_count_is_the_larger_index() {
    assert_eq!(SensorProfile::new(3, 4, 0).min_band_count(), 4);
    assert_eq!(SensorProfile::new(8, 4, 0).min_band_count(), 8);
}

#[test]
fn classifier_refuses_reference_with_too_few_bands() {
    let profile = SensorProfile::new(2, 6, LANDSAT_CLOUD_THRESHOLD);
    let r = Classifier::new(info(3, 2, 2), info(6, 2, 2), profile);
    assert!(matches!(
        r,
        Err(ValidationError::InsufficientBands { side: ImageSide::Reference, required: 6, actual: 3 })
    ));
}

#[test]
fn classifier_refuses_images_of_different_sizes() {
    let profile = SensorProfile::new(3, 4, LANDSAT_CLOUD_THRESHOLD);
    let r = Classifier::new(info(4, 2, 2), info(4, 3, 3), profile);
    assert!(matches!(
        r,
        Err(ValidationError::DimensionMismatch {
            reference: RasterSize { width: 2, height: 2 },
            target: RasterSize { width: 3, height: 3 },
        })
    ));
}

#[test]
fn classifier_keeps_profile_and_size() {
    let profile = SensorProfile::new(3, 4, SENTINEL_CLOUD_THRESHOLD);
    let classifier = Classifier::new(info(4, 5, 6), info(5, 5, 6), profile).unwrap();
    assert_eq!(classifier.profile(), profile);
    assert_eq!(classifier.size(), RasterSize { width: 5, height: 6 });
    assert_eq!(classifier.band_indices(), vec![3, 4]);
}

#[test]
fn clouds_above_the_low_threshold() {
    let (reference, target) = scenario_bands();
    let classifier = Classifier::new(info(4, 3, 1), info(4, 3, 1), SensorProfile::new(3, 4, 400))
        .unwrap();
    let mask = classifier.classify(&reference, &target);
    assert_eq!(mask.data, vec![1, 1, 1]);
    assert_eq!(mask.size, RasterSize { width: 3, height: 1 });
}

#[test]
fn no_clouds_below_the_high_threshold() {
    let (reference, target) = scenario_bands();
    let classifier = Classifier::new(info(4, 3, 1), info(4, 3, 1), SensorProfile::new(3, 4, 1500))
        .unwrap();
    let mask = classifier.classify(&reference, &target);
    assert_eq!(mask.data, vec![0, 0, 0]);
    assert_eq!(mask.size, RasterSize { width: 3, height: 1 });
}

#[test]
fn landsat_and_sentinel_thresholds_on_the_same_pair() {
    let (reference, target) = scenario_bands();
    let config = CloudDetectionConfig::default();
    let landsat = SensorProfile::for_sensor(Sensor::Landsat, &config);
    let sentinel = SensorProfile::for_sensor(Sensor::Sentinel, &config);
    let a = Classifier::new(info(4, 3, 1), info(4, 3, 1), landsat).unwrap();
    let b = Classifier::new(info(4, 3, 1), info(4, 3, 1), sentinel).unwrap();
    assert_eq!(a.classify(&reference, &target).data, vec![CLOUD, CLOUD, CLOUD]);
    assert_eq!(b.classify(&reference, &target).data, vec![CLEAR, CLEAR, CLEAR]);
}

#[test]
fn mask_follows_each_pixel_on_a_grid() {
    let reference = BandPair {
        green: band(2, 2, vec![100, 100, 100, 100]),
        red: band(2, 2, vec![100, 100, 100, 100]),
    };
    let target = BandPair {
        green: band(2, 2, vec![600, 501, 100, 700]),
        red: band(2, 2, vec![600, 600, 600, 400]),
    };
    let classifier = Classifier::new(info(4, 2, 2), info(4, 2, 2), SensorProfile::new(3, 4, 400))
        .unwrap();
    let mask = classifier.classify(&reference, &target);
    assert_eq!(mask.data, vec![CLOUD, CLOUD, CLEAR, CLEAR]);
    assert_eq!(mask.size, RasterSize { width: 2, height: 2 });
    assert_eq!(mask.data.len(), 4);
}

#[test]
fn classification_of_an_empty_image_is_empty() {
    let empty = || BandPair { green: band(0, 0, vec![]), red: band(0, 0, vec![]) };
    let classifier = Classifier::new(info(4, 0, 0), info(4, 0, 0), SensorProfile::new(3, 4, 400))
        .unwrap();
    let mask = classifier.classify(&empty(), &empty());
    assert!(mask.data.is_empty());
}
