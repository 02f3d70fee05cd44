//! Multitemporal cloud masking.
//!
//! Clouds are detected by comparing a cloud-free reference image with a target
//! image of the same scene: a pixel whose green and red reflectance both rose
//! by more than a sensor-specific threshold is labelled as cloud.

pub mod classifiers;
pub mod comparison;
pub mod persistence;
pub mod raster;
