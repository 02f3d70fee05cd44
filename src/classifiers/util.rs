//! Building blocks shared by the classifiers: validation, band differences and
//! thresholding.

use vstd::prelude::*;

use crate::raster::{RasterInfo, RasterSize, CLEAR, CLOUD};

verus! {

/// Which of the two compared images a validation error is about.
#[derive(Clone, Copy, Debug, PartialEq, Eq, Structural)]
pub enum ImageSide {
    Reference,
    Target,
}

/// Why a reference and a target image cannot be classified together.
#[derive(Clone, Copy, Debug, PartialEq, Eq, Structural)]
pub enum ValidationError {
    /// One image has fewer bands than the sensor needs.
    InsufficientBands { side: ImageSide, required: isize, actual: isize },
    /// The two images differ in size.
    DimensionMismatch { reference: RasterSize, target: RasterSize },
}

/// The outcome of validating two images against a minimum band count: the
/// reference's band count is checked first, then the target's, then the sizes.
pub open spec fn validation_outcome(
    reference: RasterInfo,
    target: RasterInfo,
    min_raster_count: isize,
) -> Result<(), ValidationError> {
    if reference.band_count < min_raster_count {
        Err(
            ValidationError::InsufficientBands {
                side: ImageSide::Reference,
                required: min_raster_count,
                actual: reference.band_count,
            },
        )
    } else if target.band_count < min_raster_count {
        Err(
            ValidationError::InsufficientBands {
                side: ImageSide::Target,
                required: min_raster_count,
                actual: target.band_count,
            },
        )
    } else if reference.size != target.size {
        Err(ValidationError::DimensionMismatch { reference: reference.size, target: target.size })
    } else {
        Ok(())
    }
}

/// Checks that both images have at least `min_raster_count` bands and that
/// they have the same size.
pub fn validate(reference: &RasterInfo, target: &RasterInfo, min_raster_count: isize) -> (r: Result<
    (),
    ValidationError,
>)
    ensures
        r == validation_outcome(*reference, *target, min_raster_count),
        r is Ok <==> (reference.band_count >= min_raster_count && target.band_count
            >= min_raster_count && reference.size == target.size),
{
    if reference.band_count < min_raster_count {
        return Err(
            ValidationError::InsufficientBands {
                side: ImageSide::Reference,
                required: min_raster_count,
                actual: reference.band_count,
            },
        );
    }
    if target.band_count < min_raster_count {
        return Err(
            ValidationError::InsufficientBands {
                side: ImageSide::Target,
                required: min_raster_count,
                actual: target.band_count,
            },
        );
    }
    if reference.size != target.size {
        return Err(
            ValidationError::DimensionMismatch { reference: reference.size, target: target.size },
        );
    }
    Ok(())
}

/// The smaller of two natural numbers.
pub open spec fn min_nat(a: nat, b: nat) -> nat {
    if a <= b {
        a
    } else {
        b
    }
}

/// Shortest length of two sequences: how far a pairwise walk over both goes.
pub open spec fn paired_len<A, B>(a: Seq<A>, b: Seq<B>) -> nat {
    min_nat(a.len(), b.len())
}

/// Element-wise difference `lhs[i] - rhs[i]` of two sample sequences, over the
/// positions that both have.
pub fn diff(lhs: &Vec<i32>, rhs: &Vec<i32>) -> (r: Vec<i64>)
    ensures
        r@.len() == paired_len(lhs@, rhs@),
        forall|i: int| 0 <= i < r@.len() ==> r@[i] == lhs@[i] - rhs@[i],
{
    let n: usize = if lhs.len() <= rhs.len() {
        lhs.len()
    } else {
        rhs.len()
    };
    let mut r: Vec<i64> = Vec::with_capacity(n);
    let mut i: usize = 0;
    while i < n
        invariant
            n == paired_len(lhs@, rhs@),
            i <= n,
            r@.len() == i,
            forall|j: int| 0 <= j < i ==> r@[j] == lhs@[j] - rhs@[j],
        decreases n - i,
    {
        r.push(lhs[i] as i64 - rhs[i] as i64);
        i = i + 1;
    }
    r
}

/// The label of a pixel whose green and red reflectance changed by
/// `delta_green` and `delta_red`: cloud when both rose by more than `threshold`.
pub open spec fn cloud_label(delta_green: int, delta_red: int, threshold: int) -> u32 {
    if delta_green > threshold && delta_red > threshold {
        CLOUD
    } else {
        CLEAR
    }
}

/// Labels each pixel from its green and red deltas, over the positions that
/// both delta sequences have.
pub fn threshold_mask(delta_green: &Vec<i64>, delta_red: &Vec<i64>, threshold: i64) -> (r: Vec<
    u32,
>)
    ensures
        r@.len() == paired_len(delta_green@, delta_red@),
        forall|i: int|
            0 <= i < r@.len() ==> r@[i] == cloud_label(
                delta_green@[i] as int,
                delta_red@[i] as int,
                threshold as int,
            ),
{
    let n: usize = if delta_green.len() <= delta_red.len() {
        delta_green.len()
    } else {
        delta_red.len()
    };
    let mut r: Vec<u32> = Vec::with_capacity(n);
    let mut i: usize = 0;
    while i < n
        invariant
            n == paired_len(delta_green@, delta_red@),
            i <= n,
            r@.len() == i,
            forall|j: int|
                0 <= j < i ==> r@[j] == cloud_label(
                    delta_green@[j] as int,
                    delta_red@[j] as int,
                    threshold as int,
                ),
        decreases n - i,
    {
        let label: u32 = if delta_green[i] > threshold && delta_red[i] > threshold {
            CLOUD
        } else {
            CLEAR
        };
        r.push(label);
        i = i + 1;
    }
    r
}

} // verus!
