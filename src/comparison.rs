//! Scoring a produced mask against a ground-truth mask with a confusion matrix
//! of (actual, predicted) labels.

use vstd::multiset::Multiset;
use vstd::prelude::*;

use confusion_matrix::ConfusionMatrix;

use crate::classifiers::util::paired_len;
use crate::raster::{Mask, RasterInfo, RasterSize};

verus! {

#[verifier::external_type_specification]
#[verifier::external_body]
pub struct ExConfusionMatrix(ConfusionMatrix);

/// The cells of a confusion matrix: each counted pixel as its pair of
/// (actual, predicted) label texts, as often as it was counted.
pub uninterp spec fn cells_of(m: ConfusionMatrix) -> Multiset<(Seq<char>, Seq<char>)>;

/// The character of a decimal digit.
pub open spec fn digit_char(d: nat) -> char {
    seq!['0', '1', '2', '3', '4', '5', '6', '7', '8', '9'][d as int]
}

/// The decimal text of `n`, without sign or leading zeros.
pub open spec fn decimal(n: nat) -> Seq<char>
    decreases n,
{
    if n < 10 {
        seq![digit_char(n)]
    } else {
        decimal(n / 10) + seq![digit_char(n % 10)]
    }
}

/// Relies on `u32`'s `to_string`: the decimal text of the number.
#[verifier::external_body]
fn label_text(label: u32) -> (r: String)
    ensures
        r@ == decimal(label as nat),
{
    label.to_string()
}

/// Relies on `confusion_matrix::new`: a matrix without any counted pixel.
#[verifier::external_body]
fn empty_matrix() -> (m: ConfusionMatrix)
    ensures
        cells_of(m) == Multiset::<(Seq<char>, Seq<char>)>::empty(),
{
    confusion_matrix::new()
}

/// Relies on `ConfusionMatrix::add_for`: counts one more pixel in the cell
/// (`actual`, `prediction`). The cell's count goes up by one, which the
/// `requires` keeps below `usize::MAX`.
#[verifier::external_body]
fn count_pixel(m: &mut ConfusionMatrix, actual: &str, prediction: &str)
    requires
        cells_of(*old(m)).count((actual@, prediction@)) < usize::MAX,
    ensures
        cells_of(*final(m)) == cells_of(*old(m)).insert((actual@, prediction@)),
{
    m.add_for(actual, prediction)
}

/// The cells that the first `n` pixels of two label sequences fill: pixel `i`
/// counts in the cell (`actual[i]`, `predicted[i]`), both as decimal text.
pub open spec fn label_pairs(actual: Seq<u32>, predicted: Seq<u32>, n: nat) -> Multiset<
    (Seq<char>, Seq<char>),
>
    decreases n,
{
    if n == 0 {
        Multiset::empty()
    } else {
        label_pairs(actual, predicted, (n - 1) as nat).insert(
            (decimal(actual[n - 1] as nat), decimal(predicted[n - 1] as nat)),
        )
    }
}

/// The cells of a confusion matrix in which the actual and the predicted label
/// agree.
pub open spec fn agreeing(cells: Multiset<(Seq<char>, Seq<char>)>) -> Multiset<
    (Seq<char>, Seq<char>),
> {
    cells.filter(|cell: (Seq<char>, Seq<char>)| cell.0 == cell.1)
}

proof fn lemma_label_pairs_len(actual: Seq<u32>, predicted: Seq<u32>, n: nat)
    ensures
        label_pairs(actual, predicted, n).len() == n,
    decreases n,
{
    if n > 0 {
        lemma_label_pairs_len(actual, predicted, (n - 1) as nat);
    }
}

/// Builds the confusion matrix of two classifications of the same pixels:
/// `reference_classification` holds the actual labels and
/// `target_classification` the predicted ones.
pub fn create_confusion_matrix(
    reference_classification: &Vec<u32>,
    target_classification: &Vec<u32>,
) -> (m: ConfusionMatrix)
    ensures
        cells_of(m) == label_pairs(
            reference_classification@,
            target_classification@,
            paired_len(reference_classification@, target_classification@),
        ),
{
    let n: usize = if reference_classification.len() <= target_classification.len() {
        reference_classification.len()
    } else {
        target_classification.len()
    };
    let mut m = empty_matrix();
    let mut i: usize = 0;
    while i < n
        invariant
            n == paired_len(reference_classification@, target_classification@),
            n <= reference_classification@.len(),
            n <= target_classification@.len(),
            i <= n,
            cells_of(m) == label_pairs(reference_classification@, target_classification@, i as nat),
        decreases n - i,
    {
        let actual = label_text(reference_classification[i]);
        let predicted = label_text(target_classification[i]);
        proof {
            lemma_label_pairs_len(reference_classification@, target_classification@, i as nat);
        }
        count_pixel(&mut m, actual.as_str(), predicted.as_str());
        i = i + 1;
    }
    m
}

/// Why a ground-truth image cannot be compared with a produced mask.
#[derive(Clone, Copy, Debug, PartialEq, Eq, Structural)]
pub enum ComparisonShapeError {
    /// The ground truth does not have exactly one band.
    BandCount { actual: isize },
    /// The ground truth differs in size from the produced mask.
    SizeMismatch { classified: RasterSize, reference: RasterSize },
}

/// The outcome of checking a ground-truth image against a produced mask: the
/// band count is checked first, then the size.
pub open spec fn ground_truth_check(current: &Mask, ground_truth: RasterInfo) -> Result<
    (),
    ComparisonShapeError,
> {
    if ground_truth.band_count != 1 {
        Err(ComparisonShapeError::BandCount { actual: ground_truth.band_count })
    } else if ground_truth.size != current.size {
        Err(
            ComparisonShapeError::SizeMismatch {
                classified: current.size,
                reference: ground_truth.size,
            },
        )
    } else {
        Ok(())
    }
}

/// Checks that a ground-truth image can be compared with `current`: it must
/// have exactly one band and the size of `current`.
pub fn check_classified_image(current: &Mask, ground_truth: &RasterInfo) -> (r: Result<
    (),
    ComparisonShapeError,
>)
    ensures
        r == ground_truth_check(current, *ground_truth),
        r is Ok <==> (ground_truth.band_count == 1 && ground_truth.size == current.size),
{
    if ground_truth.band_count != 1 {
        return Err(ComparisonShapeError::BandCount { actual: ground_truth.band_count });
    }
    if ground_truth.size != current.size {
        return Err(
            ComparisonShapeError::SizeMismatch {
                classified: current.size,
                reference: ground_truth.size,
            },
        );
    }
    Ok(())
}

/// Scores `produced` against a ground-truth image: `ground_truth_info`
/// describes the image and `ground_truth` holds its one band. The matrix
/// counts each pixel in the cell (ground-truth label, produced label).
pub fn score(produced: &Mask, ground_truth_info: &RasterInfo, ground_truth: &Mask) -> (r: Result<
    ConfusionMatrix,
    ComparisonShapeError,
>)
    ensures
        match r {
            Ok(m) => {
                &&& ground_truth_check(produced, *ground_truth_info) is Ok
                &&& cells_of(m) == label_pairs(
                    ground_truth.data@,
                    produced.data@,
                    paired_len(ground_truth.data@, produced.data@),
                )
            },
            Err(e) => ground_truth_check(produced, *ground_truth_info) == Err::<
                (),
                ComparisonShapeError,
            >(e),
        },
{
    match check_classified_image(produced, ground_truth_info) {
        Ok(()) => Ok(create_confusion_matrix(&ground_truth.data, &produced.data)),
        Err(e) => Err(e),
    }
}

/// Every compared pixel is counted in exactly one cell: the cells of the
/// matrix of two label sequences hold as many pixels as both sequences have.
pub proof fn lemma_matrix_counts_every_pixel(actual: Seq<u32>, predicted: Seq<u32>)
    ensures
        label_pairs(actual, predicted, paired_len(actual, predicted)).len() == paired_len(
            actual,
            predicted,
        ),
{
    lemma_label_pairs_len(actual, predicted, paired_len(actual, predicted));
}

/// The overall accuracy of a confusion matrix, the agreeing pixels over all
/// pixels, lies between 0 and 1: no more pixels agree than were counted.
pub proof fn lemma_accuracy_at_most_one(cells: Multiset<(Seq<char>, Seq<char>)>)
    ensures
        agreeing(cells).len() <= cells.len(),
{
    let disagreeing = cells.filter(|cell: (Seq<char>, Seq<char>)| cell.0 != cell.1);
    assert(cells =~= agreeing(cells).add(disagreeing));
}

/// A mask compared with itself has an overall accuracy of 1: every counted
/// pixel lies in a cell where the actual and the predicted label agree.
pub proof fn lemma_self_comparison_agrees(labels: Seq<u32>)
    ensures
        agreeing(label_pairs(labels, labels, labels.len())) == label_pairs(
            labels,
            labels,
            labels.len(),
        ),
{
    lemma_label_pairs_diagonal(labels, labels.len());
    assert(agreeing(label_pairs(labels, labels, labels.len())) =~= label_pairs(
        labels,
        labels,
        labels.len(),
    ));
}

proof fn lemma_label_pairs_diagonal(labels: Seq<u32>, n: nat)
    ensures
        forall|cell: (Seq<char>, Seq<char>)|
            label_pairs(labels, labels, n).count(cell) > 0 ==> cell.0 == cell.1,
    decreases n,
{
    if n > 0 {
        lemma_label_pairs_diagonal(labels, (n - 1) as nat);
        let earlier = label_pairs(labels, labels, (n - 1) as nat);
        let last = decimal(labels[n - 1] as nat);
        assert forall|cell: (Seq<char>, Seq<char>)|
            label_pairs(labels, labels, n).count(cell) > 0 implies cell.0 == cell.1 by {
            if cell != (last, last) {
                assert(earlier.insert((last, last)).count(cell) == earlier.count(cell));
            }
        }
    }
}

} // verus!
