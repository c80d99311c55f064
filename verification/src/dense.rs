//! Searching dense n-dimensional arrays.
//!
//! A [`DenseArray`] keeps its elements in an `ndarray` array of any number of
//! axes. A search runs over the elements in logical order, the last axis
//! varying fastest, whatever order they lie in memory.

use vstd::prelude::*;
use ndarray::{ArrayD, IxDyn};
use crate::double::Double;
use crate::search::{bisect, bisect_rust_imp, is_leftmost, lemma_bisect_leftmost, non_decreasing};

verus! {

/// A dense array of doubles with any number of axes.
#[verifier::external_body]
pub struct DenseArray {
    elements: ArrayD<Double>,
}

/// The elements of an array in logical order: the last axis varies fastest.
pub uninterp spec fn dense_elements(array: DenseArray) -> Seq<Double>;

/// The number of elements that a shape describes: the product of its axis
/// lengths.
pub open spec fn shape_size(shape: Seq<usize>) -> int
    decreases shape.len(),
{
    if shape.len() == 0 {
        1
    } else {
        shape[0] * shape_size(shape.drop_first())
    }
}

/// The product of the axis lengths that are not zero.
pub open spec fn shape_extent(shape: Seq<usize>) -> int
    decreases shape.len(),
{
    if shape.len() == 0 {
        1
    } else if shape[0] == 0 {
        shape_extent(shape.drop_first())
    } else {
        shape[0] * shape_extent(shape.drop_first())
    }
}

/// Whether a shape can be given to `count` elements: it describes exactly that
/// many, and the product of its non-zero axis lengths is at most
/// `isize::MAX`.
pub open spec fn shape_admits(shape: Seq<usize>, count: nat) -> bool {
    shape_extent(shape) <= isize::MAX && shape_size(shape) == count
}

/// Builds the array with ndarray's `ArrayBase::from_shape_vec` and a dynamic
/// dimension. Trusted: the call succeeds exactly when the product of the
/// non-zero axis lengths is at most `isize::MAX` and the shape describes as
/// many elements as there are; the array then holds the elements, in the
/// order given, as its logical order.
#[verifier::external_body]
fn array_from_shape(shape: &[usize], elements: Vec<Double>) -> (array: Option<DenseArray>)
    ensures
        array is Some <==> shape_admits(shape@, elements@.len()),
        array matches Some(a) ==> dense_elements(a) == elements@,
{
    match ArrayD::from_shape_vec(IxDyn(shape), elements) {
        Ok(elements) => Some(DenseArray { elements }),
        Err(_) => None,
    }
}

/// Lays the array out with ndarray's `as_standard_layout`, `into_owned` and
/// `into_raw_vec_and_offset`, and takes the vector. Trusted: the vector holds
/// the elements of the array in logical order.
#[verifier::external_body]
fn standard_layout(array: &DenseArray) -> (elements: Vec<Double>)
    ensures
        elements@ == dense_elements(*array),
{
    array.elements.as_standard_layout().into_owned().into_raw_vec_and_offset().0
}

impl DenseArray {
    /// The array of the given shape whose elements, in logical order, are
    /// `elements`; `None` when the shape does not describe that many
    /// elements, or describes more than an array can hold.
    pub fn from_shape_vec(shape: &[usize], elements: Vec<Double>) -> (array: Option<DenseArray>)
        ensures
            array is Some <==> shape_admits(shape@, elements@.len()),
            array matches Some(a) ==> dense_elements(a) == elements@,
    {
        array_from_shape(shape, elements)
    }
}

/// What [`bisect_rust_np`] returns for an array and a value.
pub open spec fn dense_bisect(array: DenseArray, value: Double) -> int {
    bisect(dense_elements(array), value)
}

/// Finds the insertion point of `value` among the elements of `list_input`,
/// taken in logical order.
pub fn bisect_rust_np(list_input: DenseArray, value: Double) -> (r: usize)
    ensures
        r == dense_bisect(list_input, value),
        r <= dense_elements(list_input).len(),
        non_decreasing(dense_elements(list_input)) ==> is_leftmost(
            dense_elements(list_input),
            value,
            r as int,
        ),
{
    let elements = standard_layout(&list_input);
    proof {
        if non_decreasing(elements@) {
            lemma_bisect_leftmost(elements@, value);
        }
    }
    bisect_rust_imp(&elements, &value, 0, None)
}

} // verus!
