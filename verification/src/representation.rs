//! One sequence, three buffers.

use vstd::prelude::*;
use arrow::array::ArrayData;
use crate::column::{arrow_bisect, column_kind, column_words, doubles, ColumnKind};
use crate::dense::{dense_bisect, dense_elements, DenseArray};
use crate::double::Double;
use crate::search::{bisect, lemma_bisect_within};

verus! {

/// A search gives the same index whether the sequence is held in a vector,
/// in a dense array or in a column of floats.
pub proof fn lemma_same_sequence_same_index(
    list: Seq<Double>,
    array: DenseArray,
    column: ArrayData,
    value: Double,
)
    requires
        dense_elements(array) == list,
        column_kind(column) == ColumnKind::Float64,
        doubles(column_words(column)) == list,
        list.len() <= usize::MAX,
    ensures
        dense_bisect(array, value) == bisect(list, value),
        arrow_bisect(column, value) matches Ok(index) && index == bisect(list, value),
{
    lemma_bisect_within(list, value);
}

} // verus!
