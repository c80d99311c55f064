//! Searching columnar buffers.
//!
//! A column arrives as arrow's `ArrayData`. Only a column of 64-bit floats can
//! be searched; [`FloatColumn`] is the view of one, and shares the column's
//! memory. The value slots are read as they lie, from the column's offset for
//! the column's length, whatever its validity bitmap says about them. The
//! results of a batch leave as a column of unsigned 64-bit integers.

use vstd::prelude::*;
use arrow::array::{Array, ArrayData, Float64Array, UInt64Array};
use arrow::datatypes::DataType;
use crate::batch::{bisect_batch, is_batch};
use crate::double::Double;
use crate::error::BisectError;
use crate::search::{bisect, bisect_rust_imp, is_leftmost, lemma_bisect_leftmost, non_decreasing};
use crate::view::SortedView;

verus! {

#[verifier::external_type_specification]
#[verifier::external_body]
pub struct ExArrayData(ArrayData);

/// What the slots of a column hold, as far as this library tells columns
/// apart.
#[derive(Clone, Copy, Debug, PartialEq, Eq)]
pub enum ColumnKind {
    /// 64-bit floating-point numbers.
    Float64,
    /// Unsigned 64-bit integers.
    UInt64,
    /// Anything else.
    Other,
}

/// A view of the floats of a column.
#[verifier::external_body]
pub struct FloatColumn {
    array: Float64Array,
}

/// The kind of a column, by its arrow data type.
pub uninterp spec fn column_kind(column: ArrayData) -> ColumnKind;

/// The value slots of a column whose kind is `Float64` or `UInt64`, as 64-bit
/// words in the column's order: the bit pattern of each float, or the integer
/// itself.
pub uninterp spec fn column_words(column: ArrayData) -> Seq<u64>;

/// The bit patterns of the floats that a view holds, in order.
pub uninterp spec fn float_words(column: FloatColumn) -> Seq<u64>;

/// The doubles with the given bit patterns.
pub open spec fn doubles(words: Seq<u64>) -> Seq<Double> {
    words.map_values(|w: u64| Double { bits: w })
}

/// Reads the data type of a column with arrow's `ArrayData::data_type` and
/// tells its variants apart. Trusted: the answer is the column's kind.
#[verifier::external_body]
fn kind_of(column: &ArrayData) -> (kind: ColumnKind)
    ensures
        kind == column_kind(*column),
{
    match column.data_type() {
        DataType::Float64 => ColumnKind::Float64,
        DataType::UInt64 => ColumnKind::UInt64,
        _ => ColumnKind::Other,
    }
}

/// Makes the view with arrow's `PrimitiveArray::<Float64Type>::from(ArrayData)`,
/// which shares the column's buffer. Trusted: the view holds the column's
/// value slots. The conversion panics on a column of another type, which
/// `requires` leaves out; beyond the type it relies on what arrow's own
/// validation has established of every `ArrayData` made without `unsafe`.
#[verifier::external_body]
fn float_view(column: ArrayData) -> (view: FloatColumn)
    requires
        column_kind(column) == ColumnKind::Float64,
    ensures
        float_words(view) == column_words(column),
{
    FloatColumn { array: Float64Array::from(column) }
}

/// Takes the length of arrow's `PrimitiveArray::values`. Trusted: it is the
/// number of floats in the view.
#[verifier::external_body]
fn float_count(view: &FloatColumn) -> (n: usize)
    ensures
        n == float_words(*view).len(),
{
    view.array.values().len()
}

/// Reads one float of arrow's `PrimitiveArray::values` and takes its bits.
/// Trusted: they are the bit pattern at that index. An index past the end
/// panics, which `requires` leaves out.
#[verifier::external_body]
fn float_word(view: &FloatColumn, i: usize) -> (word: u64)
    requires
        i < float_words(*view).len(),
    ensures
        word == float_words(*view)[i as int],
{
    view.array.values()[i].to_bits()
}

/// Turns indices into a column with arrow's
/// `PrimitiveArray::<UInt64Type>::from(Vec<u64>)` and `Array::into_data`.
/// Trusted: the column is of unsigned 64-bit integers and holds exactly the
/// given indices in order.
#[verifier::external_body]
fn uint64_column(indices: Vec<u64>) -> (column: ArrayData)
    ensures
        column_kind(column) == ColumnKind::UInt64,
        column_words(column) == indices@,
{
    UInt64Array::from(indices).into_data()
}

impl FloatColumn {
    /// The view of a column of 64-bit floats. A column of any other type is
    /// refused with [`BisectError::TypeMismatch`].
    pub fn new(column: ArrayData) -> (r: Result<FloatColumn, BisectError>)
        ensures
            r is Ok <==> column_kind(column) == ColumnKind::Float64,
            r matches Ok(view) ==> view.items() == doubles(column_words(column)),
            r matches Err(e) ==> e == BisectError::TypeMismatch,
    {
        match kind_of(&column) {
            ColumnKind::Float64 => Ok(float_view(column)),
            _ => Err(BisectError::TypeMismatch),
        }
    }
}

impl SortedView for FloatColumn {
    type Item = Double;

    open spec fn items(&self) -> Seq<Double> {
        doubles(float_words(*self))
    }

    fn len(&self) -> (n: usize) {
        float_count(self)
    }

    fn get(&self, i: usize) -> (x: Double) {
        Double::from_bits(float_word(self, i))
    }
}

/// What [`bisect_rust_arrow`] returns for a column and a value.
pub open spec fn arrow_bisect(column: ArrayData, value: Double) -> Result<usize, BisectError> {
    if column_kind(column) == ColumnKind::Float64 {
        Ok(bisect(doubles(column_words(column)), value) as usize)
    } else {
        Err(BisectError::TypeMismatch)
    }
}

/// Finds the insertion point of `value` in a column of 64-bit floats.
///
/// A column of any other type is refused with
/// [`BisectError::TypeMismatch`].
pub fn bisect_rust_arrow(array: ArrayData, value: Double) -> (r: Result<usize, BisectError>)
    ensures
        r == arrow_bisect(array, value),
        r matches Ok(index) ==> {
            &&& index == bisect(doubles(column_words(array)), value)
            &&& index <= column_words(array).len()
            &&& non_decreasing(doubles(column_words(array))) ==> is_leftmost(
                doubles(column_words(array)),
                value,
                index as int,
            )
        },
{
    match FloatColumn::new(array) {
        Ok(view) => {
            proof {
                if non_decreasing(view.items()) {
                    lemma_bisect_leftmost(view.items(), value);
                }
            }
            Ok(bisect_rust_imp(&view, &value, 0, None))
        },
        Err(e) => Err(e),
    }
}

/// Finds the insertion point in `source` of every value of `targets`, and
/// returns them as a column of unsigned 64-bit integers in the order of the
/// targets.
///
/// Both columns must hold 64-bit floats; otherwise the call is refused with
/// [`BisectError::TypeMismatch`] before any search. With both in order, the
/// call can only fail for want of memory for the results, and not when there
/// are no targets.
pub fn bisect_rust_arrow_with_targets(source: ArrayData, targets: ArrayData) -> (r: Result<
    ArrayData,
    BisectError,
>)
    ensures
        column_kind(source) != ColumnKind::Float64 || column_kind(targets) != ColumnKind::Float64
            ==> (r matches Err(e) && e == BisectError::TypeMismatch),
        column_kind(source) == ColumnKind::Float64 && column_kind(targets) == ColumnKind::Float64
            ==> match r {
            Ok(out) => {
                &&& column_kind(out) == ColumnKind::UInt64
                &&& is_batch(
                    doubles(column_words(source)),
                    doubles(column_words(targets)),
                    column_words(out),
                )
            },
            Err(e) => e == BisectError::AllocationFailure && column_words(targets).len() > 0,
        },
{
    let source_view = match FloatColumn::new(source) {
        Ok(view) => view,
        Err(e) => {
            return Err(e);
        },
    };
    let target_view = match FloatColumn::new(targets) {
        Ok(view) => view,
        Err(e) => {
            return Err(e);
        },
    };
    match bisect_batch(&source_view, &target_view) {
        Ok(indices) => Ok(uint64_column(indices)),
        Err(e) => Err(e),
    }
}

} // verus!
