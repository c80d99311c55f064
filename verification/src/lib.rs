//! Insertion-point search over sorted sequences.
//!
//! Given a sequence in non-decreasing order and a value, the search returns
//! the index at which the value would be inserted to keep the order, before
//! any elements equal to it. The sequence may be a slice of any [`Key`], a
//! vector of [`Double`]s, a [`DenseArray`] or an arrow column of floats; a
//! batch looks up a whole column of values at once.

pub mod batch;
pub mod column;
pub mod dense;
pub mod double;
pub mod error;
pub mod key;
pub mod representation;
pub mod search;
pub mod view;

pub use batch::{bisect_batch, bisect_batch_into, reserve_indices};
pub use column::{bisect_rust_arrow, bisect_rust_arrow_with_targets, ColumnKind, FloatColumn};
pub use dense::{bisect_rust_np, DenseArray};
pub use double::Double;
pub use error::BisectError;
pub use key::Key;
pub use search::{bisect_rust, bisect_rust_imp};
pub use view::SortedView;
