//! The ways a call can fail.

use vstd::prelude::*;

verus! {

/// Why a search could not be carried out.
#[derive(Clone, Copy, Debug, PartialEq, Eq)]
pub enum BisectError {
    /// A buffer does not hold 64-bit floating-point numbers.
    TypeMismatch,
    /// The buffer for the results of a batch could not be allocated.
    AllocationFailure,
}

} // verus!
