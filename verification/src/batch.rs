//! Many searches against one source.
//!
//! Each target is looked up on its own, and the results come back in the
//! order of the targets. The output buffer is reserved in one piece before
//! the first search, so that running out of memory comes back as an error
//! and does not end the process.

use vstd::prelude::*;
use crate::error::BisectError;
use crate::key::Key;
use crate::search::{bisect, bisect_rust_imp};
use crate::view::SortedView;

verus! {

/// `out` holds, for each target in turn, its insertion point in `source`.
pub open spec fn is_batch<T: Key>(source: Seq<T>, targets: Seq<T>, out: Seq<u64>) -> bool {
    &&& out.len() == targets.len()
    &&& forall|k: int| 0 <= k < targets.len() ==> #[trigger] out[k] == bisect(source, targets[k])
}

/// An empty buffer with room for `count` indices, or `None` when the memory
/// for it cannot be had. No memory is asked for when `count` is zero.
pub fn reserve_indices(count: usize) -> (buffer: Option<Vec<u64>>)
    ensures
        buffer matches Some(b) ==> b@.len() == 0,
        count == 0 ==> buffer is Some,
{
    let mut buffer: Vec<u64> = Vec::new();
    if count == 0 {
        return Some(buffer);
    }
    match buffer.try_reserve(count) {
        Ok(_) => Some(buffer),
        Err(_) => None,
    }
}

/// Searches `source` for every target and writes the results into `buffer`,
/// replacing what it held. Without a buffer there is nowhere to write, and
/// the call reports that.
pub fn bisect_batch_into<S, T>(source: &S, targets: &T, buffer: Option<Vec<u64>>) -> (r: Result<
    Vec<u64>,
    BisectError,
>)
    where
        S: SortedView + ?Sized,
        T: SortedView<Item = S::Item> + ?Sized,
    ensures
        buffer is None ==> r == Err::<Vec<u64>, BisectError>(BisectError::AllocationFailure),
        buffer is Some ==> r is Ok,
        r matches Ok(out) ==> is_batch(source.items(), targets.items(), out@),
{
    let mut out = match buffer {
        Some(b) => b,
        None => {
            return Err(BisectError::AllocationFailure);
        },
    };
    out.clear();
    let count = targets.len();
    let mut k: usize = 0;
    while k < count
        invariant
            count == targets.items().len(),
            k <= count,
            out@.len() == k,
            forall|i: int|
                0 <= i < k ==> #[trigger] out@[i] == bisect(source.items(), targets.items()[i]),
        decreases count - k,
    {
        let target = targets.get(k);
        let index = bisect_rust_imp(source, &target, 0, None);
        out.push(index as u64);
        k += 1;
    }
    Ok(out)
}

/// Searches `source` for every target, in order.
///
/// The call succeeds whenever the output buffer can be allocated, and always
/// when there are no targets.
pub fn bisect_batch<S, T>(source: &S, targets: &T) -> (r: Result<Vec<u64>, BisectError>)
    where
        S: SortedView + ?Sized,
        T: SortedView<Item = S::Item> + ?Sized,
    ensures
        targets.items().len() == 0 ==> r is Ok,
        r matches Ok(out) ==> is_batch(source.items(), targets.items(), out@),
        r matches Err(e) ==> e == BisectError::AllocationFailure,
{
    bisect_batch_into(source, targets, reserve_indices(targets.len()))
}

} // verus!
