//! The bisection engine.
//!
//! [`search`] is the mathematical definition of what the engine computes on
//! any sequence, ordered or not; [`bisect_rust_imp`] is the loop that computes
//! it. On a non-decreasing sequence the result is the leftmost insertion
//! point, which the laws at the end of this file establish.

use vstd::prelude::*;
use crate::double::Double;
use crate::key::{Key, lt_spec, eq_spec};
use crate::view::SortedView;

verus! {

/// What the engine sees when it looks at position `i`: `true` when `v` is at
/// or below the element there. A position at or past the end holds nothing
/// that `v` could exceed, so it answers `true` as well.
pub open spec fn probe<T: Key>(s: Seq<T>, v: T, i: int) -> bool {
    i >= s.len() || v.le_spec(&s[i])
}

/// The index the engine returns for the window `low ..= high` of `s`.
///
/// The window is halved at `mid = (low + high) / 2`. A probe that answers
/// `true` at `mid == 0` ends the search at `0`; otherwise it moves the upper
/// end to `mid - 1`. A probe that answers `false` moves the lower end to
/// `mid + 1`. An empty window yields its lower end.
pub open spec fn search<T: Key>(s: Seq<T>, v: T, low: int, high: int) -> int
    decreases high - low + 1,
{
    if low > high {
        low
    } else {
        let mid = (low + high) / 2;
        if probe(s, v, mid) {
            if mid == 0 {
                0
            } else {
                search(s, v, low, mid - 1)
            }
        } else {
            search(s, v, mid + 1, high)
        }
    }
}

/// The upper end of the window: the given bound, or the last index of `s`
/// when none is given (`-1` for an empty `s`).
pub open spec fn upper_end<T>(s: Seq<T>, high: Option<usize>) -> int {
    match high {
        Some(h) => h as int,
        None => s.len() - 1,
    }
}

/// The insertion point of `v` in the whole of `s`.
pub open spec fn bisect<T: Key>(s: Seq<T>, v: T) -> int {
    search(s, v, 0, s.len() - 1)
}

/// No element of `s` is followed by one that it is not at or below.
pub open spec fn non_decreasing<T: Key>(s: Seq<T>) -> bool {
    forall|i: int, j: int| 0 <= i < j < s.len() ==> #[trigger] s[i].le_spec(&s[j])
}

/// `r` is where the probes of the window `low ..= high` turn from `false` to
/// `true`: every position of the window before `r` answers `false`, and `r`
/// answers `true` unless it lies just past the window.
pub open spec fn is_lower_bound_in<T: Key>(s: Seq<T>, v: T, low: int, high: int, r: int) -> bool {
    &&& low <= r <= high + 1
    &&& forall|j: int| low <= j < r ==> !#[trigger] probe(s, v, j)
    &&& r <= high ==> probe(s, v, r)
}

/// `r` is the leftmost insertion point of `v` in `s`: the smallest index whose
/// element `v` is at or below, or the length of `s` when there is none.
pub open spec fn is_leftmost<T: Key>(s: Seq<T>, v: T, r: int) -> bool {
    &&& 0 <= r <= s.len()
    &&& forall|j: int| 0 <= j < r ==> !#[trigger] v.le_spec(&s[j])
    &&& r < s.len() ==> v.le_spec(&s[r])
}

/// The search never leaves the sequence: started at or before the end, it
/// ends at or before the end.
pub proof fn lemma_search_within<T: Key>(s: Seq<T>, v: T, low: int, high: int)
    requires
        0 <= low <= s.len(),
    ensures
        0 <= search(s, v, low, high) <= s.len(),
    decreases high - low + 1,
{
    if low <= high {
        let mid = (low + high) / 2;
        if probe(s, v, mid) {
            if mid != 0 {
                lemma_search_within(s, v, low, mid - 1);
            }
        } else {
            lemma_search_within(s, v, mid + 1, high);
        }
    }
}

/// On a non-decreasing sequence the probes are monotone: once one answers
/// `true`, every later one does.
pub proof fn lemma_probe_monotone<T: Key>(s: Seq<T>, v: T, i: int, j: int)
    requires
        non_decreasing(s),
        0 <= i <= j,
        probe(s, v, i),
    ensures
        probe(s, v, j),
{
    if i < j && j < s.len() {
        assert(s[i].le_spec(&s[j]));
        T::le_transitive(&v, &s[i], &s[j]);
    }
}

/// On a non-decreasing sequence the search finds the place in its window
/// where the probes turn from `false` to `true`.
pub proof fn lemma_search_lower_bound<T: Key>(s: Seq<T>, v: T, low: int, high: int)
    requires
        non_decreasing(s),
        0 <= low <= high + 1,
    ensures
        is_lower_bound_in(s, v, low, high, search(s, v, low, high)),
    decreases high - low + 1,
{
    if low <= high {
        let mid = (low + high) / 2;
        if probe(s, v, mid) {
            if mid != 0 {
                lemma_search_lower_bound(s, v, low, mid - 1);
            }
        } else {
            lemma_search_lower_bound(s, v, mid + 1, high);
            let r = search(s, v, mid + 1, high);
            assert forall|j: int| low <= j < r implies !#[trigger] probe(s, v, j) by {
                if j <= mid && probe(s, v, j) {
                    lemma_probe_monotone(s, v, j, mid);
                }
            }
        }
    }
}

/// Finds the insertion point of `value` in the window `low ..= high` of
/// `list_input`; without `high` the window ends at the last element.
///
/// The result is defined for every input. Positions of the window that lie
/// past the end of the view are probed as described at [`probe`], and a
/// window that starts at or before the end of the view ends there too.
pub fn bisect_rust_imp<V: SortedView + ?Sized>(
    list_input: &V,
    value: &V::Item,
    low: usize,
    high: Option<usize>,
) -> (r: usize)
    ensures
        r == search(list_input.items(), *value, low as int, upper_end(list_input.items(), high)),
        low <= list_input.items().len() ==> r <= list_input.items().len(),
        non_decreasing(list_input.items()) && low <= upper_end(list_input.items(), high) + 1
            ==> is_lower_bound_in(
            list_input.items(),
            *value,
            low as int,
            upper_end(list_input.items(), high),
            r as int,
        ),
{
    let n = list_input.len();
    let ghost s = list_input.items();
    let ghost top = upper_end(s, high);
    let ghost goal = search(s, *value, low as int, top);
    proof {
        if low <= n {
            lemma_search_within(s, *value, low as int, top);
        }
        if non_decreasing(s) && low <= top + 1 {
            lemma_search_lower_bound(s, *value, low as int, top);
        }
    }
    let mut lo = low;
    let mut hi = match high {
        Some(h) => h,
        None => {
            if n == 0 {
                return low;
            }
            n - 1
        },
    };
    while lo <= hi
        invariant
            s == list_input.items(),
            n == s.len(),
            top == upper_end(s, high),
            goal == search(s, *value, low as int, top),
            search(s, *value, lo as int, hi as int) == goal,
            low <= n ==> goal <= n,
            non_decreasing(s) && low <= top + 1 ==> is_lower_bound_in(
                s,
                *value,
                low as int,
                top,
                goal,
            ),
        decreases hi - lo + 1,
    {
        let mid = lo + (hi - lo) / 2;
        assert(mid == (lo + hi) / 2);
        let at_or_below = if mid < n {
            value.le(&list_input.get(mid))
        } else {
            true
        };
        assert(at_or_below == probe(s, *value, mid as int));
        if at_or_below {
            if mid == 0 {
                return 0;
            }
            hi = mid - 1;
        } else {
            lo = mid + 1;
        }
    }
    lo
}

/// Finds where `value` would be inserted into `list_input` to keep it in
/// order, before any elements equal to it.
pub fn bisect_rust(list_input: Vec<Double>, value: Double) -> (r: usize)
    ensures
        r == bisect(list_input@, value),
        r <= list_input@.len(),
        non_decreasing(list_input@) ==> is_leftmost(list_input@, value, r as int),
{
    proof {
        if non_decreasing(list_input@) {
            lemma_bisect_leftmost(list_input@, value);
        }
    }
    bisect_rust_imp(&list_input, &value, 0, None)
}

/// On a non-decreasing sequence the insertion point is the leftmost one.
pub proof fn lemma_bisect_leftmost<T: Key>(s: Seq<T>, v: T)
    requires
        non_decreasing(s),
    ensures
        is_leftmost(s, v, bisect(s, v)),
{
    lemma_search_lower_bound(s, v, 0, s.len() - 1);
    let r = bisect(s, v);
    assert forall|j: int| 0 <= j < r implies !#[trigger] v.le_spec(&s[j]) by {
        assert(!probe(s, v, j));
    }
}

/// The insertion point is an index of the sequence or its length, whatever
/// the sequence holds.
pub proof fn lemma_bisect_within<T: Key>(s: Seq<T>, v: T)
    ensures
        0 <= bisect(s, v) <= s.len(),
{
    lemma_search_within(s, v, 0, s.len() - 1);
}

/// A value strictly below the first element of a non-decreasing sequence, or
/// any value when the sequence is empty, is inserted at the front.
pub proof fn lemma_bisect_below_first<T: Key>(s: Seq<T>, v: T)
    requires
        non_decreasing(s),
        s.len() == 0 || lt_spec(v, s[0]),
    ensures
        bisect(s, v) == 0,
{
    lemma_bisect_leftmost(s, v);
}

/// A value strictly above the last element of a non-decreasing sequence is
/// inserted at the end.
pub proof fn lemma_bisect_above_last<T: Key>(s: Seq<T>, v: T)
    requires
        non_decreasing(s),
        s.len() > 0,
        lt_spec(s[s.len() - 1], v),
    ensures
        bisect(s, v) == s.len(),
{
    lemma_bisect_leftmost(s, v);
    let r = bisect(s, v);
    let last = s.len() - 1;
    if r < last {
        assert(s[r].le_spec(&s[last]));
        T::le_transitive(&v, &s[r], &s[last]);
    }
}

/// Searching a non-decreasing sequence for one of its own elements finds the
/// first element equal to it, provided the element is at or below itself.
pub proof fn lemma_bisect_first_equal<T: Key>(s: Seq<T>, i: int)
    requires
        non_decreasing(s),
        0 <= i < s.len(),
        s[i].le_spec(&s[i]),
    ensures
        0 <= bisect(s, s[i]) <= i,
        eq_spec(s[bisect(s, s[i])], s[i]),
        forall|j: int| 0 <= j < bisect(s, s[i]) ==> !eq_spec(#[trigger] s[j], s[i]),
{
    lemma_bisect_leftmost(s, s[i]);
    let r = bisect(s, s[i]);
    if r > i {
        assert(!s[i].le_spec(&s[i]));
    }
    if r < i {
        assert(s[r].le_spec(&s[i]));
    }
    assert forall|j: int| 0 <= j < r implies !eq_spec(#[trigger] s[j], s[i]) by {
        assert(!s[i].le_spec(&s[j]));
    }
}

} // verus!
