//! The order that a search runs on.
//!
//! A search only ever asks one question of its elements: is this value at or
//! below that element? [`Key`] is that question, together with the one law the
//! search relies on. The relation need not be total or reflexive, so an order
//! with incomparable values (a floating-point order with its NaN) fits.

use vstd::prelude::*;

verus! {

/// A value that can be searched for in a sequence of its own kind.
pub trait Key: Copy {
    /// Whether `self` is at or below `other`.
    spec fn le_spec(&self, other: &Self) -> bool;

    /// Decides [`Key::le_spec`].
    fn le(&self, other: &Self) -> (r: bool)
        ensures
            r == self.le_spec(other),
    ;

    /// The relation is transitive.
    proof fn le_transitive(a: &Self, b: &Self, c: &Self)
        requires
            a.le_spec(b),
            b.le_spec(c),
        ensures
            a.le_spec(c),
    ;
}

/// `a` is strictly below `b`: at or below it, and not the other way round.
pub open spec fn lt_spec<T: Key>(a: T, b: T) -> bool {
    a.le_spec(&b) && !b.le_spec(&a)
}

/// `a` and `b` are equal in the order: each is at or below the other.
pub open spec fn eq_spec<T: Key>(a: T, b: T) -> bool {
    a.le_spec(&b) && b.le_spec(&a)
}

impl Key for i32 {
    open spec fn le_spec(&self, other: &Self) -> bool {
        *self <= *other
    }

    fn le(&self, other: &Self) -> (r: bool) {
        *self <= *other
    }

    proof fn le_transitive(a: &Self, b: &Self, c: &Self) {
    }
}

impl Key for i64 {
    open spec fn le_spec(&self, other: &Self) -> bool {
        *self <= *other
    }

    fn le(&self, other: &Self) -> (r: bool) {
        *self <= *other
    }

    proof fn le_transitive(a: &Self, b: &Self, c: &Self) {
    }
}

impl Key for u32 {
    open spec fn le_spec(&self, other: &Self) -> bool {
        *self <= *other
    }

    fn le(&self, other: &Self) -> (r: bool) {
        *self <= *other
    }

    proof fn le_transitive(a: &Self, b: &Self, c: &Self) {
    }
}

impl Key for u64 {
    open spec fn le_spec(&self, other: &Self) -> bool {
        *self <= *other
    }

    fn le(&self, other: &Self) -> (r: bool) {
        *self <= *other
    }

    proof fn le_transitive(a: &Self, b: &Self, c: &Self) {
    }
}

impl Key for usize {
    open spec fn le_spec(&self, other: &Self) -> bool {
        *self <= *other
    }

    fn le(&self, other: &Self) -> (r: bool) {
        *self <= *other
    }

    proof fn le_transitive(a: &Self, b: &Self, c: &Self) {
    }
}

} // verus!
