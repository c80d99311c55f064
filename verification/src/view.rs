//! What a search needs of the sequence it runs on.
//!
//! A [`SortedView`] is a read-only sequence of known length whose elements
//! can be fetched by index. Slices and vectors are views of their elements;
//! the buffer adapters of this crate provide the others.

use vstd::prelude::*;
use crate::key::Key;

verus! {

/// A read-only, randomly indexable sequence of keys.
pub trait SortedView {
    /// The kind of element the view holds.
    type Item: Key;

    /// The elements of the view, in order.
    spec fn items(&self) -> Seq<Self::Item>;

    /// The number of elements.
    fn len(&self) -> (n: usize)
        ensures
            n == self.items().len(),
    ;

    /// The element at index `i`.
    fn get(&self, i: usize) -> (x: Self::Item)
        requires
            i < self.items().len(),
        ensures
            x == self.items()[i as int],
    ;
}

impl<T: Key> SortedView for [T] {
    type Item = T;

    open spec fn items(&self) -> Seq<T> {
        self@
    }

    fn len(&self) -> (n: usize) {
        <[T]>::len(self)
    }

    fn get(&self, i: usize) -> (x: T) {
        self[i]
    }
}

impl<T: Key> SortedView for Vec<T> {
    type Item = T;

    open spec fn items(&self) -> Seq<T> {
        self@
    }

    fn len(&self) -> (n: usize) {
        Vec::len(self)
    }

    fn get(&self, i: usize) -> (x: T) {
        self[i]
    }
}

impl<T: Key, const N: usize> SortedView for [T; N] {
    type Item = T;

    open spec fn items(&self) -> Seq<T> {
        self@
    }

    fn len(&self) -> (n: usize) {
        N
    }

    fn get(&self, i: usize) -> (x: T) {
        self[i]
    }
}

} // verus!
