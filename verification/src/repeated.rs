//! Repeated sequences that keep their exact separator tokens: each item is
//! a spanned value paired with its optional trailing separator.

use core::marker::PhantomData;
use vstd::prelude::*;
use crate::buffer::{vec_capacity, vec_shrink_to_fit};

verus! {

/// One item of a [`Repeated`] sequence: a spanned value and its optional
/// trailing separator. The first two type parameters are phantom markers
/// tying the sequence to its value and separator constructs.
#[derive(Debug, PartialEq)]
pub struct RepeatedItem<T, Sep, S> {
    /// The spanned value.
    pub value: S,
    /// The optional trailing separator token.
    pub sep: Option<S>,
    /// Marker tying the item to its value and separator constructs.
    pub marker: PhantomData<(T, Sep)>,
}

impl<T, Sep, S> RepeatedItem<T, Sep, S> {
    /// Pairs a spanned value with its optional separator.
    pub fn new(value: S, sep: Option<S>) -> (r: RepeatedItem<T, Sep, S>)
        ensures
            r.value == value,
            r.sep == sep,
    {
        RepeatedItem { value, sep, marker: PhantomData }
    }
}

/// A sequence of repeated items whose separator tokens are preserved, for
/// source-faithful reprinting.
#[derive(Debug, PartialEq)]
pub struct Repeated<T, Sep, S> {
    /// The items, in source order.
    pub values: Vec<RepeatedItem<T, Sep, S>>,
    /// Marker tying the sequence to its value and separator constructs.
    pub marker: PhantomData<(T, Sep)>,
}

impl<T, Sep, S> Repeated<T, Sep, S> {
    /// An empty sequence.
    pub fn empty() -> (r: Repeated<T, Sep, S>)
        ensures
            r.values@ == Seq::<RepeatedItem<T, Sep, S>>::empty(),
    {
        Repeated { values: Vec::new(), marker: PhantomData }
    }

    /// An empty sequence with pre-allocated capacity.
    pub fn with_capacity(capacity: usize) -> (r: Repeated<T, Sep, S>)
        ensures
            r.values@ == Seq::<RepeatedItem<T, Sep, S>>::empty(),
    {
        Repeated { values: Vec::with_capacity(capacity), marker: PhantomData }
    }

    /// A sequence over an existing vector of items.
    pub fn from_values(values: Vec<RepeatedItem<T, Sep, S>>) -> (r: Repeated<T, Sep, S>)
        ensures
            r.values@ == values@,
    {
        Repeated { values, marker: PhantomData }
    }

    /// The number of items.
    pub fn len(&self) -> (n: usize)
        ensures
            n == self.values@.len(),
    {
        self.values.len()
    }

    /// Whether the sequence is empty.
    pub fn is_empty(&self) -> (b: bool)
        ensures
            b == (self.values@.len() == 0),
    {
        self.values.is_empty()
    }

    /// The allocated capacity; always at least the item count.
    pub fn capacity(&self) -> (n: usize)
        ensures
            n >= self.values@.len(),
    {
        vec_capacity(&self.values)
    }

    /// Reserves capacity for at least `additional` more items.
    pub fn reserve(&mut self, additional: usize)
        ensures
            final(self).values@ == old(self).values@,
    {
        self.values.reserve(additional);
    }

    /// Releases unused capacity; the items are unchanged.
    pub fn shrink_to_fit(&mut self)
        ensures
            final(self).values@ == old(self).values@,
    {
        vec_shrink_to_fit(&mut self.values);
    }

    /// The items, in order, by reference.
    pub fn iter(&self) -> (r: Vec<&RepeatedItem<T, Sep, S>>)
        ensures
            r@.len() == self.values@.len(),
            forall|k: int| 0 <= k < r@.len() ==> *(#[trigger] r@[k]) == self.values@[k],
    {
        let n = self.values.len();
        let mut out: Vec<&RepeatedItem<T, Sep, S>> = Vec::new();
        let mut i: usize = 0;
        while i < n
            invariant
                i <= n,
                n == self.values@.len(),
                out@.len() == i,
                forall|k: int| 0 <= k < i ==> *(#[trigger] out@[k]) == self.values@[k],
            decreases n - i,
        {
            out.push(&self.values[i]);
            i = i + 1;
        }
        out
    }

    /// Appends an item.
    pub fn push(&mut self, item: RepeatedItem<T, Sep, S>)
        ensures
            final(self).values@ == old(self).values@.push(item),
    {
        self.values.push(item);
    }

    /// Drops every item, keeping the allocated capacity.
    pub fn clear(&mut self)
        ensures
            final(self).values@ == Seq::<RepeatedItem<T, Sep, S>>::empty(),
    {
        self.values.clear();
    }
}

impl<T, Sep, S> Default for Repeated<T, Sep, S> {
    /// An empty sequence.
    fn default() -> (r: Repeated<T, Sep, S>)
        ensures
            r.values@ == Seq::<RepeatedItem<T, Sep, S>>::empty(),
    {
        Repeated::empty()
    }
}

} // verus!
