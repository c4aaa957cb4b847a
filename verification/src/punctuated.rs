//! Punctuated sequences: pair-vectors of values and optional separators,
//! with one wrapper per trailing-punctuation policy.

use vstd::prelude::*;
use crate::buffer::{vec_capacity, vec_shrink_to_fit};

verus! {

/// Policy for trailing punctuation in a punctuated sequence.
#[derive(Debug, Clone, Copy, PartialEq, Eq, Hash, Structural)]
pub enum TrailingPolicy {
    /// A trailing separator is allowed but not required.
    Optional,
    /// Every value must be followed by its separator.
    Required,
    /// No separator may follow the last value.
    Forbidden,
}

/// Shared storage for punctuated sequences: values paired with their
/// optional trailing separator.
#[derive(Debug, Clone)]
pub struct PunctuatedInner<T, P> {
    inner: Vec<(T, Option<P>)>,
}

impl<T, P> PunctuatedInner<T, P> {
    /// The stored pairs.
    pub closed spec fn spec_pairs(&self) -> Seq<(T, Option<P>)> {
        self.inner@
    }

    /// An empty sequence.
    pub fn new() -> (r: PunctuatedInner<T, P>)
        ensures
            r.spec_pairs() == Seq::<(T, Option<P>)>::empty(),
    {
        PunctuatedInner { inner: Vec::new() }
    }

    /// An empty sequence with pre-allocated capacity.
    pub fn with_capacity(capacity: usize) -> (r: PunctuatedInner<T, P>)
        ensures
            r.spec_pairs() == Seq::<(T, Option<P>)>::empty(),
    {
        PunctuatedInner { inner: Vec::with_capacity(capacity) }
    }

    /// Appends a value with no separator yet.
    pub fn push_value(&mut self, value: T)
        ensures
            final(self).spec_pairs() == old(self).spec_pairs().push((value, None::<P>)),
    {
        self.inner.push((value, None));
    }

    /// Attaches a separator to the last value; with no value yet, the
    /// separator is dropped.
    pub fn push_punct(&mut self, punct: P)
        ensures
            old(self).spec_pairs().len() == 0 ==> final(self).spec_pairs() == old(
                self,
            ).spec_pairs(),
            old(self).spec_pairs().len() > 0 ==> final(self).spec_pairs() == old(
                self,
            ).spec_pairs().update(
                old(self).spec_pairs().len() - 1,
                (old(self).spec_pairs().last().0, Some(punct)),
            ),
    {
        match self.inner.pop() {
            Some(last) => {
                self.inner.push((last.0, Some(punct)));
                proof {
                    assert(self.inner@ =~= old(self).spec_pairs().update(
                        old(self).spec_pairs().len() - 1,
                        (old(self).spec_pairs().last().0, Some(punct)),
                    ));
                }
            },
            None => {},
        }
    }

    /// Whether the last value carries a separator.
    pub fn trailing_punct(&self) -> (b: bool)
        ensures
            b == (self.spec_pairs().len() > 0 && self.spec_pairs().last().1 is Some),
    {
        let n = self.inner.len();
        if n == 0 {
            false
        } else {
            match &self.inner[n - 1].1 {
                Some(_) => true,
                None => false,
            }
        }
    }

    /// The number of values.
    pub fn len(&self) -> (n: usize)
        ensures
            n == self.spec_pairs().len(),
    {
        self.inner.len()
    }

    /// Whether the sequence is empty.
    pub fn is_empty(&self) -> (b: bool)
        ensures
            b == (self.spec_pairs().len() == 0),
    {
        self.inner.is_empty()
    }

    /// The allocated capacity; always at least the stored pair count.
    pub fn capacity(&self) -> (n: usize)
        ensures
            n >= self.spec_pairs().len(),
    {
        vec_capacity(&self.inner)
    }

    /// Reserves capacity for at least `additional` more values.
    pub fn reserve(&mut self, additional: usize)
        ensures
            final(self).spec_pairs() == old(self).spec_pairs(),
    {
        self.inner.reserve(additional);
    }

    /// Releases unused capacity; the contents are unchanged.
    pub fn shrink_to_fit(&mut self)
        ensures
            final(self).spec_pairs() == old(self).spec_pairs(),
    {
        vec_shrink_to_fit(&mut self.inner);
    }

    /// Drops every pair.
    pub fn clear(&mut self)
        ensures
            final(self).spec_pairs() == Seq::<(T, Option<P>)>::empty(),
    {
        self.inner.clear();
    }

    /// The values, in order, by reference.
    pub fn iter(&self) -> (r: Vec<&T>)
        ensures
            r@.len() == self.spec_pairs().len(),
            forall|k: int| 0 <= k < r@.len() ==> *(#[trigger] r@[k]) == self.spec_pairs()[k].0,
    {
        let n = self.inner.len();
        let mut out: Vec<&T> = Vec::new();
        let mut i: usize = 0;
        while i < n
            invariant
                i <= n,
                n == self.spec_pairs().len(),
                out@.len() == i,
                forall|k: int| 0 <= k < i ==> *(#[trigger] out@[k]) == self.spec_pairs()[k].0,
            decreases n - i,
        {
            out.push(&self.inner[i].0);
            i = i + 1;
        }
        out
    }

    /// The pairs, in order, by reference.
    pub fn pairs(&self) -> (r: Vec<&(T, Option<P>)>)
        ensures
            r@.len() == self.spec_pairs().len(),
            forall|k: int| 0 <= k < r@.len() ==> *(#[trigger] r@[k]) == self.spec_pairs()[k],
    {
        let n = self.inner.len();
        let mut out: Vec<&(T, Option<P>)> = Vec::new();
        let mut i: usize = 0;
        while i < n
            invariant
                i <= n,
                n == self.spec_pairs().len(),
                out@.len() == i,
                forall|k: int| 0 <= k < i ==> *(#[trigger] out@[k]) == self.spec_pairs()[k],
            decreases n - i,
        {
            out.push(&self.inner[i]);
            i = i + 1;
        }
        out
    }

    /// Consumes the sequence and hands out the owned pairs, in order.
    pub fn into_pairs(self) -> (r: Vec<(T, Option<P>)>)
        ensures
            r@ == self.spec_pairs(),
    {
        self.inner
    }

    /// The value at index `i`, writable in place; the separator and every
    /// other pair are untouched.
    pub fn value_at_mut(&mut self, i: usize) -> (r: &mut T)
        requires
            i < old(self).spec_pairs().len(),
        ensures
            *r == old(self).spec_pairs()[i as int].0,
            final(self).spec_pairs() == old(self).spec_pairs().update(
                i as int,
                (*final(r), old(self).spec_pairs()[i as int].1),
            ),
    {
        &mut self.inner[i].0
    }

    /// The first value, if any.
    pub fn first(&self) -> (r: Option<&T>)
        ensures
            self.spec_pairs().len() == 0 ==> r is None,
            self.spec_pairs().len() > 0 ==> (r matches Some(v) && *v == self.spec_pairs()[0].0),
    {
        if self.inner.len() == 0 {
            None
        } else {
            Some(&self.inner[0].0)
        }
    }

    /// The last value, if any.
    pub fn last(&self) -> (r: Option<&T>)
        ensures
            self.spec_pairs().len() == 0 ==> r is None,
            self.spec_pairs().len() > 0 ==> (r matches Some(v) && *v == self.spec_pairs().last().0),
    {
        let n = self.inner.len();
        if n == 0 {
            None
        } else {
            Some(&self.inner[n - 1].0)
        }
    }
}

impl<T, P> Default for PunctuatedInner<T, P> {
    /// An empty sequence.
    fn default() -> (r: PunctuatedInner<T, P>)
        ensures
            r.spec_pairs() == Seq::<(T, Option<P>)>::empty(),
    {
        PunctuatedInner::new()
    }
}

/// A punctuated sequence where a trailing separator is allowed but not
/// required, as in a bracketed list.
#[derive(Debug, Clone)]
pub struct Punctuated<T, P> {
    inner: PunctuatedInner<T, P>,
}

impl<T, P> Punctuated<T, P> {
    /// The stored pairs.
    pub closed spec fn spec_pairs(&self) -> Seq<(T, Option<P>)> {
        self.inner.spec_pairs()
    }

    /// The policy of this wrapper.
    pub fn policy() -> (p: TrailingPolicy)
        ensures
            p == TrailingPolicy::Optional,
    {
        TrailingPolicy::Optional
    }

    /// An empty sequence.
    pub fn new() -> (r: Punctuated<T, P>)
        ensures
            r.spec_pairs() == Seq::<(T, Option<P>)>::empty(),
    {
        Punctuated { inner: PunctuatedInner::new() }
    }

    /// An empty sequence with pre-allocated capacity.
    pub fn with_capacity(capacity: usize) -> (r: Punctuated<T, P>)
        ensures
            r.spec_pairs() == Seq::<(T, Option<P>)>::empty(),
    {
        Punctuated { inner: PunctuatedInner::with_capacity(capacity) }
    }

    /// Appends a value with no separator yet.
    pub fn push_value(&mut self, value: T)
        ensures
            final(self).spec_pairs() == old(self).spec_pairs().push((value, None::<P>)),
    {
        self.inner.push_value(value);
    }

    /// Attaches a separator to the last value.
    pub fn push_punct(&mut self, punct: P)
        ensures
            old(self).spec_pairs().len() == 0 ==> final(self).spec_pairs() == old(
                self,
            ).spec_pairs(),
            old(self).spec_pairs().len() > 0 ==> final(self).spec_pairs() == old(
                self,
            ).spec_pairs().update(
                old(self).spec_pairs().len() - 1,
                (old(self).spec_pairs().last().0, Some(punct)),
            ),
    {
        self.inner.push_punct(punct);
    }

    /// Whether the stored last value carries a separator.
    pub fn trailing_punct(&self) -> (b: bool)
        ensures
            b == (self.spec_pairs().len() > 0 && self.spec_pairs().last().1 is Some),
    {
        self.inner.trailing_punct()
    }

    /// The shared storage, by reference.
    pub fn as_inner(&self) -> (r: &PunctuatedInner<T, P>)
        ensures
            r.spec_pairs() == self.spec_pairs(),
    {
        &self.inner
    }

    /// Consumes the wrapper and returns the shared storage.
    pub fn into_inner(self) -> (r: PunctuatedInner<T, P>)
        ensures
            r.spec_pairs() == self.spec_pairs(),
    {
        self.inner
    }
}

impl<T, P> Default for Punctuated<T, P> {
    /// An empty sequence.
    fn default() -> (r: Punctuated<T, P>)
        ensures
            r.spec_pairs() == Seq::<(T, Option<P>)>::empty(),
    {
        Punctuated::new()
    }
}

/// A punctuated sequence where every value is followed by its separator, as
/// in semicolon-terminated statements.
#[derive(Debug, Clone)]
pub struct Terminated<T, P> {
    inner: PunctuatedInner<T, P>,
}

impl<T, P> Terminated<T, P> {
    /// The stored pairs.
    pub closed spec fn spec_pairs(&self) -> Seq<(T, Option<P>)> {
        self.inner.spec_pairs()
    }

    /// The policy of this wrapper.
    pub fn policy() -> (p: TrailingPolicy)
        ensures
            p == TrailingPolicy::Required,
    {
        TrailingPolicy::Required
    }

    /// An empty sequence.
    pub fn new() -> (r: Terminated<T, P>)
        ensures
            r.spec_pairs() == Seq::<(T, Option<P>)>::empty(),
    {
        Terminated { inner: PunctuatedInner::new() }
    }

    /// An empty sequence with pre-allocated capacity.
    pub fn with_capacity(capacity: usize) -> (r: Terminated<T, P>)
        ensures
            r.spec_pairs() == Seq::<(T, Option<P>)>::empty(),
    {
        Terminated { inner: PunctuatedInner::with_capacity(capacity) }
    }

    /// Appends a value with no separator yet.
    pub fn push_value(&mut self, value: T)
        ensures
            final(self).spec_pairs() == old(self).spec_pairs().push((value, None::<P>)),
    {
        self.inner.push_value(value);
    }

    /// Attaches a separator to the last value.
    pub fn push_punct(&mut self, punct: P)
        ensures
            old(self).spec_pairs().len() == 0 ==> final(self).spec_pairs() == old(
                self,
            ).spec_pairs(),
            old(self).spec_pairs().len() > 0 ==> final(self).spec_pairs() == old(
                self,
            ).spec_pairs().update(
                old(self).spec_pairs().len() - 1,
                (old(self).spec_pairs().last().0, Some(punct)),
            ),
    {
        self.inner.push_punct(punct);
    }

    /// Whether the stored last value carries a separator; under the
    /// required-trailing policy a well-formed sequence always does, once
    /// its final separator has been pushed.
    pub fn trailing_punct(&self) -> (b: bool)
        ensures
            b == (self.spec_pairs().len() > 0 && self.spec_pairs().last().1 is Some),
    {
        self.inner.trailing_punct()
    }

    /// The shared storage, by reference.
    pub fn as_inner(&self) -> (r: &PunctuatedInner<T, P>)
        ensures
            r.spec_pairs() == self.spec_pairs(),
    {
        &self.inner
    }

    /// Consumes the wrapper and returns the shared storage.
    pub fn into_inner(self) -> (r: PunctuatedInner<T, P>)
        ensures
            r.spec_pairs() == self.spec_pairs(),
    {
        self.inner
    }
}

impl<T, P> Default for Terminated<T, P> {
    /// An empty sequence.
    fn default() -> (r: Terminated<T, P>)
        ensures
            r.spec_pairs() == Seq::<(T, Option<P>)>::empty(),
    {
        Terminated::new()
    }
}

/// A punctuated sequence where a separator after the last value is
/// forbidden, as in argument lists.
#[derive(Debug, Clone)]
pub struct Separated<T, P> {
    inner: PunctuatedInner<T, P>,
}

impl<T, P> Separated<T, P> {
    /// The stored pairs.
    pub closed spec fn spec_pairs(&self) -> Seq<(T, Option<P>)> {
        self.inner.spec_pairs()
    }

    /// The policy of this wrapper.
    pub fn policy() -> (p: TrailingPolicy)
        ensures
            p == TrailingPolicy::Forbidden,
    {
        TrailingPolicy::Forbidden
    }

    /// An empty sequence.
    pub fn new() -> (r: Separated<T, P>)
        ensures
            r.spec_pairs() == Seq::<(T, Option<P>)>::empty(),
    {
        Separated { inner: PunctuatedInner::new() }
    }

    /// An empty sequence with pre-allocated capacity.
    pub fn with_capacity(capacity: usize) -> (r: Separated<T, P>)
        ensures
            r.spec_pairs() == Seq::<(T, Option<P>)>::empty(),
    {
        Separated { inner: PunctuatedInner::with_capacity(capacity) }
    }

    /// Appends a value with no separator yet.
    pub fn push_value(&mut self, value: T)
        ensures
            final(self).spec_pairs() == old(self).spec_pairs().push((value, None::<P>)),
    {
        self.inner.push_value(value);
    }

    /// Attaches a separator to the last value.
    pub fn push_punct(&mut self, punct: P)
        ensures
            old(self).spec_pairs().len() == 0 ==> final(self).spec_pairs() == old(
                self,
            ).spec_pairs(),
            old(self).spec_pairs().len() > 0 ==> final(self).spec_pairs() == old(
                self,
            ).spec_pairs().update(
                old(self).spec_pairs().len() - 1,
                (old(self).spec_pairs().last().0, Some(punct)),
            ),
    {
        self.inner.push_punct(punct);
    }

    /// Whether the stored last value carries a separator; under the
    /// forbidden-trailing policy a well-formed sequence never does.
    pub fn trailing_punct(&self) -> (b: bool)
        ensures
            b == (self.spec_pairs().len() > 0 && self.spec_pairs().last().1 is Some),
    {
        self.inner.trailing_punct()
    }

    /// The shared storage, by reference.
    pub fn as_inner(&self) -> (r: &PunctuatedInner<T, P>)
        ensures
            r.spec_pairs() == self.spec_pairs(),
    {
        &self.inner
    }

    /// Consumes the wrapper and returns the shared storage.
    pub fn into_inner(self) -> (r: PunctuatedInner<T, P>)
        ensures
            r.spec_pairs() == self.spec_pairs(),
    {
        self.inner
    }
}

impl<T, P> Default for Separated<T, P> {
    /// An empty sequence.
    fn default() -> (r: Separated<T, P>)
        ensures
            r.spec_pairs() == Seq::<(T, Option<P>)>::empty(),
    {
        Separated::new()
    }
}

} // verus!
