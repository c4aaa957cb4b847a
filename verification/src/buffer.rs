//! A reusable token buffer for incremental processing: an append-only vector
//! of tokens plus a consumption cursor, with compaction.

use vstd::prelude::*;

verus! {

/// Relies on `Vec::capacity`: the capacity is at least the length.
#[verifier::external_body]
pub(crate) fn vec_capacity<T>(v: &Vec<T>) -> (n: usize)
    ensures
        n >= v@.len(),
{
    v.capacity()
}

/// Relies on `Vec::shrink_to_fit`: the contents are unchanged.
#[verifier::external_body]
pub(crate) fn vec_shrink_to_fit<T>(v: &mut Vec<T>)
    ensures
        final(v)@ == old(v)@,
{
    v.shrink_to_fit();
}

/// An append-only sequence of tokens paired with a cursor counting how many
/// of them have been consumed from the front.
///
/// Consumed tokens stay in memory until [`IncrementalBuffer::compact`] drops
/// them, so memory stays bounded when the caller compacts periodically.
#[derive(Debug, Clone)]
pub struct IncrementalBuffer<T> {
    tokens: Vec<T>,
    cursor: usize,
}

impl<T> IncrementalBuffer<T> {
    /// All tokens currently held, consumed ones included.
    pub closed spec fn spec_tokens(&self) -> Seq<T> {
        self.tokens@
    }

    /// How many tokens at the front count as consumed.
    pub closed spec fn spec_cursor(&self) -> int {
        self.cursor as int
    }

    /// The buffer invariant: the cursor never passes the end.
    pub open spec fn wf(&self) -> bool {
        0 <= self.spec_cursor() <= self.spec_tokens().len()
    }

    /// The unconsumed suffix.
    pub open spec fn spec_remaining(&self) -> Seq<T> {
        self.spec_tokens().subrange(self.spec_cursor(), self.spec_tokens().len() as int)
    }

    /// An empty buffer.
    pub fn new() -> (r: IncrementalBuffer<T>)
        ensures
            r.wf(),
            r.spec_tokens() == Seq::<T>::empty(),
            r.spec_cursor() == 0,
    {
        IncrementalBuffer { tokens: Vec::new(), cursor: 0 }
    }

    /// An empty buffer with pre-allocated capacity.
    pub fn with_capacity(capacity: usize) -> (r: IncrementalBuffer<T>)
        ensures
            r.wf(),
            r.spec_tokens() == Seq::<T>::empty(),
            r.spec_cursor() == 0,
    {
        IncrementalBuffer { tokens: Vec::with_capacity(capacity), cursor: 0 }
    }

    /// The number of unconsumed tokens.
    pub fn len(&self) -> (n: usize)
        requires
            self.wf(),
        ensures
            n == self.spec_tokens().len() - self.spec_cursor(),
    {
        self.tokens.len() - self.cursor
    }

    /// Whether no unconsumed tokens remain.
    pub fn is_empty(&self) -> (b: bool)
        ensures
            b == (self.spec_cursor() >= self.spec_tokens().len()),
    {
        self.cursor >= self.tokens.len()
    }

    /// The allocated capacity; always at least the stored token count.
    pub fn capacity(&self) -> (n: usize)
        ensures
            n >= self.spec_tokens().len(),
    {
        vec_capacity(&self.tokens)
    }

    /// The unconsumed tokens, in order.
    pub fn remaining(&self) -> (r: &[T])
        requires
            self.wf(),
        ensures
            r@ == self.spec_remaining(),
    {
        &self.tokens[self.cursor..self.tokens.len()]
    }

    /// The token at offset `i` among the unconsumed tokens.
    pub fn remaining_at(&self, i: usize) -> (r: &T)
        requires
            self.wf(),
            i < self.spec_remaining().len(),
        ensures
            *r == self.spec_remaining()[i as int],
    {
        let n = self.tokens.len();
        assert(self.spec_cursor() + i < n);
        &self.tokens[self.cursor + i]
    }

    /// The unconsumed tokens, in order, writable in place; the consumed
    /// prefix and the cursor are untouched.
    pub fn remaining_mut(&mut self) -> (r: &mut [T])
        requires
            old(self).wf(),
        ensures
            (*r)@ == old(self).spec_remaining(),
            final(self).wf(),
            final(self).spec_cursor() == old(self).spec_cursor(),
            final(self).spec_tokens() == old(self).spec_tokens().subrange(
                0,
                old(self).spec_cursor(),
            ) + final(r)@,
    {
        let cursor = self.cursor;
        let pair = self.tokens.as_mut_slice().split_at_mut(cursor);
        pair.1
    }

    /// Appends every token of `tokens` to the back of the buffer.
    pub fn extend(&mut self, tokens: Vec<T>)
        ensures
            final(self).spec_tokens() == old(self).spec_tokens() + tokens@,
            final(self).spec_cursor() == old(self).spec_cursor(),
    {
        let mut incoming = tokens;
        self.tokens.append(&mut incoming);
    }

    /// Appends a single token.
    pub fn push(&mut self, token: T)
        ensures
            final(self).spec_tokens() == old(self).spec_tokens().push(token),
            final(self).spec_cursor() == old(self).spec_cursor(),
    {
        self.tokens.push(token);
    }

    /// Marks `n` more tokens as consumed, clamping at the end of the buffer:
    /// the cursor never passes the last token, so a sentinel such as
    /// `usize::MAX` consumes everything and nothing panics.
    pub fn consume(&mut self, n: usize)
        requires
            old(self).wf(),
        ensures
            final(self).wf(),
            final(self).spec_tokens() == old(self).spec_tokens(),
            final(self).spec_cursor() == if old(self).spec_cursor() + n
                <= old(self).spec_tokens().len() {
                old(self).spec_cursor() + n
            } else {
                old(self).spec_tokens().len() as int
            },
    {
        let advanced = self.cursor.saturating_add(n);
        self.cursor = if advanced <= self.tokens.len() {
            advanced
        } else {
            self.tokens.len()
        };
    }

    /// The current cursor position.
    pub fn cursor(&self) -> (n: usize)
        ensures
            n == self.spec_cursor(),
    {
        self.cursor
    }

    /// Physically drops the consumed prefix and resets the cursor to 0; the
    /// unconsumed tokens are unchanged.
    pub fn compact(&mut self)
        requires
            old(self).wf(),
        ensures
            final(self).wf(),
            final(self).spec_cursor() == 0,
            final(self).spec_tokens() == old(self).spec_remaining(),
    {
        if self.cursor > 0 {
            let rest = self.tokens.split_off(self.cursor);
            self.tokens = rest;
            self.cursor = 0;
        }
        proof {
            assert(self.tokens@ =~= old(self).spec_remaining());
        }
    }

    /// Drops every token and resets the cursor.
    pub fn clear(&mut self)
        ensures
            final(self).wf(),
            final(self).spec_tokens() == Seq::<T>::empty(),
            final(self).spec_cursor() == 0,
    {
        self.tokens.clear();
        self.cursor = 0;
    }

    /// Compacts, then releases unused capacity; the unconsumed tokens are
    /// unchanged.
    pub fn shrink_to_fit(&mut self)
        requires
            old(self).wf(),
        ensures
            final(self).wf(),
            final(self).spec_cursor() == 0,
            final(self).spec_tokens() == old(self).spec_remaining(),
    {
        self.compact();
        vec_shrink_to_fit(&mut self.tokens);
    }

    /// Reserves capacity for at least `additional` more tokens.
    pub fn reserve(&mut self, additional: usize)
        ensures
            final(self).spec_tokens() == old(self).spec_tokens(),
            final(self).spec_cursor() == old(self).spec_cursor(),
    {
        self.tokens.reserve(additional);
    }

    /// The total token count, consumed tokens included.
    pub fn total_tokens(&self) -> (n: usize)
        ensures
            n == self.spec_tokens().len(),
    {
        self.tokens.len()
    }

    /// The number of consumed tokens still waiting for compaction.
    pub fn consumed_pending(&self) -> (n: usize)
        ensures
            n == self.spec_cursor(),
    {
        self.cursor
    }

    /// Mutable access to the underlying storage, meant for appending tokens;
    /// removing or reordering tokens would bypass the cursor bookkeeping.
    pub fn tokens_mut(&mut self) -> (r: &mut Vec<T>)
        ensures
            (*r)@ == old(self).spec_tokens(),
            final(self).spec_tokens() == final(r)@,
            final(self).spec_cursor() == old(self).spec_cursor(),
    {
        &mut self.tokens
    }
}

impl<T> Default for IncrementalBuffer<T> {
    /// An empty buffer.
    fn default() -> (r: IncrementalBuffer<T>)
        ensures
            r.wf(),
            r.spec_tokens() == Seq::<T>::empty(),
            r.spec_cursor() == 0,
    {
        IncrementalBuffer::new()
    }
}

} // verus!
