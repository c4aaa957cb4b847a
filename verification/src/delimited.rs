//! A value enclosed by delimiters, keeping the span that covers the whole
//! delimited region.

use vstd::prelude::*;
use crate::span::Span;

verus! {

/// A value together with the span of the delimiters around it, such as a
/// bracketed list or a braced block.
#[derive(Debug, Clone, PartialEq)]
pub struct Delimited<T> {
    /// The span covering the whole delimited region, delimiters included.
    pub span: Span,
    /// The content between the delimiters.
    pub inner: T,
}

impl<T> Delimited<T> {
    /// Pairs the inner content with the covering span.
    pub fn new(span: Span, inner: T) -> (r: Delimited<T>)
        ensures
            r.span == span,
            r.inner == inner,
    {
        Delimited { span, inner }
    }

    /// Wraps generated content with the synthetic span.
    pub fn call_site(inner: T) -> (r: Delimited<T>)
        ensures
            r.span == Span::CallSite,
            r.inner == inner,
    {
        Delimited { span: Span::call_site(), inner }
    }

    /// Applies `f` to the inner content while keeping the span exactly.
    pub fn map<U, F: FnOnce(T) -> U>(self, f: F) -> (r: Delimited<U>)
        requires
            call_requires(f, (self.inner,)),
        ensures
            r.span == self.span,
            call_ensures(f, (self.inner,), r.inner),
    {
        Delimited { span: self.span, inner: f(self.inner) }
    }

    /// The inner content, by reference.
    pub fn inner_ref(&self) -> (r: &T)
        ensures
            *r == self.inner,
    {
        &self.inner
    }
}

} // verus!
