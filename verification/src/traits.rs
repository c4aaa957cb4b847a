//! Generic span abstractions for user-defined span and spanned types, and
//! the contract for errors that can carry a span.

use vstd::prelude::*;
use crate::span::{RawSpan, Span, Spanned};

verus! {

/// A byte-offset source range. Implementations supply the offsets; the
/// arithmetic — saturating length, join by union — is provided.
pub trait SpanLike: Sized {
    /// The start byte offset.
    fn start(&self) -> usize;

    /// The end byte offset (exclusive).
    fn end(&self) -> usize;

    /// A span from explicit offsets.
    fn new(start: usize, end: usize) -> Self;

    /// The synthetic span for generated values.
    fn call_site() -> Self;

    /// The length, `max(0, end - start)`: saturating, so an inverted span
    /// yields 0 and nothing underflows.
    fn len(&self) -> usize {
        self.end().saturating_sub(self.start())
    }

    /// Whether the span covers no bytes.
    fn is_empty(&self) -> bool {
        self.len() == 0
    }

    /// A span covering both inputs: the minimum start with the maximum end.
    fn join(&self, other: &Self) -> Self {
        let start = if self.start() <= other.start() {
            self.start()
        } else {
            other.start()
        };
        let end = if self.end() >= other.end() {
            self.end()
        } else {
            other.end()
        };
        Self::new(start, end)
    }
}

impl SpanLike for Span {
    /// The start offset; 0 for the synthetic span.
    fn start(&self) -> usize {
        match self {
            Span::Known(s) => s.start,
            Span::CallSite => 0,
        }
    }

    /// The end offset; 0 for the synthetic span.
    fn end(&self) -> usize {
        match self {
            Span::Known(s) => s.end,
            Span::CallSite => 0,
        }
    }

    /// A known span from explicit offsets.
    fn new(start: usize, end: usize) -> Self {
        Span::Known(RawSpan { start, end })
    }

    /// The synthetic span.
    fn call_site() -> Self {
        Span::CallSite
    }
}

/// A value paired with a source span.
pub trait SpannedLike<T>: Sized {
    /// The span type used to track locations.
    type Span: SpanLike + Copy;

    /// The span of the value.
    fn span(&self) -> &Self::Span;

    /// The wrapped value, by reference.
    fn value_ref(&self) -> &T;

    /// Consumes the pair and returns the wrapped value.
    fn value(self) -> T;

    /// Pairs a value with the span `[start, end)`.
    fn new(start: usize, end: usize, value: T) -> Self;

    /// Applies `f` to the value while keeping the span.
    fn map<U, F: FnOnce(T) -> U>(self, f: F) -> MappedSpanned<U, Self::Span>
        requires
            forall|t: T| call_requires(f, (t,)),
    {
        let span = *self.span();
        MappedSpanned { span, value: f(self.value()) }
    }
}

/// The result of [`SpannedLike::map`]: the original span with the mapped
/// value.
pub struct MappedSpanned<T, S> {
    /// The preserved span.
    pub span: S,
    /// The mapped value.
    pub value: T,
}

impl<T, S: SpanLike + Copy> SpannedLike<T> for MappedSpanned<T, S> {
    type Span = S;

    fn span(&self) -> &S {
        &self.span
    }

    fn value_ref(&self) -> &T {
        &self.value
    }

    fn value(self) -> T {
        self.value
    }

    fn new(start: usize, end: usize, value: T) -> Self {
        MappedSpanned { span: S::new(start, end), value }
    }
}

impl<T: Clone> SpannedLike<T> for Spanned<T> {
    type Span = Span;

    fn span(&self) -> &Span {
        &self.span
    }

    fn value_ref(&self) -> &T {
        &self.value
    }

    fn value(self) -> T {
        self.value
    }

    fn new(start: usize, end: usize, value: T) -> Self {
        Spanned::new(start, end, value)
    }
}

/// An error that can carry the span it refers to.
pub trait SpannedError: Sized {
    /// The span type attached to the error.
    type Span: SpanLike;

    /// Attaches a span to the error.
    fn with_span(self, span: Self::Span) -> Self;

    /// The attached span, if any.
    fn span(&self) -> Option<&Self::Span>;
}

} // verus!
