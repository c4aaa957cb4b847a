//! Byte-offset source spans and values paired with a span.

use vstd::prelude::*;

verus! {

/// A raw half-open byte range `[start, end)` into the logical source.
#[derive(Debug, Clone, Copy, PartialEq, Eq, Hash, Structural)]
pub struct RawSpan {
    pub start: usize,
    pub end: usize,
}

/// A source location: either a known byte range or the synthetic
/// "call site" location used for generated values.
#[derive(Debug, Clone, Copy, PartialEq, Eq, Hash, Structural)]
pub enum Span {
    CallSite,
    Known(RawSpan),
}

impl Span {
    /// The start offset: 0 for the synthetic span.
    pub open spec fn spec_start(self) -> int {
        match self {
            Span::CallSite => 0,
            Span::Known(s) => s.start as int,
        }
    }

    /// The end offset: 0 for the synthetic span.
    pub open spec fn spec_end(self) -> int {
        match self {
            Span::CallSite => 0,
            Span::Known(s) => s.end as int,
        }
    }

    /// Length of a span: `max(0, end - start)`; an inverted span has length 0.
    pub open spec fn spec_len(self) -> int {
        if self.spec_end() >= self.spec_start() {
            self.spec_end() - self.spec_start()
        } else {
            0
        }
    }

    /// What `join` returns: the union range of two known spans; a known span
    /// absorbs the synthetic one.
    pub open spec fn spec_join(self, other: Span) -> Span {
        match (self, other) {
            (Span::Known(a), Span::Known(b)) => Span::Known(
                RawSpan {
                    start: if a.start <= b.start { a.start } else { b.start },
                    end: if a.end >= b.end { a.end } else { b.end },
                },
            ),
            (Span::Known(_), Span::CallSite) => self,
            (Span::CallSite, Span::Known(_)) => other,
            (Span::CallSite, Span::CallSite) => Span::CallSite,
        }
    }

    /// Builds a known span; the offsets are stored without validation.
    pub fn new(start: usize, end: usize) -> (r: Span)
        ensures
            r == Span::Known(RawSpan { start, end }),
    {
        Span::Known(RawSpan { start, end })
    }

    /// The distinct synthetic span denoting "no source location".
    pub fn call_site() -> (r: Span)
        ensures
            r == Span::CallSite,
    {
        Span::CallSite
    }

    /// The start offset of the span (0 for the synthetic span).
    pub fn start(&self) -> (n: usize)
        ensures
            n == self.spec_start(),
    {
        match self {
            Span::Known(s) => s.start,
            Span::CallSite => 0,
        }
    }

    /// The end offset of the span (0 for the synthetic span).
    pub fn end(&self) -> (n: usize)
        ensures
            n == self.spec_end(),
    {
        match self {
            Span::Known(s) => s.end,
            Span::CallSite => 0,
        }
    }

    /// The length of the span, `max(0, end - start)`: saturating, so an
    /// inverted span (`end < start`) yields 0 and no input can make this
    /// underflow.
    pub fn len(&self) -> (n: usize)
        ensures
            n == self.spec_len(),
    {
        match self {
            Span::Known(s) => s.end.saturating_sub(s.start),
            Span::CallSite => 0,
        }
    }

    /// Whether the span covers no bytes.
    pub fn is_empty(&self) -> (b: bool)
        ensures
            b == (self.spec_len() == 0),
    {
        self.len() == 0
    }

    /// The underlying raw range; the synthetic span reads as `[0, 0)`.
    pub fn raw(&self) -> (r: RawSpan)
        ensures
            r.start == self.spec_start(),
            r.end == self.spec_end(),
    {
        match self {
            Span::Known(s) => *s,
            Span::CallSite => RawSpan { start: 0, end: 0 },
        }
    }

    /// Joins two spans into one covering both: the minimum start paired with
    /// the maximum end. Joining with the synthetic span returns the other
    /// span unchanged, except when both are synthetic.
    pub fn join(&self, other: &Span) -> (r: Span)
        ensures
            r == self.spec_join(*other),
    {
        match (self, other) {
            (Span::Known(a), Span::Known(b)) => {
                let start = if a.start <= b.start {
                    a.start
                } else {
                    b.start
                };
                let end = if a.end >= b.end {
                    a.end
                } else {
                    b.end
                };
                Span::Known(RawSpan { start, end })
            },
            (Span::Known(_), Span::CallSite) => *self,
            (Span::CallSite, Span::Known(_)) => *other,
            (Span::CallSite, Span::CallSite) => Span::CallSite,
        }
    }
}

/// An inseparable pair of a value and the span it came from.
#[derive(Debug, Clone, PartialEq)]
pub struct Spanned<T> {
    pub span: Span,
    pub value: T,
}

impl<T> Spanned<T> {
    /// Wraps `value` with the known span `[start, end)`.
    pub fn new(start: usize, end: usize, value: T) -> (r: Spanned<T>)
        ensures
            r.span == Span::Known(RawSpan { start, end }),
            r.value == value,
    {
        Spanned { span: Span::Known(RawSpan { start, end }), value }
    }

    /// Wraps `value` with the synthetic span.
    pub fn call_site(value: T) -> (r: Spanned<T>)
        ensures
            r.span == Span::CallSite,
            r.value == value,
    {
        Spanned { span: Span::CallSite, value }
    }

    /// Applies `f` to the value while preserving the span exactly.
    pub fn map<U, F: FnOnce(T) -> U>(self, f: F) -> (r: Spanned<U>)
        requires
            call_requires(f, (self.value,)),
        ensures
            r.span == self.span,
            call_ensures(f, (self.value,), r.value),
    {
        Spanned { span: self.span, value: f(self.value) }
    }

    /// A borrowed view of the pair, with the same span.
    pub fn as_ref(&self) -> (r: Spanned<&T>)
        ensures
            r.span == self.span,
            *r.value == self.value,
    {
        Spanned { span: self.span, value: &self.value }
    }
}

} // verus!
