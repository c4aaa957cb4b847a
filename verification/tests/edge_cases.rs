//! Edge case tests for span arithmetic, spanned mapping, and UTF-8
//! boundaries, exercised through the generic span traits.

use synkit::{SpanLike, SpannedLike};

/// Minimal span implementation for testing the trait's default behaviour.
#[derive(Clone, Copy, Debug, PartialEq)]
struct TestSpan {
    start: usize,
    end: usize,
}

impl SpanLike for TestSpan {
    fn start(&self) -> usize {
        self.start
    }

    fn end(&self) -> usize {
        self.end
    }

    fn new(start: usize, end: usize) -> Self {
        Self { start, end }
    }

    fn call_site() -> Self {
        Self { start: 0, end: 0 }
    }
}

/// Minimal spanned wrapper for testing the trait's default behaviour.
#[derive(Clone, Debug)]
struct TestSpanned<T> {
    span: TestSpan,
    value: T,
}

impl<T: Clone> SpannedLike<T> for TestSpanned<T> {
    type Span = TestSpan;

    fn span(&self) -> &Self::Span {
        &self.span
    }

    fn value_ref(&self) -> &T {
        &self.value
    }

    fn value(self) -> T {
        self.value
    }

    fn new(start: usize, end: usize, value: T) -> Self {
        Self {
            span: TestSpan { start, end },
            value,
        }
    }
}

#[test]
fn test_empty_span() {
    let span = TestSpan::new(0, 0);
    assert_eq!(span.len(), 0);
    assert!(span.is_empty());
}

#[test]
fn test_empty_span_call_site() {
    let span = TestSpan::call_site();
    assert_eq!(span.start(), 0);
    assert_eq!(span.end(), 0);
    assert!(span.is_empty());
}

#[test]
fn test_inverted_span_is_empty() {
    // When end < start, the saturating length is 0.
    let span = TestSpan::new(100, 50);
    assert!(span.is_empty());
}

#[test]
fn test_span_join_max_values() {
    let span1 = TestSpan::new(0, usize::MAX / 2);
    let span2 = TestSpan::new(usize::MAX / 2, usize::MAX);
    let joined = span1.join(&span2);

    assert_eq!(joined.start(), 0);
    assert_eq!(joined.end(), usize::MAX);
}

#[test]
fn test_span_join_near_max() {
    let span1 = TestSpan::new(usize::MAX - 10, usize::MAX - 5);
    let span2 = TestSpan::new(usize::MAX - 3, usize::MAX);
    let joined = span1.join(&span2);

    assert_eq!(joined.start(), usize::MAX - 10);
    assert_eq!(joined.end(), usize::MAX);
}

#[test]
fn test_span_join_inverted_inputs() {
    // Even with inverted input spans, join uses the minimum start and the
    // maximum end.
    let span1 = TestSpan::new(100, 50);
    let span2 = TestSpan::new(200, 150);

    let joined = span1.join(&span2);
    assert_eq!(joined.start(), 100);
    assert_eq!(joined.end(), 150);
}

#[test]
fn test_spanned_map_preserves_span() {
    let spanned = TestSpanned::new(10, 20, 42i32);
    let mapped = spanned.map(|v| v.to_string());

    assert_eq!(mapped.span().start(), 10);
    assert_eq!(mapped.span().end(), 20);
    assert_eq!(mapped.value_ref(), "42");
}

#[test]
fn test_spanned_map_empty_span() {
    let spanned = TestSpanned::new(0, 0, "test");
    let mapped = spanned.map(|s| s.len());

    assert!(mapped.span().is_empty());
    assert_eq!(mapped.value(), 4);
}

#[test]
fn test_utf8_string_char_boundaries() {
    // Three characters of three bytes each.
    let text = "\u{65e5}\u{672c}\u{8a9e}";
    assert_eq!(text.len(), 9);

    assert!(text.is_char_boundary(0));
    assert!(text.is_char_boundary(3));
    assert!(text.is_char_boundary(6));
    assert!(text.is_char_boundary(9));

    assert!(!text.is_char_boundary(1));
    assert!(!text.is_char_boundary(2));
    assert!(!text.is_char_boundary(4));
    assert!(!text.is_char_boundary(5));
}

#[test]
fn test_span_respects_multibyte_chars() {
    // A mix of ASCII and a three-byte character.
    let text = "a\u{65e5}b";
    assert_eq!(text.len(), 5);

    let span = TestSpan::new(1, 4);
    assert_eq!(span.len(), 3);
    assert_eq!(&text[1..4], "\u{65e5}");
}

#[test]
fn test_span_arithmetic_no_overflow() {
    let _ = TestSpan::new(usize::MAX, usize::MAX);
    let _ = TestSpan::new(0, usize::MAX);
    let _ = TestSpan::new(usize::MAX, 0);

    let span = TestSpan::new(usize::MAX, 0);
    assert_eq!(span.len(), 0);

    let span2 = TestSpan::new(0, usize::MAX);
    assert_eq!(span2.len(), usize::MAX);
}

#[test]
fn test_span_join_no_overflow() {
    let span1 = TestSpan::new(usize::MAX - 1, usize::MAX);
    let span2 = TestSpan::new(0, 1);
    let joined = span1.join(&span2);

    assert_eq!(joined.start(), 0);
    assert_eq!(joined.end(), usize::MAX);
}

#[test]
fn test_very_large_span() {
    let span = TestSpan::new(usize::MAX / 2, usize::MAX);
    let expected_len = usize::MAX - usize::MAX / 2;
    assert_eq!(span.len(), expected_len);
}

#[test]
fn test_spanned_with_large_positions() {
    let spanned = TestSpanned::new(usize::MAX - 100, usize::MAX, "large");
    assert_eq!(spanned.span().len(), 100);
    assert_eq!(spanned.value(), "large");
}
