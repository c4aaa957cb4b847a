//! Span accuracy tests: exact byte offsets for every token the lexer
//! produces, span arithmetic, stream position spans, and spans of parsed
//! values.

use synkit::tokens::{
    ArrowToken, ColonToken, IdentToken, KwFnToken, KwStructToken, LBraceToken, LParenToken,
    NumberToken, RParenToken, StringToken,
};
use synkit::{Span, Spanned, SpannedLike, TokenStream};

/// Asserts the exact position and text of a span within `source`.
fn assert_span(span: &Span, source: &str, expected_text: &str, expected_start: usize) {
    let start = span.start();
    let end = span.end();
    let actual_text = &source[start..end];

    assert_eq!(
        actual_text, expected_text,
        "span text mismatch at {}..{}: expected {:?}, got {:?}",
        start, end, expected_text, actual_text
    );
    assert_eq!(
        start, expected_start,
        "span start mismatch: expected {}, got {}",
        expected_start, start
    );
    assert_eq!(
        span.len(),
        expected_text.len(),
        "span len mismatch: expected {}, got {}",
        expected_text.len(),
        span.len()
    );
}

#[test]
fn span_single_keyword() {
    let source = "struct";
    let ts = TokenStream::lex(source).expect("lexing failed");
    let all = ts.all();

    assert_eq!(all.len(), 1);
    assert_span(&all[0].span, source, "struct", 0);
}

#[test]
fn span_keyword_with_whitespace() {
    let source = "  struct  ";
    let ts = TokenStream::lex(source).expect("lexing failed");
    let all = ts.all();

    assert_eq!(all.len(), 5);
    assert_span(&all[0].span, source, " ", 0);
    assert_span(&all[1].span, source, " ", 1);
    assert_span(&all[2].span, source, "struct", 2);
    assert_span(&all[3].span, source, " ", 8);
    assert_span(&all[4].span, source, " ", 9);
}

#[test]
fn span_multiple_keywords() {
    let source = "struct enum fn";
    let ts = TokenStream::lex(source).expect("lexing failed");
    let all = ts.all();

    assert_eq!(all.len(), 5);
    assert_span(&all[0].span, source, "struct", 0);
    assert_span(&all[1].span, source, " ", 6);
    assert_span(&all[2].span, source, "enum", 7);
    assert_span(&all[3].span, source, " ", 11);
    assert_span(&all[4].span, source, "fn", 12);
}

#[test]
fn span_identifier() {
    let source = "foo_bar_123";
    let ts = TokenStream::lex(source).expect("lexing failed");
    let all = ts.all();

    assert_eq!(all.len(), 1);
    assert_span(&all[0].span, source, "foo_bar_123", 0);
}

#[test]
fn span_number() {
    let source = "12345";
    let ts = TokenStream::lex(source).expect("lexing failed");
    let all = ts.all();

    assert_eq!(all.len(), 1);
    assert_span(&all[0].span, source, "12345", 0);
}

#[test]
fn span_string_literal() {
    let source = r#""hello world""#;
    let ts = TokenStream::lex(source).expect("lexing failed");
    let all = ts.all();

    assert_eq!(all.len(), 1);
    assert_span(&all[0].span, source, r#""hello world""#, 0);
}

#[test]
fn span_multi_char_token() {
    let source = "->";
    let ts = TokenStream::lex(source).expect("lexing failed");
    let all = ts.all();

    assert_eq!(all.len(), 1);
    assert_span(&all[0].span, source, "->", 0);
}

#[test]
fn span_delimiters() {
    let source = "{}()";
    let ts = TokenStream::lex(source).expect("lexing failed");
    let all = ts.all();

    assert_eq!(all.len(), 4);
    assert_span(&all[0].span, source, "{", 0);
    assert_span(&all[1].span, source, "}", 1);
    assert_span(&all[2].span, source, "(", 2);
    assert_span(&all[3].span, source, ")", 3);
}

#[test]
fn span_complex_source() {
    let source = "struct Foo { x: i32, y: i64 }";
    let ts = TokenStream::lex(source).expect("lexing failed");
    let all = ts.all();

    assert_span(&all[0].span, source, "struct", 0);
    assert_span(&all[2].span, source, "Foo", 7);
    assert_span(&all[4].span, source, "{", 11);
    assert_span(&all[6].span, source, "x", 13);
    assert_span(&all[7].span, source, ":", 14);
    assert_span(&all[9].span, source, "i32", 16);
    assert_span(&all[10].span, source, ",", 19);
}

#[test]
fn span_multiline() {
    let source = "struct\nFoo\n{\n}";
    let ts = TokenStream::lex(source).expect("lexing failed");
    let all = ts.all();

    assert_span(&all[0].span, source, "struct", 0);
    assert_span(&all[1].span, source, "\n", 6);
    assert_span(&all[2].span, source, "Foo", 7);
    assert_span(&all[3].span, source, "\n", 10);
    assert_span(&all[4].span, source, "{", 11);
    assert_span(&all[5].span, source, "\n", 12);
    assert_span(&all[6].span, source, "}", 13);
}

#[test]
fn span_join_adjacent() {
    let source = "struct Foo";
    let ts = TokenStream::lex(source).expect("lexing failed");
    let all = ts.all();

    let struct_span = &all[0].span;
    let foo_span = &all[2].span;

    let joined = struct_span.join(foo_span);
    assert_eq!(joined.start(), 0);
    assert_eq!(joined.end(), 10);
    assert_eq!(&source[joined.start()..joined.end()], "struct Foo");
}

#[test]
fn span_join_same() {
    let span = Span::new(5, 10);
    let joined = span.join(&span);
    assert_eq!(joined.start(), 5);
    assert_eq!(joined.end(), 10);
}

#[test]
fn span_join_overlapping() {
    let a = Span::new(0, 10);
    let b = Span::new(5, 15);
    let joined = a.join(&b);
    assert_eq!(joined.start(), 0);
    assert_eq!(joined.end(), 15);
}

#[test]
fn span_join_non_adjacent() {
    let a = Span::new(0, 5);
    let b = Span::new(10, 15);
    let joined = a.join(&b);
    assert_eq!(joined.start(), 0);
    assert_eq!(joined.end(), 15);
}

#[test]
fn span_join_call_site() {
    // Joining with the synthetic span returns the other span unchanged,
    // except when both are synthetic.
    let a = Span::new(3, 5);
    assert_eq!(a.join(&Span::call_site()), a);
    assert_eq!(Span::call_site().join(&a), a);
    assert_eq!(Span::call_site().join(&Span::call_site()), Span::call_site());
}

#[test]
fn span_empty() {
    let span = Span::new(5, 5);
    assert!(span.is_empty());
    assert_eq!(span.len(), 0);
}

#[test]
fn span_call_site() {
    let span = Span::call_site();
    assert!(span.is_empty());
    assert_eq!(span.start(), 0);
    assert_eq!(span.end(), 0);
}

#[test]
fn cursor_span_at_start() {
    let source = "struct Foo";
    let ts = TokenStream::lex(source).expect("lexing failed");

    let span = ts.cursor_span().expect("should have cursor span");
    assert_eq!(span.start(), 0);
    assert_eq!(span.end(), 6);
}

#[test]
fn cursor_span_after_consume() {
    let source = "struct Foo";
    let mut ts = TokenStream::lex(source).expect("lexing failed");

    // Consume the keyword; `next` skips trivia before the token only.
    let _ = ts.next();

    // The raw cursor now sits on the space token after the keyword.
    let span = ts.cursor_span().expect("should have cursor span");
    assert_eq!(span.start(), 6);
    assert_eq!(span.end(), 7);
}

#[test]
fn last_span_after_consume() {
    let source = "struct Foo";
    let mut ts = TokenStream::lex(source).expect("lexing failed");

    let _ = ts.next();

    let span = ts.last_span().expect("should have last span");
    assert_eq!(span.start(), 0);
    assert_eq!(span.end(), 6);
}

#[test]
fn span_at_specific_position() {
    let source = "struct Foo { }";
    let ts = TokenStream::lex(source).expect("lexing failed");

    let span = ts.span_at(0).expect("should have span at 0");
    assert_eq!(&source[span.start()..span.end()], "struct");

    let span = ts.span_at(2).expect("should have span at 2");
    assert_eq!(&source[span.start()..span.end()], "Foo");
}

#[test]
fn span_range() {
    let source = "struct";
    let ts = TokenStream::lex(source).expect("lexing failed");

    let span = ts.span_range(0..6);
    assert_eq!(span.start(), 0);
    assert_eq!(span.end(), 6);
}

#[test]
fn parsed_value_spans() {
    let source = "struct Point { x: i32, y: i64 }";
    let mut ts = TokenStream::lex(source).expect("lexing failed");

    let kw: Spanned<KwStructToken> = ts.parse().expect("parse kw");
    assert_eq!(kw.span().start(), 0);
    assert_eq!(kw.span().end(), 6);
    assert_eq!(&source[kw.span().start()..kw.span().end()], "struct");

    let name: Spanned<IdentToken> = ts.parse().expect("parse name");
    assert_eq!(name.span().start(), 7);
    assert_eq!(name.span().end(), 12);
    assert_eq!(&source[name.span().start()..name.span().end()], "Point");
    assert_eq!(&name.value.0, "Point");

    let brace: Spanned<LBraceToken> = ts.parse().expect("parse {");
    assert_eq!(&source[brace.span().start()..brace.span().end()], "{");

    let field_name: Spanned<IdentToken> = ts.parse().expect("parse field");
    assert_eq!(&field_name.value.0, "x");
    assert_eq!(
        &source[field_name.span().start()..field_name.span().end()],
        "x"
    );

    let colon: Spanned<ColonToken> = ts.parse().expect("parse :");
    assert_eq!(&source[colon.span().start()..colon.span().end()], ":");

    let ty: Spanned<IdentToken> = ts.parse().expect("parse type");
    assert_eq!(&ty.value.0, "i32");
    assert_eq!(&source[ty.span().start()..ty.span().end()], "i32");
}

#[test]
fn parsed_number_span() {
    let source = "12345";
    let mut ts = TokenStream::lex(source).expect("lexing failed");

    let num: Spanned<NumberToken> = ts.parse().expect("parse number");
    assert_eq!(num.value.0, 12345);
    assert_eq!(num.span().start(), 0);
    assert_eq!(num.span().end(), 5);
}

#[test]
fn parsed_string_span() {
    let source = r#""hello world""#;
    let mut ts = TokenStream::lex(source).expect("lexing failed");

    let s: Spanned<StringToken> = ts.parse().expect("parse string");
    assert_eq!(&s.value.0, "hello world");
    assert_eq!(s.span().start(), 0);
    assert_eq!(s.span().end(), 13);
}

#[test]
fn parsed_arrow_span() {
    let source = "fn foo() -> i32";
    let mut ts = TokenStream::lex(source).expect("lexing failed");

    let _: Spanned<KwFnToken> = ts.parse().expect("fn");
    let _: Spanned<IdentToken> = ts.parse().expect("foo");
    let _: Spanned<LParenToken> = ts.parse().expect("(");
    let _: Spanned<RParenToken> = ts.parse().expect(")");

    let arrow: Spanned<ArrowToken> = ts.parse().expect("parse arrow");
    assert_eq!(&source[arrow.span().start()..arrow.span().end()], "->");
}

#[test]
fn fork_preserves_spans() {
    let source = "struct Foo";
    let mut ts = TokenStream::lex(source).expect("lexing failed");

    let forked = ts.fork();

    assert_eq!(ts.cursor_span(), forked.cursor_span());

    let _ = ts.next();

    assert_ne!(ts.cursor_span(), forked.cursor_span());
}

#[test]
fn rewind_restores_span() {
    let source = "struct Foo { }";
    let mut ts = TokenStream::lex(source).expect("lexing failed");

    let initial_pos = ts.cursor();
    let initial_span = ts.cursor_span();

    let _ = ts.next();
    let _ = ts.next();

    assert_ne!(ts.cursor_span(), initial_span);

    ts.rewind(initial_pos);

    assert_eq!(ts.cursor_span(), initial_span);
}
