//! Tests for the supporting components: the token buffer, punctuated and
//! repeated sequences, delimited values, the printer, text helpers, and the
//! incremental line lexer.

use synkit::lexer::{lex_str, LexError};
use synkit::tokens::{CommaToken, IdentToken};
use synkit::{
    to_snake_case, Delimited, IncrementalBuffer, LineLexer, ParseError, Printer, Punctuated,
    PunctuatedInner, Repeated, RepeatedItem, Separated, Span, Spanned, Terminated, ToTokens,
    Token, TrailingPolicy,
};

#[test]
fn buffer_push_consume_compact() {
    let mut buffer: IncrementalBuffer<u32> = IncrementalBuffer::new();
    assert!(buffer.is_empty());
    buffer.push(1);
    buffer.extend(vec![2, 3, 4]);
    assert_eq!(buffer.len(), 4);
    assert_eq!(buffer.total_tokens(), 4);
    assert_eq!(buffer.remaining(), &[1, 2, 3, 4]);

    buffer.consume(2);
    assert_eq!(buffer.len(), 2);
    assert_eq!(buffer.cursor(), 2);
    assert_eq!(buffer.consumed_pending(), 2);
    assert_eq!(buffer.remaining(), &[3, 4]);
    assert_eq!(*buffer.remaining_at(0), 3);

    buffer.compact();
    assert_eq!(buffer.cursor(), 0);
    assert_eq!(buffer.total_tokens(), 2);
    assert_eq!(buffer.remaining(), &[3, 4]);

    // Consuming with a sentinel clamps at the end instead of panicking.
    buffer.consume(usize::MAX);
    assert_eq!(buffer.len(), 0);
    assert!(buffer.is_empty());

    buffer.clear();
    assert_eq!(buffer.total_tokens(), 0);
    assert_eq!(buffer.cursor(), 0);
}

#[test]
fn buffer_capacity_and_shrink() {
    let mut buffer: IncrementalBuffer<u8> = IncrementalBuffer::with_capacity(16);
    buffer.extend(vec![1, 2, 3]);
    assert!(buffer.capacity() >= 3);
    buffer.reserve(100);
    assert!(buffer.capacity() >= 103);
    buffer.consume(1);
    buffer.shrink_to_fit();
    assert_eq!(buffer.remaining(), &[2, 3]);
}

#[test]
fn buffer_tokens_mut_appends() {
    let mut buffer: IncrementalBuffer<u8> = IncrementalBuffer::new();
    buffer.push(1);
    buffer.tokens_mut().push(2);
    assert_eq!(buffer.remaining(), &[1, 2]);
}

#[test]
fn punctuated_inner_basics() {
    let mut seq: PunctuatedInner<u32, char> = PunctuatedInner::new();
    assert!(seq.is_empty());
    assert!(!seq.trailing_punct());
    assert!(seq.first().is_none());
    assert!(seq.last().is_none());

    seq.push_value(1);
    seq.push_punct(',');
    seq.push_value(2);
    assert_eq!(seq.len(), 2);
    assert!(!seq.trailing_punct());
    assert_eq!(seq.first(), Some(&1));
    assert_eq!(seq.last(), Some(&2));

    seq.push_punct(',');
    assert!(seq.trailing_punct());

    let values: Vec<&u32> = seq.iter();
    assert_eq!(values, vec![&1, &2]);
    let pairs = seq.pairs();
    assert_eq!(pairs[0], &(1, Some(',')));
    assert_eq!(pairs[1], &(2, Some(',')));

    let owned = seq.into_pairs();
    assert_eq!(owned, vec![(1, Some(',')), (2, Some(','))]);
}

#[test]
fn punctuated_inner_punct_on_empty_is_dropped() {
    let mut seq: PunctuatedInner<u32, char> = PunctuatedInner::new();
    seq.push_punct(',');
    assert!(seq.is_empty());
    assert!(!seq.trailing_punct());
}

#[test]
fn punctuated_policies() {
    assert_eq!(Punctuated::<u32, char>::policy(), TrailingPolicy::Optional);
    assert_eq!(Terminated::<u32, char>::policy(), TrailingPolicy::Required);
    assert_eq!(Separated::<u32, char>::policy(), TrailingPolicy::Forbidden);

    let mut optional: Punctuated<u32, char> = Punctuated::new();
    optional.push_value(1);
    assert!(!optional.trailing_punct());
    optional.push_punct(';');
    assert!(optional.trailing_punct());

    let mut required: Terminated<u32, char> = Terminated::with_capacity(4);
    required.push_value(1);
    required.push_punct(';');
    assert!(required.trailing_punct());

    let mut forbidden: Separated<u32, char> = Separated::new();
    forbidden.push_value(1);
    assert!(!forbidden.trailing_punct());
    assert_eq!(forbidden.into_inner().len(), 1);
}

#[test]
fn repeated_basics() {
    let mut rep: Repeated<u32, char, Spanned<u32>> = Repeated::empty();
    assert!(rep.is_empty());
    rep.push(RepeatedItem::new(Spanned::new(0, 1, 7), None));
    rep.push(RepeatedItem::new(
        Spanned::new(2, 3, 8),
        Some(Spanned::new(3, 4, 0)),
    ));
    assert_eq!(rep.len(), 2);
    assert!(rep.capacity() >= 2);

    let items = rep.iter();
    assert_eq!(items[0].value.value, 7);
    assert!(items[0].sep.is_none());
    assert_eq!(items[1].value.value, 8);
    assert!(items[1].sep.is_some());

    let moved = Repeated::from_values(vec![RepeatedItem::<u32, char, Spanned<u32>>::new(
        Spanned::new(0, 1, 9),
        None,
    )]);
    assert_eq!(moved.len(), 1);

    rep.clear();
    assert!(rep.is_empty());
}

#[test]
fn delimited_preserves_span() {
    let d: Delimited<u32> = Delimited::new(Span::new(3, 9), 42);
    assert_eq!(d.span, Span::new(3, 9));
    assert_eq!(*d.inner_ref(), 42);

    let mapped = d.map(|v| v + 1);
    assert_eq!(mapped.span, Span::new(3, 9));
    assert_eq!(mapped.inner, 43);

    let synthetic: Delimited<u32> = Delimited::call_site(7);
    assert_eq!(synthetic.span, Span::call_site());
    assert_eq!(synthetic.inner, 7);
}

#[test]
fn spanned_map_keeps_span() {
    let spanned = Spanned::new(10, 20, 21u32);
    let doubled = spanned.map(|v| v * 2);
    assert_eq!(doubled.span, Span::new(10, 20));
    assert_eq!(doubled.value, 42);
}

#[test]
fn printer_round_trips_tokens() {
    // Printing the lexed tokens reproduces the source exactly.
    let source = "struct Foo { x: [1, -2] }\n\"s\" -> ok;\n";
    let toks = lex_str(source, 0).expect("lex failed");
    let mut printer = Printer::new();
    for tok in &toks {
        printer.token(&tok.value);
    }
    assert_eq!(printer.into_string(), source);
}

#[test]
fn printer_words_and_indentation() {
    let mut p = Printer::new();
    p.word("fn");
    p.space();
    p.word("f");
    p.indent();
    assert_eq!(p.indent_level(), 1);
    p.newline();
    p.word("x");
    p.dedent();
    assert_eq!(p.indent_level(), 0);
    assert_eq!(p.buf(), "fn f\n    x");

    let mut tabbed = Printer::new().with_tabs();
    tabbed.indent();
    tabbed.newline();
    tabbed.word("y");
    assert_eq!(tabbed.into_string(), "\n\ty");
}

#[test]
fn printer_write_separated() {
    let items = vec![IdentToken::new("a".to_string()), IdentToken::new("b".to_string())];
    let mut p = Printer::new();
    p.write_separated(&items, &Token::Comma, false, false);
    assert_eq!(p.buf(), "a,b");

    let mut p2 = Printer::new();
    p2.write_separated(&items, &Token::Comma, true, false);
    assert_eq!(p2.buf(), "a,b,");

    let mut p3 = Printer::new();
    p3.write_separated_inline(&items, &Token::Comma);
    assert_eq!(p3.buf(), "a, b");
}

#[test]
fn to_tokens_blanket_impls() {
    let some: Option<CommaToken> = Some(CommaToken::new());
    assert_eq!(some.to_string_formatted(), ",");
    let none: Option<CommaToken> = None;
    assert_eq!(none.to_string_formatted(), "");
    let boxed: Box<CommaToken> = Box::new(CommaToken::new());
    assert_eq!(boxed.to_string_formatted(), ",");
    let many = vec![CommaToken::new(), CommaToken::new()];
    assert_eq!(many.to_string_formatted(), ",,");
}

#[test]
fn snake_case_conversion() {
    assert_eq!(to_snake_case("LBrace"), "l_brace");
    assert_eq!(to_snake_case("KwStruct"), "kw_struct");
    assert_eq!(to_snake_case("already_snake"), "already_snake");
    assert_eq!(to_snake_case("A"), "a");
    assert_eq!(to_snake_case(""), "");
}

#[test]
fn line_lexer_contiguous_offsets() {
    // Tokens from successive feeds carry absolute, contiguous spans.
    let mut lexer = LineLexer::new();
    let first = lexer.feed("ab\ncd").expect("feed failed");
    assert_eq!(first.len(), 2);
    assert_eq!(first[0].span, Span::new(0, 2));
    assert_eq!(first[1].span, Span::new(2, 3));
    assert_eq!(lexer.offset(), 3);

    let second = lexer.feed("e\n").expect("feed failed");
    assert_eq!(second.len(), 2);
    assert_eq!(second[0].span, Span::new(3, 6));
    assert!(matches!(second[0].value, Token::Ident(ref s) if s == "cde"));
    assert_eq!(second[1].span, Span::new(6, 7));
    assert_eq!(lexer.offset(), 7);
}

#[test]
fn line_lexer_finish_rejects_unterminated_string() {
    let mut lexer = LineLexer::new();
    let tokens = lexer.feed("\"open").expect("feed holds the suffix");
    assert!(tokens.is_empty());
    let err = lexer.finish().expect_err("should fail");
    assert_eq!(err, LexError::Empty { expect: "\"" });
}

#[test]
fn lexer_rejects_unknown_characters() {
    assert_eq!(lex_str("42 @ 7", 0), Err(LexError::Unknown));
    assert_eq!(lex_str("caf\u{e9}", 0), Err(LexError::Unknown));
}

#[test]
fn lexer_negative_numbers_and_arrow() {
    let toks = lex_str("-12 ->", 0).expect("lex failed");
    assert!(matches!(toks[0].value, Token::Number(-12)));
    assert_eq!(toks[0].span, Span::new(0, 3));
    assert!(matches!(toks[2].value, Token::Arrow));
}

#[test]
fn parse_error_describe_messages() {
    let e = ParseError::Expected {
        expect: "value",
        found: "}".to_string(),
    };
    assert_eq!(e.describe(), "expected value, found }");
    let e = ParseError::Empty { expect: ":" };
    assert_eq!(e.describe(), "expected :, found EOF");
    let e = LexError::Unknown;
    assert_eq!(e.describe(), "unknown");
}

#[test]
fn punctuated_value_at_mut_edits_in_place() {
    let mut seq: PunctuatedInner<u32, char> = PunctuatedInner::new();
    seq.push_value(1);
    seq.push_punct(',');
    seq.push_value(2);
    *seq.value_at_mut(0) = 10;
    assert_eq!(seq.first(), Some(&10));
    // The separator next to the edited value is untouched.
    assert_eq!(seq.pairs()[0], &(10, Some(',')));
    assert_eq!(seq.last(), Some(&2));
}

#[test]
fn buffer_remaining_mut_edits_in_place() {
    let mut buffer: IncrementalBuffer<u32> = IncrementalBuffer::new();
    buffer.extend(vec![1, 2, 3]);
    buffer.consume(1);
    buffer.remaining_mut()[0] = 20;
    assert_eq!(buffer.remaining(), &[20, 3]);
    assert_eq!(buffer.cursor(), 1);
}

