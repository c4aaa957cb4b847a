//! Tests for the forkable token stream: raw and significant reading,
//! rewinding, forking, delimiter extraction, and consumption checks.

use synkit::tokens::{CommaToken, LBraceToken, LBracketToken, LParenToken, RBracketToken, RParenToken};
use synkit::{Error, KeyValue, ParseError, Peek, Span, Token, TokenStream, Value};

#[test]
fn next_raw_returns_trivia() {
    let mut ts = TokenStream::lex("a b").expect("lex failed");
    let first = ts.next_raw().expect("token");
    assert!(matches!(first.value, Token::Ident(_)));
    let second = ts.next_raw().expect("token");
    assert!(matches!(second.value, Token::Whitespace));
    let third = ts.next_raw().expect("token");
    assert!(matches!(third.value, Token::Ident(_)));
    assert!(ts.next_raw().is_none());
}

#[test]
fn next_skips_trivia() {
    let mut ts = TokenStream::lex("  a \n b").expect("lex failed");
    let first = ts.next().expect("token");
    assert!(matches!(first.value, Token::Ident(ref s) if s == "a"));
    let second = ts.next().expect("token");
    assert!(matches!(second.value, Token::Ident(ref s) if s == "b"));
    assert!(ts.next().is_none());
}

#[test]
fn peek_token_is_idempotent() {
    let ts = TokenStream::lex(" a").expect("lex failed");
    let before = ts.cursor();
    let peeked = ts.peek_token().expect("token").value.clone();
    assert!(matches!(peeked, Token::Ident(_)));
    assert_eq!(ts.cursor(), before);
    let again = ts.peek_token().expect("token").value.clone();
    assert_eq!(peeked, again);
}

#[test]
fn rewind_saturates_past_range_end() {
    // Rewinding past the end never panics; the cursor clamps to the range.
    let mut ts = TokenStream::lex("a b c").expect("lex failed");
    ts.rewind(usize::MAX);
    assert_eq!(ts.cursor(), 5);
    assert!(ts.next_raw().is_none());
    ts.rewind(0);
    assert_eq!(ts.cursor(), 0);
    assert!(ts.next_raw().is_some());
}

#[test]
fn fork_is_independent() {
    // Mutating a fork changes neither the original's cursor nor its
    // remaining count; mutating the original leaves the fork alone.
    let mut ts = TokenStream::lex("a b c").expect("lex failed");
    let mut fork = ts.fork();
    assert_eq!(ts.cursor(), fork.cursor());
    assert_eq!(ts.remaining(), fork.remaining());

    let _ = fork.next();
    let _ = fork.next();
    assert_eq!(ts.cursor(), 0);
    assert_eq!(ts.remaining(), 3);
    assert_eq!(fork.remaining(), 1);

    let _ = ts.next();
    assert_eq!(fork.cursor(), 3);
}

#[test]
fn remaining_counts_significant_tokens() {
    let ts = TokenStream::lex("a b c ").expect("lex failed");
    assert_eq!(ts.remaining(), 3);
    assert!(!ts.is_empty());

    let blank = TokenStream::lex("  \n").expect("lex failed");
    assert_eq!(blank.remaining(), 0);
    assert!(blank.is_empty());
}

#[test]
fn ensure_consumed_reports_remaining() {
    let mut ts = TokenStream::lex("a b").expect("lex failed");
    assert_eq!(
        ts.ensure_consumed(),
        Err(Error::StreamNotConsumed { remaining: 2 })
    );
    // Repeated calls on the same state return the same result: the check
    // reads the stream without consuming anything.
    assert_eq!(
        ts.ensure_consumed(),
        Err(Error::StreamNotConsumed { remaining: 2 })
    );
    let _ = ts.next();
    let _ = ts.next();
    assert!(ts.ensure_consumed().is_ok());
    assert!(ts.ensure_consumed().is_ok());
}

#[test]
fn extract_inner_yields_interior() {
    // The sub-stream covers exactly the interior of the matched pair, at
    // the matched depth; the parent cursor moves past the closer.
    let mut ts = TokenStream::lex("( a ( b ) c ) d").expect("lex failed");
    let (mut inner, span) = ts
        .extract_inner::<LParenToken, RParenToken>()
        .expect("extract failed");

    assert_eq!(span, Span::new(0, 13));

    let mut words = Vec::new();
    while let Some(tok) = inner.next() {
        words.push(tok.value);
    }
    assert_eq!(words.len(), 5);
    assert!(matches!(words[0], Token::Ident(ref s) if s == "a"));
    assert!(matches!(words[1], Token::LParen));
    assert!(matches!(words[2], Token::Ident(ref s) if s == "b"));
    assert!(matches!(words[3], Token::RParen));
    assert!(matches!(words[4], Token::Ident(ref s) if s == "c"));

    // The parent continues after the matched closer.
    let next = ts.next().expect("token after group");
    assert!(matches!(next.value, Token::Ident(ref s) if s == "d"));
}

#[test]
fn extract_inner_missing_close() {
    let mut ts = TokenStream::lex("( a b").expect("lex failed");
    let err = ts
        .extract_inner::<LParenToken, RParenToken>()
        .expect_err("should fail");
    assert!(matches!(err, ParseError::Empty { .. }));
}

#[test]
fn extract_inner_wrong_open() {
    let mut ts = TokenStream::lex("[ a ]").expect("lex failed");
    let err = ts
        .extract_inner::<LParenToken, RParenToken>()
        .expect_err("should fail");
    assert!(matches!(err, ParseError::Expected { .. }));
}

#[test]
fn extract_inner_brackets() {
    let mut ts = TokenStream::lex("[1, 2]").expect("lex failed");
    let (mut inner, span) = ts
        .extract_inner::<LBracketToken, RBracketToken>()
        .expect("extract failed");
    assert_eq!(span, Span::new(0, 6));
    let mut nums = Vec::new();
    while let Some(tok) = inner.next() {
        nums.push(tok.value);
    }
    assert_eq!(nums.len(), 3);
    assert!(matches!(nums[0], Token::Number(1)));
    assert!(matches!(nums[1], Token::Comma));
    assert!(matches!(nums[2], Token::Number(2)));
}

#[test]
fn peek_dispatch() {
    let ts = TokenStream::lex(" { ").expect("lex failed");
    assert!(ts.peek::<LBraceToken>());
    assert!(!ts.peek::<LParenToken>());
    assert!(LBraceToken::is(&Token::LBrace));
    assert!(!LBraceToken::is(&Token::RBrace));
}

#[test]
fn optional_parse_does_not_consume() {
    let mut ts = TokenStream::lex(", x").expect("lex failed");
    let comma: Option<CommaToken> = ts.parse::<Option<CommaToken>>().expect("parse").value;
    assert!(comma.is_some());
    let none: Option<CommaToken> = ts.parse::<Option<CommaToken>>().expect("parse").value;
    assert!(none.is_none());
    // The identifier is still there to be consumed.
    let next = ts.next().expect("token");
    assert!(matches!(next.value, Token::Ident(_)));
}

#[test]
fn boxed_parse_delegates() {
    let mut ts = TokenStream::lex(",").expect("lex failed");
    let comma: Box<CommaToken> = ts.parse::<Box<CommaToken>>().expect("parse").value;
    let _ = comma;
}

#[test]
fn key_value_parse() {
    let mut ts = TokenStream::lex("name: 42").expect("lex failed");
    let kv: KeyValue = ts.parse::<KeyValue>().expect("parse").value;
    assert_eq!(kv.key.value.0, "name");
    assert!(matches!(kv.value, Value::Number(42)));
    assert_eq!(kv.key.span, Span::new(0, 4));
    assert_eq!(kv.colon.span, Span::new(4, 5));
    assert!(ts.ensure_consumed().is_ok());
}

#[test]
fn key_value_parse_error() {
    let mut ts = TokenStream::lex("name 42").expect("lex failed");
    let err = ts.parse::<KeyValue>().expect_err("should fail");
    assert!(matches!(err, ParseError::Expected { expect: ":", .. }));
}

#[test]
fn value_parse_rejects_delimiter() {
    let mut ts = TokenStream::lex("[").expect("lex failed");
    let err = ts.parse::<Value>().expect_err("should fail");
    assert!(matches!(err, ParseError::Expected { expect: "value", .. }));
}

#[test]
fn lexer_spans_are_monotone() {
    // Spans tile the input, so starts and ends never decrease.
    let ts = TokenStream::lex("struct Foo { x: [1, 2] }\n").expect("lex failed");
    let all = ts.all();
    assert!(!all.is_empty());
    assert_eq!(all[0].span.start(), 0);
    for pair in all.windows(2) {
        assert_eq!(pair[0].span.end(), pair[1].span.start());
        assert!(pair[0].span.start() <= pair[1].span.start());
        assert!(pair[0].span.end() <= pair[1].span.end());
    }
    assert_eq!(all[all.len() - 1].span.end(), 25);
}
