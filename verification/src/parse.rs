//! The parsing contracts: `Peek` for LL(1) lookahead, `Parse` for consuming
//! a construct from the stream, and `Diagnostic` for expected-fragment
//! error messages; plus the kit's parse error type.

use vstd::prelude::*;
use vstd::string::StringExecFns;
use crate::error::Error;
use crate::span::{RawSpan, Span, Spanned};
use crate::stream::{next_sig, TokenStream};
use crate::token::{Token, TokenV};

verus! {

/// An error raised while parsing.
#[derive(Debug, Clone, PartialEq, Eq)]
pub enum ParseError {
    /// No more specific kind applies.
    Unknown,
    /// A particular fragment was expected but another token was found.
    Expected {
        /// What was expected.
        expect: &'static str,
        /// The text of the token that was found.
        found: String,
    },
    /// A particular fragment was expected but the stream was exhausted.
    Empty {
        /// What was expected.
        expect: &'static str,
    },
    /// A core limit or consumption error, embedded unchanged.
    Core(Error),
}

/// The rendered message for each parse error kind.
pub open spec fn spec_parse_error_message(e: ParseError) -> Seq<char> {
    match e {
        ParseError::Unknown => "unknown"@,
        ParseError::Expected { expect, found } => "expected "@ + expect@ + ", found "@ + found@,
        ParseError::Empty { expect } => "expected "@ + expect@ + ", found EOF"@,
        ParseError::Core(inner) => crate::error::spec_error_message(inner),
    }
}

impl ParseError {
    /// A human-readable message for this error.
    pub fn describe(&self) -> (r: String)
        ensures
            r@ == spec_parse_error_message(*self),
    {
        match self {
            ParseError::Unknown => "unknown".to_owned(),
            ParseError::Expected { expect, found } => {
                let mut s = "expected ".to_owned();
                s.append(expect);
                s.append(", found ");
                s.append(found.as_str());
                s
            },
            ParseError::Empty { expect } => {
                let mut s = "expected ".to_owned();
                s.append(expect);
                s.append(", found EOF");
                s
            },
            ParseError::Core(inner) => inner.describe(),
        }
    }
}

/// A static expected-fragment string for error messages.
pub trait Diagnostic {
    /// The fragment this construct expects, such as "`{`" or "identifier".
    fn fmt() -> &'static str;
}

/// Lookahead without consuming: one predicate over the token alphabet,
/// stated both as a spec predicate and as its executable check.
pub trait Peek: Sized {
    /// The predicate this construct matches, over token values.
    spec fn spec_is(t: TokenV) -> bool;

    /// Whether `token` matches this construct.
    fn is(token: &Token) -> (b: bool)
        ensures
            b == Self::spec_is(token@),
    ;

    /// Whether the next significant token of `stream` matches this
    /// construct; `false` when the stream is exhausted. Nothing is consumed.
    fn peek(stream: &TokenStream) -> (b: bool)
        ensures
            b == match next_sig(
                stream.spec_tokens(),
                stream.spec_cursor(),
                stream.spec_range_end(),
            ) {
                Some(i) => Self::spec_is(stream.spec_tokens()[i].value@),
                None => false,
            },
    {
        match stream.peek_token() {
            Some(t) => Self::is(&t.value),
            None => false,
        }
    }
}

/// Consuming a construct from the stream.
///
/// On success the cursor has advanced past exactly the tokens that make up
/// the construct; on failure the cursor is unspecified, so callers that need
/// to backtrack fork the stream beforehand.
pub trait Parse: Sized {
    /// Parses one construct from `stream`.
    fn parse(stream: &mut TokenStream) -> Result<Self, ParseError>;

    /// Parses one construct and wraps it with its covering span: from the
    /// first significant token when the parse began to the last token the
    /// parse consumed.
    fn parse_spanned(stream: &mut TokenStream) -> (r: Result<Spanned<Self>, ParseError>)
        ensures
            r matches Ok(sp) ==> ({
                let from = match next_sig(
                    old(stream).spec_tokens(),
                    old(stream).spec_cursor(),
                    old(stream).spec_range_end(),
                ) {
                    Some(i) => old(stream).spec_tokens()[i].span.spec_start(),
                    None => 0int,
                };
                let upto = if 0 <= final(stream).spec_last_cursor() < final(stream).spec_tokens().len() {
                    final(stream).spec_tokens()[final(stream).spec_last_cursor()].span.spec_end()
                } else {
                    from
                };
                sp.span == Span::Known(RawSpan { start: from as usize, end: upto as usize })
            }),
    {
        let start = match stream.peek_token() {
            Some(t) => t.span.start(),
            None => 0,
        };
        let value = match Self::parse(stream) {
            Ok(v) => v,
            Err(e) => {
                return Err(e);
            },
        };
        let end = match stream.last_span() {
            Some(sp) => sp.end(),
            None => start,
        };
        Ok(Spanned::new(start, end, value))
    }
}

impl<T: Parse + Peek> Parse for Option<T> {
    /// Parses `Some` when the next significant token matches `T`, and
    /// otherwise yields `None` without consuming anything.
    fn parse(stream: &mut TokenStream) -> (r: Result<Self, ParseError>)
        ensures
            ({
                let sig = next_sig(
                    old(stream).spec_tokens(),
                    old(stream).spec_cursor(),
                    old(stream).spec_range_end(),
                );
                let matched = sig is Some && T::spec_is(
                    old(stream).spec_tokens()[sig->0].value@,
                );
                &&& !matched ==> r == Ok::<Option<T>, ParseError>(None) && *final(stream)
                    == *old(stream)
                &&& matched ==> (r is Err || (r matches Ok(v) && v is Some))
            }),
    {
        if T::peek(stream) {
            match T::parse(stream) {
                Ok(v) => Ok(Some(v)),
                Err(e) => Err(e),
            }
        } else {
            Ok(None)
        }
    }
}

impl<T: Parse> Parse for Box<T> {
    /// Delegates to `T` and boxes the result.
    fn parse(stream: &mut TokenStream) -> Result<Self, ParseError> {
        match T::parse(stream) {
            Ok(v) => Ok(Box::new(v)),
            Err(e) => Err(e),
        }
    }
}

impl<T: Peek> Peek for Box<T> {
    open spec fn spec_is(t: TokenV) -> bool {
        T::spec_is(t)
    }

    fn is(token: &Token) -> (b: bool) {
        T::is(token)
    }
}

} // verus!
