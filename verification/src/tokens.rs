//! Marker types for each token of the kit grammar, with their lookahead,
//! parsing, and diagnostic implementations.

use vstd::prelude::*;
use crate::parse::{Diagnostic, Parse, ParseError, Peek};
use crate::printer::{Printer, ToTokens};
use crate::stream::{next_sig, TokenStream};
use crate::token::{spec_token_text, token_text, Token, TokenV};

verus! {

/// The `struct` token.
#[derive(Debug, Clone, Copy, PartialEq, Eq, Structural)]
pub struct KwStructToken;

impl KwStructToken {
    /// A fresh token value.
    pub fn new() -> (r: KwStructToken)
        ensures
            r == KwStructToken,
    {
        KwStructToken
    }

    /// The token enum value this construct stands for.
    pub fn token(&self) -> (t: Token)
        ensures
            t@ == TokenV::KwStruct,
    {
        Token::KwStruct
    }

    /// The expected-fragment text for diagnostics.
    pub fn fmt() -> &'static str {
        "struct"
    }
}

impl Default for KwStructToken {
    /// A fresh token value.
    fn default() -> (r: KwStructToken)
        ensures
            r == KwStructToken,
    {
        KwStructToken
    }
}

impl Diagnostic for KwStructToken {
    fn fmt() -> &'static str {
        "struct"
    }
}

impl Peek for KwStructToken {
    open spec fn spec_is(tok: TokenV) -> bool {
        tok is KwStruct
    }

    fn is(token: &Token) -> (b: bool) {
        matches!(token, Token::KwStruct)
    }
}

impl Parse for KwStructToken {
    /// Consumes the next significant token exactly when it is `struct`,
    /// advancing past it; anything else is an error.
    fn parse(stream: &mut TokenStream) -> (r: Result<Self, ParseError>)
        ensures
            ({
                let sig = next_sig(
                    old(stream).spec_tokens(),
                    old(stream).spec_cursor(),
                    old(stream).spec_range_end(),
                );
                let matched = sig is Some && old(stream).spec_tokens()[sig->0].value@ is KwStruct;
                &&& r is Ok <==> matched
                &&& matched ==> final(stream).spec_tokens() == old(stream).spec_tokens()
                    && final(stream).spec_range_start() == old(stream).spec_range_start()
                    && final(stream).spec_range_end() == old(stream).spec_range_end()
                    && final(stream).spec_cursor() == sig->0 + 1
            }),
    {
        match stream.next() {
            Some(tok) => match tok.value {
                Token::KwStruct => Ok(KwStructToken),
                other => Err(
                    ParseError::Expected { expect: "struct", found: token_text(&other) },
                ),
            },
            None => Err(ParseError::Empty { expect: "struct" }),
        }
    }
}

/// The `enum` token.
#[derive(Debug, Clone, Copy, PartialEq, Eq, Structural)]
pub struct KwEnumToken;

impl KwEnumToken {
    /// A fresh token value.
    pub fn new() -> (r: KwEnumToken)
        ensures
            r == KwEnumToken,
    {
        KwEnumToken
    }

    /// The token enum value this construct stands for.
    pub fn token(&self) -> (t: Token)
        ensures
            t@ == TokenV::KwEnum,
    {
        Token::KwEnum
    }

    /// The expected-fragment text for diagnostics.
    pub fn fmt() -> &'static str {
        "enum"
    }
}

impl Default for KwEnumToken {
    /// A fresh token value.
    fn default() -> (r: KwEnumToken)
        ensures
            r == KwEnumToken,
    {
        KwEnumToken
    }
}

impl Diagnostic for KwEnumToken {
    fn fmt() -> &'static str {
        "enum"
    }
}

impl Peek for KwEnumToken {
    open spec fn spec_is(tok: TokenV) -> bool {
        tok is KwEnum
    }

    fn is(token: &Token) -> (b: bool) {
        matches!(token, Token::KwEnum)
    }
}

impl Parse for KwEnumToken {
    /// Consumes the next significant token exactly when it is `enum`,
    /// advancing past it; anything else is an error.
    fn parse(stream: &mut TokenStream) -> (r: Result<Self, ParseError>)
        ensures
            ({
                let sig = next_sig(
                    old(stream).spec_tokens(),
                    old(stream).spec_cursor(),
                    old(stream).spec_range_end(),
                );
                let matched = sig is Some && old(stream).spec_tokens()[sig->0].value@ is KwEnum;
                &&& r is Ok <==> matched
                &&& matched ==> final(stream).spec_tokens() == old(stream).spec_tokens()
                    && final(stream).spec_range_start() == old(stream).spec_range_start()
                    && final(stream).spec_range_end() == old(stream).spec_range_end()
                    && final(stream).spec_cursor() == sig->0 + 1
            }),
    {
        match stream.next() {
            Some(tok) => match tok.value {
                Token::KwEnum => Ok(KwEnumToken),
                other => Err(
                    ParseError::Expected { expect: "enum", found: token_text(&other) },
                ),
            },
            None => Err(ParseError::Empty { expect: "enum" }),
        }
    }
}

/// The `fn` token.
#[derive(Debug, Clone, Copy, PartialEq, Eq, Structural)]
pub struct KwFnToken;

impl KwFnToken {
    /// A fresh token value.
    pub fn new() -> (r: KwFnToken)
        ensures
            r == KwFnToken,
    {
        KwFnToken
    }

    /// The token enum value this construct stands for.
    pub fn token(&self) -> (t: Token)
        ensures
            t@ == TokenV::KwFn,
    {
        Token::KwFn
    }

    /// The expected-fragment text for diagnostics.
    pub fn fmt() -> &'static str {
        "fn"
    }
}

impl Default for KwFnToken {
    /// A fresh token value.
    fn default() -> (r: KwFnToken)
        ensures
            r == KwFnToken,
    {
        KwFnToken
    }
}

impl Diagnostic for KwFnToken {
    fn fmt() -> &'static str {
        "fn"
    }
}

impl Peek for KwFnToken {
    open spec fn spec_is(tok: TokenV) -> bool {
        tok is KwFn
    }

    fn is(token: &Token) -> (b: bool) {
        matches!(token, Token::KwFn)
    }
}

impl Parse for KwFnToken {
    /// Consumes the next significant token exactly when it is `fn`,
    /// advancing past it; anything else is an error.
    fn parse(stream: &mut TokenStream) -> (r: Result<Self, ParseError>)
        ensures
            ({
                let sig = next_sig(
                    old(stream).spec_tokens(),
                    old(stream).spec_cursor(),
                    old(stream).spec_range_end(),
                );
                let matched = sig is Some && old(stream).spec_tokens()[sig->0].value@ is KwFn;
                &&& r is Ok <==> matched
                &&& matched ==> final(stream).spec_tokens() == old(stream).spec_tokens()
                    && final(stream).spec_range_start() == old(stream).spec_range_start()
                    && final(stream).spec_range_end() == old(stream).spec_range_end()
                    && final(stream).spec_cursor() == sig->0 + 1
            }),
    {
        match stream.next() {
            Some(tok) => match tok.value {
                Token::KwFn => Ok(KwFnToken),
                other => Err(
                    ParseError::Expected { expect: "fn", found: token_text(&other) },
                ),
            },
            None => Err(ParseError::Empty { expect: "fn" }),
        }
    }
}

/// The `{` token.
#[derive(Debug, Clone, Copy, PartialEq, Eq, Structural)]
pub struct LBraceToken;

impl LBraceToken {
    /// A fresh token value.
    pub fn new() -> (r: LBraceToken)
        ensures
            r == LBraceToken,
    {
        LBraceToken
    }

    /// The token enum value this construct stands for.
    pub fn token(&self) -> (t: Token)
        ensures
            t@ == TokenV::LBrace,
    {
        Token::LBrace
    }

    /// The expected-fragment text for diagnostics.
    pub fn fmt() -> &'static str {
        "{"
    }
}

impl Default for LBraceToken {
    /// A fresh token value.
    fn default() -> (r: LBraceToken)
        ensures
            r == LBraceToken,
    {
        LBraceToken
    }
}

impl Diagnostic for LBraceToken {
    fn fmt() -> &'static str {
        "{"
    }
}

impl Peek for LBraceToken {
    open spec fn spec_is(tok: TokenV) -> bool {
        tok is LBrace
    }

    fn is(token: &Token) -> (b: bool) {
        matches!(token, Token::LBrace)
    }
}

impl Parse for LBraceToken {
    /// Consumes the next significant token exactly when it is `{`,
    /// advancing past it; anything else is an error.
    fn parse(stream: &mut TokenStream) -> (r: Result<Self, ParseError>)
        ensures
            ({
                let sig = next_sig(
                    old(stream).spec_tokens(),
                    old(stream).spec_cursor(),
                    old(stream).spec_range_end(),
                );
                let matched = sig is Some && old(stream).spec_tokens()[sig->0].value@ is LBrace;
                &&& r is Ok <==> matched
                &&& matched ==> final(stream).spec_tokens() == old(stream).spec_tokens()
                    && final(stream).spec_range_start() == old(stream).spec_range_start()
                    && final(stream).spec_range_end() == old(stream).spec_range_end()
                    && final(stream).spec_cursor() == sig->0 + 1
            }),
    {
        match stream.next() {
            Some(tok) => match tok.value {
                Token::LBrace => Ok(LBraceToken),
                other => Err(
                    ParseError::Expected { expect: "{", found: token_text(&other) },
                ),
            },
            None => Err(ParseError::Empty { expect: "{" }),
        }
    }
}

/// The `}` token.
#[derive(Debug, Clone, Copy, PartialEq, Eq, Structural)]
pub struct RBraceToken;

impl RBraceToken {
    /// A fresh token value.
    pub fn new() -> (r: RBraceToken)
        ensures
            r == RBraceToken,
    {
        RBraceToken
    }

    /// The token enum value this construct stands for.
    pub fn token(&self) -> (t: Token)
        ensures
            t@ == TokenV::RBrace,
    {
        Token::RBrace
    }

    /// The expected-fragment text for diagnostics.
    pub fn fmt() -> &'static str {
        "}"
    }
}

impl Default for RBraceToken {
    /// A fresh token value.
    fn default() -> (r: RBraceToken)
        ensures
            r == RBraceToken,
    {
        RBraceToken
    }
}

impl Diagnostic for RBraceToken {
    fn fmt() -> &'static str {
        "}"
    }
}

impl Peek for RBraceToken {
    open spec fn spec_is(tok: TokenV) -> bool {
        tok is RBrace
    }

    fn is(token: &Token) -> (b: bool) {
        matches!(token, Token::RBrace)
    }
}

impl Parse for RBraceToken {
    /// Consumes the next significant token exactly when it is `}`,
    /// advancing past it; anything else is an error.
    fn parse(stream: &mut TokenStream) -> (r: Result<Self, ParseError>)
        ensures
            ({
                let sig = next_sig(
                    old(stream).spec_tokens(),
                    old(stream).spec_cursor(),
                    old(stream).spec_range_end(),
                );
                let matched = sig is Some && old(stream).spec_tokens()[sig->0].value@ is RBrace;
                &&& r is Ok <==> matched
                &&& matched ==> final(stream).spec_tokens() == old(stream).spec_tokens()
                    && final(stream).spec_range_start() == old(stream).spec_range_start()
                    && final(stream).spec_range_end() == old(stream).spec_range_end()
                    && final(stream).spec_cursor() == sig->0 + 1
            }),
    {
        match stream.next() {
            Some(tok) => match tok.value {
                Token::RBrace => Ok(RBraceToken),
                other => Err(
                    ParseError::Expected { expect: "}", found: token_text(&other) },
                ),
            },
            None => Err(ParseError::Empty { expect: "}" }),
        }
    }
}

/// The `(` token.
#[derive(Debug, Clone, Copy, PartialEq, Eq, Structural)]
pub struct LParenToken;

impl LParenToken {
    /// A fresh token value.
    pub fn new() -> (r: LParenToken)
        ensures
            r == LParenToken,
    {
        LParenToken
    }

    /// The token enum value this construct stands for.
    pub fn token(&self) -> (t: Token)
        ensures
            t@ == TokenV::LParen,
    {
        Token::LParen
    }

    /// The expected-fragment text for diagnostics.
    pub fn fmt() -> &'static str {
        "("
    }
}

impl Default for LParenToken {
    /// A fresh token value.
    fn default() -> (r: LParenToken)
        ensures
            r == LParenToken,
    {
        LParenToken
    }
}

impl Diagnostic for LParenToken {
    fn fmt() -> &'static str {
        "("
    }
}

impl Peek for LParenToken {
    open spec fn spec_is(tok: TokenV) -> bool {
        tok is LParen
    }

    fn is(token: &Token) -> (b: bool) {
        matches!(token, Token::LParen)
    }
}

impl Parse for LParenToken {
    /// Consumes the next significant token exactly when it is `(`,
    /// advancing past it; anything else is an error.
    fn parse(stream: &mut TokenStream) -> (r: Result<Self, ParseError>)
        ensures
            ({
                let sig = next_sig(
                    old(stream).spec_tokens(),
                    old(stream).spec_cursor(),
                    old(stream).spec_range_end(),
                );
                let matched = sig is Some && old(stream).spec_tokens()[sig->0].value@ is LParen;
                &&& r is Ok <==> matched
                &&& matched ==> final(stream).spec_tokens() == old(stream).spec_tokens()
                    && final(stream).spec_range_start() == old(stream).spec_range_start()
                    && final(stream).spec_range_end() == old(stream).spec_range_end()
                    && final(stream).spec_cursor() == sig->0 + 1
            }),
    {
        match stream.next() {
            Some(tok) => match tok.value {
                Token::LParen => Ok(LParenToken),
                other => Err(
                    ParseError::Expected { expect: "(", found: token_text(&other) },
                ),
            },
            None => Err(ParseError::Empty { expect: "(" }),
        }
    }
}

/// The `)` token.
#[derive(Debug, Clone, Copy, PartialEq, Eq, Structural)]
pub struct RParenToken;

impl RParenToken {
    /// A fresh token value.
    pub fn new() -> (r: RParenToken)
        ensures
            r == RParenToken,
    {
        RParenToken
    }

    /// The token enum value this construct stands for.
    pub fn token(&self) -> (t: Token)
        ensures
            t@ == TokenV::RParen,
    {
        Token::RParen
    }

    /// The expected-fragment text for diagnostics.
    pub fn fmt() -> &'static str {
        ")"
    }
}

impl Default for RParenToken {
    /// A fresh token value.
    fn default() -> (r: RParenToken)
        ensures
            r == RParenToken,
    {
        RParenToken
    }
}

impl Diagnostic for RParenToken {
    fn fmt() -> &'static str {
        ")"
    }
}

impl Peek for RParenToken {
    open spec fn spec_is(tok: TokenV) -> bool {
        tok is RParen
    }

    fn is(token: &Token) -> (b: bool) {
        matches!(token, Token::RParen)
    }
}

impl Parse for RParenToken {
    /// Consumes the next significant token exactly when it is `)`,
    /// advancing past it; anything else is an error.
    fn parse(stream: &mut TokenStream) -> (r: Result<Self, ParseError>)
        ensures
            ({
                let sig = next_sig(
                    old(stream).spec_tokens(),
                    old(stream).spec_cursor(),
                    old(stream).spec_range_end(),
                );
                let matched = sig is Some && old(stream).spec_tokens()[sig->0].value@ is RParen;
                &&& r is Ok <==> matched
                &&& matched ==> final(stream).spec_tokens() == old(stream).spec_tokens()
                    && final(stream).spec_range_start() == old(stream).spec_range_start()
                    && final(stream).spec_range_end() == old(stream).spec_range_end()
                    && final(stream).spec_cursor() == sig->0 + 1
            }),
    {
        match stream.next() {
            Some(tok) => match tok.value {
                Token::RParen => Ok(RParenToken),
                other => Err(
                    ParseError::Expected { expect: ")", found: token_text(&other) },
                ),
            },
            None => Err(ParseError::Empty { expect: ")" }),
        }
    }
}

/// The `[` token.
#[derive(Debug, Clone, Copy, PartialEq, Eq, Structural)]
pub struct LBracketToken;

impl LBracketToken {
    /// A fresh token value.
    pub fn new() -> (r: LBracketToken)
        ensures
            r == LBracketToken,
    {
        LBracketToken
    }

    /// The token enum value this construct stands for.
    pub fn token(&self) -> (t: Token)
        ensures
            t@ == TokenV::LBracket,
    {
        Token::LBracket
    }

    /// The expected-fragment text for diagnostics.
    pub fn fmt() -> &'static str {
        "["
    }
}

impl Default for LBracketToken {
    /// A fresh token value.
    fn default() -> (r: LBracketToken)
        ensures
            r == LBracketToken,
    {
        LBracketToken
    }
}

impl Diagnostic for LBracketToken {
    fn fmt() -> &'static str {
        "["
    }
}

impl Peek for LBracketToken {
    open spec fn spec_is(tok: TokenV) -> bool {
        tok is LBracket
    }

    fn is(token: &Token) -> (b: bool) {
        matches!(token, Token::LBracket)
    }
}

impl Parse for LBracketToken {
    /// Consumes the next significant token exactly when it is `[`,
    /// advancing past it; anything else is an error.
    fn parse(stream: &mut TokenStream) -> (r: Result<Self, ParseError>)
        ensures
            ({
                let sig = next_sig(
                    old(stream).spec_tokens(),
                    old(stream).spec_cursor(),
                    old(stream).spec_range_end(),
                );
                let matched = sig is Some && old(stream).spec_tokens()[sig->0].value@ is LBracket;
                &&& r is Ok <==> matched
                &&& matched ==> final(stream).spec_tokens() == old(stream).spec_tokens()
                    && final(stream).spec_range_start() == old(stream).spec_range_start()
                    && final(stream).spec_range_end() == old(stream).spec_range_end()
                    && final(stream).spec_cursor() == sig->0 + 1
            }),
    {
        match stream.next() {
            Some(tok) => match tok.value {
                Token::LBracket => Ok(LBracketToken),
                other => Err(
                    ParseError::Expected { expect: "[", found: token_text(&other) },
                ),
            },
            None => Err(ParseError::Empty { expect: "[" }),
        }
    }
}

/// The `]` token.
#[derive(Debug, Clone, Copy, PartialEq, Eq, Structural)]
pub struct RBracketToken;

impl RBracketToken {
    /// A fresh token value.
    pub fn new() -> (r: RBracketToken)
        ensures
            r == RBracketToken,
    {
        RBracketToken
    }

    /// The token enum value this construct stands for.
    pub fn token(&self) -> (t: Token)
        ensures
            t@ == TokenV::RBracket,
    {
        Token::RBracket
    }

    /// The expected-fragment text for diagnostics.
    pub fn fmt() -> &'static str {
        "]"
    }
}

impl Default for RBracketToken {
    /// A fresh token value.
    fn default() -> (r: RBracketToken)
        ensures
            r == RBracketToken,
    {
        RBracketToken
    }
}

impl Diagnostic for RBracketToken {
    fn fmt() -> &'static str {
        "]"
    }
}

impl Peek for RBracketToken {
    open spec fn spec_is(tok: TokenV) -> bool {
        tok is RBracket
    }

    fn is(token: &Token) -> (b: bool) {
        matches!(token, Token::RBracket)
    }
}

impl Parse for RBracketToken {
    /// Consumes the next significant token exactly when it is `]`,
    /// advancing past it; anything else is an error.
    fn parse(stream: &mut TokenStream) -> (r: Result<Self, ParseError>)
        ensures
            ({
                let sig = next_sig(
                    old(stream).spec_tokens(),
                    old(stream).spec_cursor(),
                    old(stream).spec_range_end(),
                );
                let matched = sig is Some && old(stream).spec_tokens()[sig->0].value@ is RBracket;
                &&& r is Ok <==> matched
                &&& matched ==> final(stream).spec_tokens() == old(stream).spec_tokens()
                    && final(stream).spec_range_start() == old(stream).spec_range_start()
                    && final(stream).spec_range_end() == old(stream).spec_range_end()
                    && final(stream).spec_cursor() == sig->0 + 1
            }),
    {
        match stream.next() {
            Some(tok) => match tok.value {
                Token::RBracket => Ok(RBracketToken),
                other => Err(
                    ParseError::Expected { expect: "]", found: token_text(&other) },
                ),
            },
            None => Err(ParseError::Empty { expect: "]" }),
        }
    }
}

/// The `:` token.
#[derive(Debug, Clone, Copy, PartialEq, Eq, Structural)]
pub struct ColonToken;

impl ColonToken {
    /// A fresh token value.
    pub fn new() -> (r: ColonToken)
        ensures
            r == ColonToken,
    {
        ColonToken
    }

    /// The token enum value this construct stands for.
    pub fn token(&self) -> (t: Token)
        ensures
            t@ == TokenV::Colon,
    {
        Token::Colon
    }

    /// The expected-fragment text for diagnostics.
    pub fn fmt() -> &'static str {
        ":"
    }
}

impl Default for ColonToken {
    /// A fresh token value.
    fn default() -> (r: ColonToken)
        ensures
            r == ColonToken,
    {
        ColonToken
    }
}

impl Diagnostic for ColonToken {
    fn fmt() -> &'static str {
        ":"
    }
}

impl Peek for ColonToken {
    open spec fn spec_is(tok: TokenV) -> bool {
        tok is Colon
    }

    fn is(token: &Token) -> (b: bool) {
        matches!(token, Token::Colon)
    }
}

impl Parse for ColonToken {
    /// Consumes the next significant token exactly when it is `:`,
    /// advancing past it; anything else is an error.
    fn parse(stream: &mut TokenStream) -> (r: Result<Self, ParseError>)
        ensures
            ({
                let sig = next_sig(
                    old(stream).spec_tokens(),
                    old(stream).spec_cursor(),
                    old(stream).spec_range_end(),
                );
                let matched = sig is Some && old(stream).spec_tokens()[sig->0].value@ is Colon;
                &&& r is Ok <==> matched
                &&& matched ==> final(stream).spec_tokens() == old(stream).spec_tokens()
                    && final(stream).spec_range_start() == old(stream).spec_range_start()
                    && final(stream).spec_range_end() == old(stream).spec_range_end()
                    && final(stream).spec_cursor() == sig->0 + 1
            }),
    {
        match stream.next() {
            Some(tok) => match tok.value {
                Token::Colon => Ok(ColonToken),
                other => Err(
                    ParseError::Expected { expect: ":", found: token_text(&other) },
                ),
            },
            None => Err(ParseError::Empty { expect: ":" }),
        }
    }
}

/// The `,` token.
#[derive(Debug, Clone, Copy, PartialEq, Eq, Structural)]
pub struct CommaToken;

impl CommaToken {
    /// A fresh token value.
    pub fn new() -> (r: CommaToken)
        ensures
            r == CommaToken,
    {
        CommaToken
    }

    /// The token enum value this construct stands for.
    pub fn token(&self) -> (t: Token)
        ensures
            t@ == TokenV::Comma,
    {
        Token::Comma
    }

    /// The expected-fragment text for diagnostics.
    pub fn fmt() -> &'static str {
        ","
    }
}

impl Default for CommaToken {
    /// A fresh token value.
    fn default() -> (r: CommaToken)
        ensures
            r == CommaToken,
    {
        CommaToken
    }
}

impl Diagnostic for CommaToken {
    fn fmt() -> &'static str {
        ","
    }
}

impl Peek for CommaToken {
    open spec fn spec_is(tok: TokenV) -> bool {
        tok is Comma
    }

    fn is(token: &Token) -> (b: bool) {
        matches!(token, Token::Comma)
    }
}

impl Parse for CommaToken {
    /// Consumes the next significant token exactly when it is `,`,
    /// advancing past it; anything else is an error.
    fn parse(stream: &mut TokenStream) -> (r: Result<Self, ParseError>)
        ensures
            ({
                let sig = next_sig(
                    old(stream).spec_tokens(),
                    old(stream).spec_cursor(),
                    old(stream).spec_range_end(),
                );
                let matched = sig is Some && old(stream).spec_tokens()[sig->0].value@ is Comma;
                &&& r is Ok <==> matched
                &&& matched ==> final(stream).spec_tokens() == old(stream).spec_tokens()
                    && final(stream).spec_range_start() == old(stream).spec_range_start()
                    && final(stream).spec_range_end() == old(stream).spec_range_end()
                    && final(stream).spec_cursor() == sig->0 + 1
            }),
    {
        match stream.next() {
            Some(tok) => match tok.value {
                Token::Comma => Ok(CommaToken),
                other => Err(
                    ParseError::Expected { expect: ",", found: token_text(&other) },
                ),
            },
            None => Err(ParseError::Empty { expect: "," }),
        }
    }
}

/// The `;` token.
#[derive(Debug, Clone, Copy, PartialEq, Eq, Structural)]
pub struct SemiToken;

impl SemiToken {
    /// A fresh token value.
    pub fn new() -> (r: SemiToken)
        ensures
            r == SemiToken,
    {
        SemiToken
    }

    /// The token enum value this construct stands for.
    pub fn token(&self) -> (t: Token)
        ensures
            t@ == TokenV::Semi,
    {
        Token::Semi
    }

    /// The expected-fragment text for diagnostics.
    pub fn fmt() -> &'static str {
        ";"
    }
}

impl Default for SemiToken {
    /// A fresh token value.
    fn default() -> (r: SemiToken)
        ensures
            r == SemiToken,
    {
        SemiToken
    }
}

impl Diagnostic for SemiToken {
    fn fmt() -> &'static str {
        ";"
    }
}

impl Peek for SemiToken {
    open spec fn spec_is(tok: TokenV) -> bool {
        tok is Semi
    }

    fn is(token: &Token) -> (b: bool) {
        matches!(token, Token::Semi)
    }
}

impl Parse for SemiToken {
    /// Consumes the next significant token exactly when it is `;`,
    /// advancing past it; anything else is an error.
    fn parse(stream: &mut TokenStream) -> (r: Result<Self, ParseError>)
        ensures
            ({
                let sig = next_sig(
                    old(stream).spec_tokens(),
                    old(stream).spec_cursor(),
                    old(stream).spec_range_end(),
                );
                let matched = sig is Some && old(stream).spec_tokens()[sig->0].value@ is Semi;
                &&& r is Ok <==> matched
                &&& matched ==> final(stream).spec_tokens() == old(stream).spec_tokens()
                    && final(stream).spec_range_start() == old(stream).spec_range_start()
                    && final(stream).spec_range_end() == old(stream).spec_range_end()
                    && final(stream).spec_cursor() == sig->0 + 1
            }),
    {
        match stream.next() {
            Some(tok) => match tok.value {
                Token::Semi => Ok(SemiToken),
                other => Err(
                    ParseError::Expected { expect: ";", found: token_text(&other) },
                ),
            },
            None => Err(ParseError::Empty { expect: ";" }),
        }
    }
}

/// The `->` token.
#[derive(Debug, Clone, Copy, PartialEq, Eq, Structural)]
pub struct ArrowToken;

impl ArrowToken {
    /// A fresh token value.
    pub fn new() -> (r: ArrowToken)
        ensures
            r == ArrowToken,
    {
        ArrowToken
    }

    /// The token enum value this construct stands for.
    pub fn token(&self) -> (t: Token)
        ensures
            t@ == TokenV::Arrow,
    {
        Token::Arrow
    }

    /// The expected-fragment text for diagnostics.
    pub fn fmt() -> &'static str {
        "->"
    }
}

impl Default for ArrowToken {
    /// A fresh token value.
    fn default() -> (r: ArrowToken)
        ensures
            r == ArrowToken,
    {
        ArrowToken
    }
}

impl Diagnostic for ArrowToken {
    fn fmt() -> &'static str {
        "->"
    }
}

impl Peek for ArrowToken {
    open spec fn spec_is(tok: TokenV) -> bool {
        tok is Arrow
    }

    fn is(token: &Token) -> (b: bool) {
        matches!(token, Token::Arrow)
    }
}

impl Parse for ArrowToken {
    /// Consumes the next significant token exactly when it is `->`,
    /// advancing past it; anything else is an error.
    fn parse(stream: &mut TokenStream) -> (r: Result<Self, ParseError>)
        ensures
            ({
                let sig = next_sig(
                    old(stream).spec_tokens(),
                    old(stream).spec_cursor(),
                    old(stream).spec_range_end(),
                );
                let matched = sig is Some && old(stream).spec_tokens()[sig->0].value@ is Arrow;
                &&& r is Ok <==> matched
                &&& matched ==> final(stream).spec_tokens() == old(stream).spec_tokens()
                    && final(stream).spec_range_start() == old(stream).spec_range_start()
                    && final(stream).spec_range_end() == old(stream).spec_range_end()
                    && final(stream).spec_cursor() == sig->0 + 1
            }),
    {
        match stream.next() {
            Some(tok) => match tok.value {
                Token::Arrow => Ok(ArrowToken),
                other => Err(
                    ParseError::Expected { expect: "->", found: token_text(&other) },
                ),
            },
            None => Err(ParseError::Empty { expect: "->" }),
        }
    }
}

/// A identifier token, holding its value.
#[derive(Debug, Clone, PartialEq)]
pub struct IdentToken(pub String);

impl IdentToken {
    /// Wraps the value.
    pub fn new(value: String) -> (r: IdentToken)
        ensures
            r.0@ == value@,
    {
        IdentToken(value)
    }

    /// The token enum value this construct stands for.
    pub fn token(&self) -> (t: Token)
        ensures
            t@ == TokenV::Ident(self.0@),
    {
        Token::Ident(self.0.clone())
    }

    /// The expected-fragment text for diagnostics.
    pub fn fmt() -> &'static str {
        "identifier"
    }

    /// Unwraps the value.
    pub fn into_inner(self) -> (r: String)
        ensures
            r == self.0,
    {
        self.0
    }
}

impl Default for IdentToken {
    /// The token holding the empty or zero value.
    fn default() -> (r: IdentToken)
        ensures
            r.0@ == Seq::<char>::empty(),
    {
        IdentToken(String::new())
    }
}

impl Diagnostic for IdentToken {
    fn fmt() -> &'static str {
        "identifier"
    }
}

impl Peek for IdentToken {
    open spec fn spec_is(tok: TokenV) -> bool {
        tok is Ident
    }

    fn is(token: &Token) -> (b: bool) {
        matches!(token, Token::Ident(_))
    }
}

impl Parse for IdentToken {
    /// Consumes the next significant token exactly when it is a identifier,
    /// advancing past it and handing its payload out; anything else is an
    /// error.
    fn parse(stream: &mut TokenStream) -> (r: Result<Self, ParseError>)
        ensures
            ({
                let sig = next_sig(
                    old(stream).spec_tokens(),
                    old(stream).spec_cursor(),
                    old(stream).spec_range_end(),
                );
                let matched = sig is Some && old(stream).spec_tokens()[sig->0].value@ is Ident;
                &&& r is Ok <==> matched
                &&& matched ==> final(stream).spec_tokens() == old(stream).spec_tokens()
                    && final(stream).spec_range_start() == old(stream).spec_range_start()
                    && final(stream).spec_range_end() == old(stream).spec_range_end()
                    && final(stream).spec_cursor() == sig->0 + 1
                    && r->Ok_0.0@ == old(stream).spec_tokens()[sig->0].value@->Ident_0
            }),
    {
        match stream.next() {
            Some(tok) => match tok.value {
                Token::Ident(v) => Ok(IdentToken(v)),
                other => Err(
                    ParseError::Expected { expect: "identifier", found: token_text(&other) },
                ),
            },
            None => Err(ParseError::Empty { expect: "identifier" }),
        }
    }
}

/// A number token, holding its value.
#[derive(Debug, Clone, Copy, PartialEq, Eq, Structural)]
pub struct NumberToken(pub i64);

impl NumberToken {
    /// Wraps the value.
    pub fn new(value: i64) -> (r: NumberToken)
        ensures
            r.0 == value,
    {
        NumberToken(value)
    }

    /// The token enum value this construct stands for.
    pub fn token(&self) -> (t: Token)
        ensures
            t@ == TokenV::Number(self.0 as int),
    {
        Token::Number(self.0)
    }

    /// The expected-fragment text for diagnostics.
    pub fn fmt() -> &'static str {
        "number"
    }

    /// Unwraps the value.
    pub fn into_inner(self) -> (r: i64)
        ensures
            r == self.0,
    {
        self.0
    }
}

impl Default for NumberToken {
    /// The token holding the empty or zero value.
    fn default() -> (r: NumberToken)
        ensures
            r.0 == 0,
    {
        NumberToken(0)
    }
}

impl Diagnostic for NumberToken {
    fn fmt() -> &'static str {
        "number"
    }
}

impl Peek for NumberToken {
    open spec fn spec_is(tok: TokenV) -> bool {
        tok is Number
    }

    fn is(token: &Token) -> (b: bool) {
        matches!(token, Token::Number(_))
    }
}

impl Parse for NumberToken {
    /// Consumes the next significant token exactly when it is a number,
    /// advancing past it and handing its payload out; anything else is an
    /// error.
    fn parse(stream: &mut TokenStream) -> (r: Result<Self, ParseError>)
        ensures
            ({
                let sig = next_sig(
                    old(stream).spec_tokens(),
                    old(stream).spec_cursor(),
                    old(stream).spec_range_end(),
                );
                let matched = sig is Some && old(stream).spec_tokens()[sig->0].value@ is Number;
                &&& r is Ok <==> matched
                &&& matched ==> final(stream).spec_tokens() == old(stream).spec_tokens()
                    && final(stream).spec_range_start() == old(stream).spec_range_start()
                    && final(stream).spec_range_end() == old(stream).spec_range_end()
                    && final(stream).spec_cursor() == sig->0 + 1
                    && r->Ok_0.0 as int == old(stream).spec_tokens()[sig->0].value@->Number_0
            }),
    {
        match stream.next() {
            Some(tok) => match tok.value {
                Token::Number(v) => Ok(NumberToken(v)),
                other => Err(
                    ParseError::Expected { expect: "number", found: token_text(&other) },
                ),
            },
            None => Err(ParseError::Empty { expect: "number" }),
        }
    }
}

/// A string token, holding its value.
#[derive(Debug, Clone, PartialEq)]
pub struct StringToken(pub String);

impl StringToken {
    /// Wraps the value.
    pub fn new(value: String) -> (r: StringToken)
        ensures
            r.0@ == value@,
    {
        StringToken(value)
    }

    /// The token enum value this construct stands for.
    pub fn token(&self) -> (t: Token)
        ensures
            t@ == TokenV::Str(self.0@),
    {
        Token::Str(self.0.clone())
    }

    /// The expected-fragment text for diagnostics.
    pub fn fmt() -> &'static str {
        "string"
    }

    /// Unwraps the value.
    pub fn into_inner(self) -> (r: String)
        ensures
            r == self.0,
    {
        self.0
    }
}

impl Default for StringToken {
    /// The token holding the empty or zero value.
    fn default() -> (r: StringToken)
        ensures
            r.0@ == Seq::<char>::empty(),
    {
        StringToken(String::new())
    }
}

impl Diagnostic for StringToken {
    fn fmt() -> &'static str {
        "string"
    }
}

impl Peek for StringToken {
    open spec fn spec_is(tok: TokenV) -> bool {
        tok is Str
    }

    fn is(token: &Token) -> (b: bool) {
        matches!(token, Token::Str(_))
    }
}

impl Parse for StringToken {
    /// Consumes the next significant token exactly when it is a string,
    /// advancing past it and handing its payload out; anything else is an
    /// error.
    fn parse(stream: &mut TokenStream) -> (r: Result<Self, ParseError>)
        ensures
            ({
                let sig = next_sig(
                    old(stream).spec_tokens(),
                    old(stream).spec_cursor(),
                    old(stream).spec_range_end(),
                );
                let matched = sig is Some && old(stream).spec_tokens()[sig->0].value@ is Str;
                &&& r is Ok <==> matched
                &&& matched ==> final(stream).spec_tokens() == old(stream).spec_tokens()
                    && final(stream).spec_range_start() == old(stream).spec_range_start()
                    && final(stream).spec_range_end() == old(stream).spec_range_end()
                    && final(stream).spec_cursor() == sig->0 + 1
                    && r->Ok_0.0@ == old(stream).spec_tokens()[sig->0].value@->Str_0
            }),
    {
        match stream.next() {
            Some(tok) => match tok.value {
                Token::Str(v) => Ok(StringToken(v)),
                other => Err(
                    ParseError::Expected { expect: "string", found: token_text(&other) },
                ),
            },
            None => Err(ParseError::Empty { expect: "string" }),
        }
    }
}

impl ToTokens for KwStructToken {
    /// The token's exact source text.
    open spec fn spec_text(&self) -> Seq<char> {
        spec_token_text(TokenV::KwStruct)
    }

    /// Writes the token's exact source text.
    fn write(&self, printer: &mut Printer) {
        printer.token(&self.token());
    }
}

impl ToTokens for KwEnumToken {
    /// The token's exact source text.
    open spec fn spec_text(&self) -> Seq<char> {
        spec_token_text(TokenV::KwEnum)
    }

    /// Writes the token's exact source text.
    fn write(&self, printer: &mut Printer) {
        printer.token(&self.token());
    }
}

impl ToTokens for KwFnToken {
    /// The token's exact source text.
    open spec fn spec_text(&self) -> Seq<char> {
        spec_token_text(TokenV::KwFn)
    }

    /// Writes the token's exact source text.
    fn write(&self, printer: &mut Printer) {
        printer.token(&self.token());
    }
}

impl ToTokens for LBraceToken {
    /// The token's exact source text.
    open spec fn spec_text(&self) -> Seq<char> {
        spec_token_text(TokenV::LBrace)
    }

    /// Writes the token's exact source text.
    fn write(&self, printer: &mut Printer) {
        printer.token(&self.token());
    }
}

impl ToTokens for RBraceToken {
    /// The token's exact source text.
    open spec fn spec_text(&self) -> Seq<char> {
        spec_token_text(TokenV::RBrace)
    }

    /// Writes the token's exact source text.
    fn write(&self, printer: &mut Printer) {
        printer.token(&self.token());
    }
}

impl ToTokens for LParenToken {
    /// The token's exact source text.
    open spec fn spec_text(&self) -> Seq<char> {
        spec_token_text(TokenV::LParen)
    }

    /// Writes the token's exact source text.
    fn write(&self, printer: &mut Printer) {
        printer.token(&self.token());
    }
}

impl ToTokens for RParenToken {
    /// The token's exact source text.
    open spec fn spec_text(&self) -> Seq<char> {
        spec_token_text(TokenV::RParen)
    }

    /// Writes the token's exact source text.
    fn write(&self, printer: &mut Printer) {
        printer.token(&self.token());
    }
}

impl ToTokens for LBracketToken {
    /// The token's exact source text.
    open spec fn spec_text(&self) -> Seq<char> {
        spec_token_text(TokenV::LBracket)
    }

    /// Writes the token's exact source text.
    fn write(&self, printer: &mut Printer) {
        printer.token(&self.token());
    }
}

impl ToTokens for RBracketToken {
    /// The token's exact source text.
    open spec fn spec_text(&self) -> Seq<char> {
        spec_token_text(TokenV::RBracket)
    }

    /// Writes the token's exact source text.
    fn write(&self, printer: &mut Printer) {
        printer.token(&self.token());
    }
}

impl ToTokens for ColonToken {
    /// The token's exact source text.
    open spec fn spec_text(&self) -> Seq<char> {
        spec_token_text(TokenV::Colon)
    }

    /// Writes the token's exact source text.
    fn write(&self, printer: &mut Printer) {
        printer.token(&self.token());
    }
}

impl ToTokens for CommaToken {
    /// The token's exact source text.
    open spec fn spec_text(&self) -> Seq<char> {
        spec_token_text(TokenV::Comma)
    }

    /// Writes the token's exact source text.
    fn write(&self, printer: &mut Printer) {
        printer.token(&self.token());
    }
}

impl ToTokens for SemiToken {
    /// The token's exact source text.
    open spec fn spec_text(&self) -> Seq<char> {
        spec_token_text(TokenV::Semi)
    }

    /// Writes the token's exact source text.
    fn write(&self, printer: &mut Printer) {
        printer.token(&self.token());
    }
}

impl ToTokens for ArrowToken {
    /// The token's exact source text.
    open spec fn spec_text(&self) -> Seq<char> {
        spec_token_text(TokenV::Arrow)
    }

    /// Writes the token's exact source text.
    fn write(&self, printer: &mut Printer) {
        printer.token(&self.token());
    }
}

impl ToTokens for IdentToken {
    /// The token's exact source text.
    open spec fn spec_text(&self) -> Seq<char> {
        spec_token_text(TokenV::Ident(self.0@))
    }

    /// Writes the token's exact source text.
    fn write(&self, printer: &mut Printer) {
        printer.token(&self.token());
    }
}

impl ToTokens for NumberToken {
    /// The token's exact source text.
    open spec fn spec_text(&self) -> Seq<char> {
        spec_token_text(TokenV::Number(self.0 as int))
    }

    /// Writes the token's exact source text.
    fn write(&self, printer: &mut Printer) {
        printer.token(&self.token());
    }
}

impl ToTokens for StringToken {
    /// The token's exact source text.
    open spec fn spec_text(&self) -> Seq<char> {
        spec_token_text(TokenV::Str(self.0@))
    }

    /// Writes the token's exact source text.
    fn write(&self, printer: &mut Printer) {
        printer.token(&self.token());
    }
}

} // verus!
