//! The concrete token alphabet of the kit grammar, with its trivia
//! classification and exact text rendering.

use vstd::prelude::*;
use vstd::string::StringExecFns;
use crate::text::{push_char, push_decimal, spec_decimal};

verus! {

/// A lexical token of the kit grammar.
///
/// The grammar covers a small record language: keywords, identifiers,
/// integers, double-quoted strings, punctuation, matched delimiters, and
/// trivia (spaces, tabs, and newlines).
#[derive(Debug, Clone, PartialEq)]
pub enum Token {
    /// One space or tab character.
    Whitespace,
    /// One line break: `\n` or `\r\n`.
    Newline,
    /// The keyword `struct`.
    KwStruct,
    /// The keyword `enum`.
    KwEnum,
    /// The keyword `fn`.
    KwFn,
    /// `{`
    LBrace,
    /// `}`
    RBrace,
    /// `(`
    LParen,
    /// `)`
    RParen,
    /// `[`
    LBracket,
    /// `]`
    RBracket,
    /// `:`
    Colon,
    /// `,`
    Comma,
    /// `;`
    Semi,
    /// `->`
    Arrow,
    /// An identifier: `[A-Za-z_][A-Za-z0-9_]*`, other than a keyword.
    Ident(String),
    /// An integer literal, with an optional leading minus sign.
    Number(i64),
    /// A double-quoted string literal; the payload excludes the quotes.
    Str(String),
}

/// The mathematical value of a token: payloads become sequences and
/// integers, so that two tokens can be compared in specifications.
pub enum TokenV {
    Whitespace,
    Newline,
    KwStruct,
    KwEnum,
    KwFn,
    LBrace,
    RBrace,
    LParen,
    RParen,
    LBracket,
    RBracket,
    Colon,
    Comma,
    Semi,
    Arrow,
    Ident(Seq<char>),
    Number(int),
    Str(Seq<char>),
}

impl View for Token {
    type V = TokenV;

    open spec fn view(&self) -> TokenV {
        match self {
            Token::Whitespace => TokenV::Whitespace,
            Token::Newline => TokenV::Newline,
            Token::KwStruct => TokenV::KwStruct,
            Token::KwEnum => TokenV::KwEnum,
            Token::KwFn => TokenV::KwFn,
            Token::LBrace => TokenV::LBrace,
            Token::RBrace => TokenV::RBrace,
            Token::LParen => TokenV::LParen,
            Token::RParen => TokenV::RParen,
            Token::LBracket => TokenV::LBracket,
            Token::RBracket => TokenV::RBracket,
            Token::Colon => TokenV::Colon,
            Token::Comma => TokenV::Comma,
            Token::Semi => TokenV::Semi,
            Token::Arrow => TokenV::Arrow,
            Token::Ident(s) => TokenV::Ident(s@),
            Token::Number(n) => TokenV::Number(*n as int),
            Token::Str(s) => TokenV::Str(s@),
        }
    }
}

/// Whether a token is trivia: spaces, tabs, and newlines are skipped by the
/// significant reading mode of the stream.
pub open spec fn spec_is_skip(t: TokenV) -> bool {
    t is Whitespace || t is Newline
}

/// Whether this token is in the stream's skip set (trivia).
pub fn is_skip_token(t: &Token) -> (b: bool)
    ensures
        b == spec_is_skip(t@),
{
    match t {
        Token::Whitespace | Token::Newline => true,
        _ => false,
    }
}

/// An exact copy of a token: the copy has the same mathematical value.
pub fn clone_token(t: &Token) -> (r: Token)
    ensures
        r@ == t@,
{
    match t {
        Token::Whitespace => Token::Whitespace,
        Token::Newline => Token::Newline,
        Token::KwStruct => Token::KwStruct,
        Token::KwEnum => Token::KwEnum,
        Token::KwFn => Token::KwFn,
        Token::LBrace => Token::LBrace,
        Token::RBrace => Token::RBrace,
        Token::LParen => Token::LParen,
        Token::RParen => Token::RParen,
        Token::LBracket => Token::LBracket,
        Token::RBracket => Token::RBracket,
        Token::Colon => Token::Colon,
        Token::Comma => Token::Comma,
        Token::Semi => Token::Semi,
        Token::Arrow => Token::Arrow,
        Token::Ident(s) => Token::Ident(s.clone()),
        Token::Number(n) => Token::Number(*n),
        Token::Str(s) => Token::Str(s.clone()),
    }
}

/// The decimal rendering of a signed integer.
pub open spec fn spec_signed_decimal(n: int) -> Seq<char> {
    if n >= 0 {
        spec_decimal(n as nat)
    } else {
        seq!['-'] + spec_decimal((-n) as nat)
    }
}

/// The exact source text a token renders to. A string literal renders with
/// its quotes, so rendering is the inverse of lexing.
pub open spec fn spec_token_text(t: TokenV) -> Seq<char> {
    match t {
        TokenV::Whitespace => " "@,
        TokenV::Newline => "\n"@,
        TokenV::KwStruct => "struct"@,
        TokenV::KwEnum => "enum"@,
        TokenV::KwFn => "fn"@,
        TokenV::LBrace => "{"@,
        TokenV::RBrace => "}"@,
        TokenV::LParen => "("@,
        TokenV::RParen => ")"@,
        TokenV::LBracket => "["@,
        TokenV::RBracket => "]"@,
        TokenV::Colon => ":"@,
        TokenV::Comma => ","@,
        TokenV::Semi => ";"@,
        TokenV::Arrow => "->"@,
        TokenV::Ident(s) => s,
        TokenV::Number(n) => spec_signed_decimal(n),
        TokenV::Str(s) => "\""@ + s + "\""@,
    }
}

/// Appends the exact source text of `t` to `out`.
pub fn push_token_text(out: &mut String, t: &Token)
    ensures
        final(out)@ == old(out)@ + spec_token_text(t@),
{
    proof {
        reveal_strlit(" ");
        reveal_strlit("\n");
        reveal_strlit("{");
        reveal_strlit("}");
        reveal_strlit("(");
        reveal_strlit(")");
        reveal_strlit("[");
        reveal_strlit("]");
        reveal_strlit(":");
        reveal_strlit(",");
        reveal_strlit(";");
        reveal_strlit("\"");
    }
    match t {
        Token::Whitespace => push_char(out, ' '),
        Token::Newline => push_char(out, '\n'),
        Token::KwStruct => push_str_text(out, "struct"),
        Token::KwEnum => push_str_text(out, "enum"),
        Token::KwFn => push_str_text(out, "fn"),
        Token::LBrace => push_char(out, '{'),
        Token::RBrace => push_char(out, '}'),
        Token::LParen => push_char(out, '('),
        Token::RParen => push_char(out, ')'),
        Token::LBracket => push_char(out, '['),
        Token::RBracket => push_char(out, ']'),
        Token::Colon => push_char(out, ':'),
        Token::Comma => push_char(out, ','),
        Token::Semi => push_char(out, ';'),
        Token::Arrow => push_str_text(out, "->"),
        Token::Ident(s) => push_str_text(out, s.as_str()),
        Token::Number(n) => push_signed_decimal(out, *n),
        Token::Str(s) => {
            push_char(out, '"');
            push_str_text(out, s.as_str());
            push_char(out, '"');
        },
    }
}

/// Appends `text` to `out`; a thin verified wrapper over string append.
fn push_str_text(out: &mut String, text: &str)
    ensures
        final(out)@ == old(out)@ + text@,
{
    out.append(text);
}

/// Appends the decimal rendering of a signed integer, minus sign included.
pub fn push_signed_decimal(out: &mut String, n: i64)
    ensures
        final(out)@ == old(out)@ + spec_signed_decimal(n as int),
{
    if n < 0 {
        push_char(out, '-');
        let magnitude: u64 = (-(n as i128)) as u64;
        push_decimal(out, magnitude);
    } else {
        push_decimal(out, n as u64);
    }
}

/// The source text of a token, as a fresh string.
pub fn token_text(t: &Token) -> (r: String)
    ensures
        r@ == spec_token_text(t@),
{
    let mut out = String::new();
    push_token_text(&mut out, t);
    out
}

} // verus!
