//! The hand-written lexer of the kit grammar, and the incremental lexer that
//! accumulates source chunks and lexes only the prefix that is safely
//! complete.
//!
//! The grammar is ASCII: keywords, identifiers, integers, double-quoted
//! strings without escapes or embedded line breaks, punctuation, and trivia.
//! Every produced span is absolute (offset against the logical input, not
//! the current chunk), spans tile the lexed input exactly, and consecutive
//! calls produce contiguous spans.

use vstd::prelude::*;
use vstd::string::{StrSliceExecFns, StringExecFns};
use crate::incremental::IncrementalLexer;
use crate::span::{RawSpan, Span, Spanned};
use crate::stream::SpannedToken;
use crate::token::{Token, TokenV};

verus! {

/// The ASCII bytes the lexer dispatches on.
pub const SPACE: u8 = 32;

pub const TAB: u8 = 9;

pub const LINE_FEED: u8 = 10;

pub const CARRIAGE_RETURN: u8 = 13;

pub const LEFT_BRACE: u8 = 123;

pub const RIGHT_BRACE: u8 = 125;

pub const LEFT_PAREN: u8 = 40;

pub const RIGHT_PAREN: u8 = 41;

pub const LEFT_BRACKET: u8 = 91;

pub const RIGHT_BRACKET: u8 = 93;

pub const COLON_BYTE: u8 = 58;

pub const COMMA_BYTE: u8 = 44;

pub const SEMI_BYTE: u8 = 59;

pub const MINUS_BYTE: u8 = 45;

pub const GREATER_BYTE: u8 = 62;

pub const DIGIT_ZERO: u8 = 48;

pub const DIGIT_NINE: u8 = 57;

pub const QUOTE: u8 = 34;

pub const LOWER_A: u8 = 97;

pub const LOWER_Z: u8 = 122;

pub const UPPER_A: u8 = 65;

pub const UPPER_Z: u8 = 90;

pub const UNDERSCORE: u8 = 95;

/// An error raised by the lexer.
#[derive(Debug, Clone, PartialEq, Eq)]
pub enum LexError {
    /// The input did not match any token of the grammar.
    Unknown,
    /// A particular fragment was expected but something else was found.
    Expected {
        /// What was expected.
        expect: &'static str,
        /// What was found instead.
        found: String,
    },
    /// A particular fragment was expected but the input ended.
    Empty {
        /// What was expected.
        expect: &'static str,
    },
}

/// The rendered message for each lexer error kind.
pub open spec fn spec_lex_error_message(e: LexError) -> Seq<char> {
    match e {
        LexError::Unknown => "unknown"@,
        LexError::Expected { expect, found } => "expected "@ + expect@ + ", found "@ + found@,
        LexError::Empty { expect } => "expected "@ + expect@ + ", found EOF"@,
    }
}

impl LexError {
    /// A human-readable message for this error.
    pub fn describe(&self) -> (r: String)
        ensures
            r@ == spec_lex_error_message(*self),
    {
        match self {
            LexError::Unknown => "unknown".to_owned(),
            LexError::Expected { expect, found } => {
                let mut s = "expected ".to_owned();
                s.append(expect);
                s.append(", found ");
                s.append(found.as_str());
                s
            },
            LexError::Empty { expect } => {
                let mut s = "expected ".to_owned();
                s.append(expect);
                s.append(", found EOF");
                s
            },
        }
    }
}

/// The first index at or after `j` whose character is not an ASCII digit.
pub open spec fn spec_scan_digits(s: Seq<char>, j: int) -> int
    decreases s.len() - j,
{
    if j < 0 || j >= s.len() {
        j
    } else if DIGIT_ZERO <= s[j] as u8 <= DIGIT_NINE {
        spec_scan_digits(s, j + 1)
    } else {
        j
    }
}

/// The first index at or after `j` whose character is not a word character.
pub open spec fn spec_scan_word(s: Seq<char>, j: int) -> int
    decreases s.len() - j,
{
    if j < 0 || j >= s.len() {
        j
    } else if (LOWER_A <= s[j] as u8 <= LOWER_Z) || (UPPER_A <= s[j] as u8 <= UPPER_Z) || (
    DIGIT_ZERO <= s[j] as u8 <= DIGIT_NINE) || s[j] as u8 == UNDERSCORE {
        spec_scan_word(s, j + 1)
    } else {
        j
    }
}

/// The closing quote at or after `j`, if the literal is terminated before a
/// line break or the end of input.
pub open spec fn spec_scan_string(s: Seq<char>, j: int) -> Option<int>
    decreases s.len() - j,
{
    if j < 0 || j >= s.len() {
        None
    } else if s[j] as u8 == QUOTE {
        Some(j)
    } else if s[j] as u8 == LINE_FEED {
        None
    } else {
        spec_scan_string(s, j + 1)
    }
}

/// The value of the digit run `[j, end)` accumulated onto `acc`, mirroring
/// the checked 64-bit arithmetic: `None` on overflow.
pub open spec fn spec_digits_value(s: Seq<char>, j: int, end: int, acc: int) -> Option<int>
    decreases end - j,
{
    if j >= end {
        Some(acc)
    } else {
        let d: int = if DIGIT_ZERO <= s[j] as u8 <= DIGIT_NINE {
            (s[j] as u8) - DIGIT_ZERO
        } else {
            0
        };
        if !(i64::MIN <= acc * 10 <= i64::MAX) {
            None
        } else if !(i64::MIN <= acc * 10 + d <= i64::MAX) {
            None
        } else {
            spec_digits_value(s, j + 1, end, acc * 10 + d)
        }
    }
}

/// The token a word spells: a keyword where it matches one, otherwise an
/// identifier.
pub open spec fn spec_word_token(w: Seq<char>) -> TokenV {
    if w == "struct"@ {
        TokenV::KwStruct
    } else if w == "enum"@ {
        TokenV::KwEnum
    } else if w == "fn"@ {
        TokenV::KwFn
    } else {
        TokenV::Ident(w)
    }
}

/// One token of the kit grammar starting exactly at `i`, with the index one
/// past it; `None` exactly when the input does not match the grammar there.
pub open spec fn spec_lex_token(s: Seq<char>, i: int) -> Option<(TokenV, int)> {
    if i < 0 || i >= s.len() {
        None
    } else {
        let b = s[i] as u8;
        if b == SPACE || b == TAB {
            Some((TokenV::Whitespace, i + 1))
        } else if b == LINE_FEED {
            Some((TokenV::Newline, i + 1))
        } else if b == CARRIAGE_RETURN {
            if i + 1 < s.len() && s[i + 1] as u8 == LINE_FEED {
                Some((TokenV::Newline, i + 2))
            } else {
                None
            }
        } else if b == LEFT_BRACE {
            Some((TokenV::LBrace, i + 1))
        } else if b == RIGHT_BRACE {
            Some((TokenV::RBrace, i + 1))
        } else if b == LEFT_PAREN {
            Some((TokenV::LParen, i + 1))
        } else if b == RIGHT_PAREN {
            Some((TokenV::RParen, i + 1))
        } else if b == LEFT_BRACKET {
            Some((TokenV::LBracket, i + 1))
        } else if b == RIGHT_BRACKET {
            Some((TokenV::RBracket, i + 1))
        } else if b == COLON_BYTE {
            Some((TokenV::Colon, i + 1))
        } else if b == COMMA_BYTE {
            Some((TokenV::Comma, i + 1))
        } else if b == SEMI_BYTE {
            Some((TokenV::Semi, i + 1))
        } else if b == MINUS_BYTE {
            if i + 1 < s.len() && s[i + 1] as u8 == GREATER_BYTE {
                Some((TokenV::Arrow, i + 2))
            } else if i + 1 < s.len() && DIGIT_ZERO <= s[i + 1] as u8 <= DIGIT_NINE {
                let j = spec_scan_digits(s, i + 1);
                match spec_digits_value(s, i + 1, j, 0) {
                    Some(v) => Some((TokenV::Number(-v), j)),
                    None => None,
                }
            } else {
                None
            }
        } else if DIGIT_ZERO <= b <= DIGIT_NINE {
            let j = spec_scan_digits(s, i + 1);
            match spec_digits_value(s, i, j, 0) {
                Some(v) => Some((TokenV::Number(v), j)),
                None => None,
            }
        } else if b == QUOTE {
            match spec_scan_string(s, i + 1) {
                Some(q) => Some((TokenV::Str(s.subrange(i + 1, q)), q + 1)),
                None => None,
            }
        } else if (LOWER_A <= b <= LOWER_Z) || (UPPER_A <= b <= UPPER_Z) || b == UNDERSCORE {
            let j = spec_scan_word(s, i + 1);
            Some((spec_word_token(s.subrange(i, j)), j))
        } else {
            None
        }
    }
}

/// The lexing relation of the kit grammar: the tokens of `s[i..]` with
/// spans offset by `base`, or `None` exactly when some position fails the
/// grammar. Lexing succeeds on precisely the inputs this accepts.
pub open spec fn spec_lex(s: Seq<char>, base: int, i: int) -> Option<Seq<(TokenV, Span)>>
    decreases s.len() - i,
{
    if i < 0 || i > s.len() {
        None
    } else if i == s.len() {
        Some(Seq::empty())
    } else {
        match spec_lex_token(s, i) {
            None => None,
            Some((t, j)) => if i < j <= s.len() {
                match spec_lex(s, base, j) {
                    Some(rest) => Some(
                        seq![
                            (
                                t,
                                Span::Known(
                                    RawSpan { start: (base + i) as usize, end: (base + j) as usize },
                                ),
                            )
                        ] + rest,
                    ),
                    None => None,
                }
            } else {
                None
            },
        }
    }
}

/// The safe split point of accumulated input: one past the last line
/// break, or 0 when there is none.
pub open spec fn spec_last_newline_end(s: Seq<char>) -> int
    decreases s.len(),
{
    if s.len() == 0 {
        0
    } else if s.last() as u8 == LINE_FEED {
        s.len() as int
    } else {
        spec_last_newline_end(s.drop_last())
    }
}

/// The safe split point always lies within the input.
pub proof fn lemma_last_newline_end_bounds(s: Seq<char>)
    ensures
        0 <= spec_last_newline_end(s) <= s.len(),
    decreases s.len(),
{
    if s.len() > 0 && !(s.last() as u8 == LINE_FEED) {
        lemma_last_newline_end_bounds(s.drop_last());
    }
}

/// The views of a sequence of spanned tokens: value view paired with span.
pub open spec fn token_views(ts: Seq<SpannedToken>) -> Seq<(TokenV, Span)> {
    Seq::new(ts.len(), |k: int| (ts[k].value@, ts[k].span))
}

/// Whether `toks` tiles the offset range `[lo, hi)` exactly: every span is
/// known and non-empty, the first starts at `lo`, each next token starts
/// where the previous one ended, and the last ends at `hi`.
pub open spec fn tokens_tile(toks: Seq<SpannedToken>, lo: int, hi: int) -> bool {
    &&& (toks.len() == 0 ==> lo == hi)
    &&& (toks.len() > 0 ==> toks[0].span.spec_start() == lo && toks[toks.len()
        - 1].span.spec_end() == hi)
    &&& (forall|k: int|
        0 <= k < toks.len() ==> (#[trigger] toks[k]).span is Known && toks[k].span.spec_start()
            < toks[k].span.spec_end())
    &&& (forall|k: int|
        0 <= k < toks.len() - 1 ==> (#[trigger] toks[k]).span.spec_end() == toks[k
            + 1].span.spec_start())
}

/// Appending one token that starts exactly at the previous end keeps the
/// tiling.
pub proof fn lemma_tile_push(toks: Seq<SpannedToken>, lo: int, hi: int, t: SpannedToken, hi2: int)
    requires
        tokens_tile(toks, lo, hi),
        t.span is Known,
        t.span.spec_start() == hi,
        t.span.spec_end() == hi2,
        hi < hi2,
    ensures
        tokens_tile(toks.push(t), lo, hi2),
{
    let r = toks.push(t);
    assert(r[r.len() - 1] == t);
    assert(forall|k: int| 0 <= k < toks.len() ==> r[k] == toks[k]);
}

/// Span monotonicity: in a tiled token sequence, both span starts and span
/// ends are non-decreasing with the token index. Every sequence the lexer
/// produces is tiled, so this holds of all lexer output.
pub proof fn lemma_span_monotonic(toks: Seq<SpannedToken>, lo: int, hi: int, i: int, j: int)
    requires
        tokens_tile(toks, lo, hi),
        0 <= i <= j < toks.len(),
    ensures
        toks[i].span.spec_start() <= toks[j].span.spec_start(),
        toks[i].span.spec_end() <= toks[j].span.spec_end(),
    decreases j - i,
{
    if i < j {
        lemma_span_monotonic(toks, lo, hi, i + 1, j);
    }
}

/// The first index at or after `j` whose character is not an ASCII digit.
fn scan_digits(s: &str, j: usize) -> (end: usize)
    requires
        s.is_ascii(),
        j <= s@.len(),
    ensures
        j <= end <= s@.len(),
        end == spec_scan_digits(s@, j as int),
    decreases s@.len() - j,
{
    let n = s.unicode_len();
    if j >= n {
        return j;
    }
    let b = s.get_ascii(j);
    if b >= DIGIT_ZERO && b <= DIGIT_NINE {
        scan_digits(s, j + 1)
    } else {
        j
    }
}

/// The first index at or after `j` whose character is not a word character
/// (ASCII letter, digit, or underscore).
fn scan_word(s: &str, j: usize) -> (end: usize)
    requires
        s.is_ascii(),
        j <= s@.len(),
    ensures
        j <= end <= s@.len(),
        end == spec_scan_word(s@, j as int),
    decreases s@.len() - j,
{
    let n = s.unicode_len();
    if j >= n {
        return j;
    }
    let b = s.get_ascii(j);
    let is_word = (b >= LOWER_A && b <= LOWER_Z) || (b >= UPPER_A && b <= UPPER_Z) || (b >= DIGIT_ZERO && b <= DIGIT_NINE)
        || b == UNDERSCORE;
    if is_word {
        scan_word(s, j + 1)
    } else {
        j
    }
}

/// The index of the closing quote at or after `j`, if the literal is
/// terminated before a line break or the end of input.
fn scan_string(s: &str, j: usize) -> (r: Result<usize, LexError>)
    requires
        s.is_ascii(),
        j <= s@.len(),
    ensures
        r matches Ok(q) ==> j <= q < s@.len() && spec_scan_string(s@, j as int) == Some(q as int),
        r is Err ==> spec_scan_string(s@, j as int) is None,
    decreases s@.len() - j,
{
    let n = s.unicode_len();
    if j >= n {
        return Err(LexError::Empty { expect: "\"" });
    }
    let b = s.get_ascii(j);
    if b == QUOTE {
        Ok(j)
    } else if b == LINE_FEED {
        Err(LexError::Unknown)
    } else {
        scan_string(s, j + 1)
    }
}

/// The value of the digit run `[j, end)`, accumulated onto `acc`; fails on
/// `i64` overflow.
fn digits_value(s: &str, j: usize, end: usize, acc: i64) -> (r: Result<i64, LexError>)
    requires
        s.is_ascii(),
        j <= end <= s@.len(),
        acc >= 0,
    ensures
        r matches Ok(v) ==> v >= 0 && spec_digits_value(s@, j as int, end as int, acc as int)
            == Some(v as int),
        r is Err ==> spec_digits_value(s@, j as int, end as int, acc as int) is None,
    decreases end - j,
{
    if j >= end {
        return Ok(acc);
    }
    let b = s.get_ascii(j);
    let d: i64 = if b >= DIGIT_ZERO && b <= DIGIT_NINE {
        (b - DIGIT_ZERO) as i64
    } else {
        0
    };
    let scaled = match acc.checked_mul(10) {
        Some(v) => v,
        None => {
            return Err(LexError::Unknown);
        },
    };
    let next = match scaled.checked_add(d) {
        Some(v) => v,
        None => {
            return Err(LexError::Unknown);
        },
    };
    digits_value(s, j + 1, end, next)
}

/// Whether `w` spells the same characters as `kw`.
fn word_eq(w: &str, kw: &str) -> (b: bool)
    ensures
        b == (w@ == kw@),
{
    let a = w.to_owned();
    let c = kw.to_owned();
    a == c
}

/// The token for the word `w`: a keyword where it matches one, otherwise an
/// identifier holding `w`.
fn word_token(w: &str) -> (t: Token)
    ensures
        t@ == spec_word_token(w@),
{
    if word_eq(w, "struct") {
        Token::KwStruct
    } else if word_eq(w, "enum") {
        Token::KwEnum
    } else if word_eq(w, "fn") {
        Token::KwFn
    } else {
        Token::Ident(w.to_owned())
    }
}

/// Lexes all of `s`, an ASCII source fragment, into tokens whose spans are
/// offset by `base`. On success the spans tile `[base, base + |s|)` exactly,
/// so they are contiguous and monotone.
/// One token of the kit grammar starting exactly at `i`: the executable
/// form of [`spec_lex_token`].
#[verifier::rlimit(100)]
fn lex_one(s: &str, i: usize) -> (r: Result<(Token, usize), LexError>)
    requires
        s.is_ascii(),
        i < s@.len(),
    ensures
        r matches Ok(p) ==> i < p.1 <= s@.len() && spec_lex_token(s@, i as int) == Some(
            (p.0@, p.1 as int),
        ),
        r is Err ==> spec_lex_token(s@, i as int) is None,
{
    let n = s.unicode_len();
    let b = s.get_ascii(i);
    // Each arm yields one token covering [i, j) with i < j <= n.
    let (tok, j): (Token, usize) = if b == SPACE || b == TAB {
        (Token::Whitespace, i + 1)
    } else if b == LINE_FEED {
        (Token::Newline, i + 1)
    } else if b == CARRIAGE_RETURN {
        if i + 1 < n && s.get_ascii(i + 1) == LINE_FEED {
            (Token::Newline, i + 2)
        } else {
            return Err(LexError::Unknown);
        }
    } else if b == LEFT_BRACE {
        (Token::LBrace, i + 1)
    } else if b == RIGHT_BRACE {
        (Token::RBrace, i + 1)
    } else if b == LEFT_PAREN {
        (Token::LParen, i + 1)
    } else if b == RIGHT_PAREN {
        (Token::RParen, i + 1)
    } else if b == LEFT_BRACKET {
        (Token::LBracket, i + 1)
    } else if b == RIGHT_BRACKET {
        (Token::RBracket, i + 1)
    } else if b == COLON_BYTE {
        (Token::Colon, i + 1)
    } else if b == COMMA_BYTE {
        (Token::Comma, i + 1)
    } else if b == SEMI_BYTE {
        (Token::Semi, i + 1)
    } else if b == MINUS_BYTE {
        if i + 1 < n && s.get_ascii(i + 1) == GREATER_BYTE {
            (Token::Arrow, i + 2)
        } else if i + 1 < n && s.get_ascii(i + 1) >= DIGIT_ZERO && s.get_ascii(i + 1) <= DIGIT_NINE {
            let j = scan_digits(s, i + 1);
            let value = match digits_value(s, i + 1, j, 0) {
                Ok(v) => v,
                Err(e) => {
                    return Err(e);
                },
            };
            (Token::Number(-value), j)
        } else {
            return Err(LexError::Unknown);
        }
    } else if b >= DIGIT_ZERO && b <= DIGIT_NINE {
        let j = scan_digits(s, i + 1);
        let value = match digits_value(s, i, j, 0) {
            Ok(v) => v,
            Err(e) => {
                return Err(e);
            },
        };
        (Token::Number(value), j)
    } else if b == QUOTE {
        let q = match scan_string(s, i + 1) {
            Ok(q) => q,
            Err(e) => {
                return Err(e);
            },
        };
        let payload = s.substring_ascii(i + 1, q);
        (Token::Str(payload.to_owned()), q + 1)
    } else if (b >= LOWER_A && b <= LOWER_Z) || (b >= UPPER_A && b <= UPPER_Z) || b == UNDERSCORE {
        let j = scan_word(s, i + 1);
        let w = s.substring_ascii(i, j);
        (word_token(w), j)
    } else {
        return Err(LexError::Unknown);
    };
    proof {
        assert(spec_lex_token(s@, i as int) == Some((tok@, j as int)));
    }
    Ok((tok, j))
}

pub fn lex_str(s: &str, base: usize) -> (r: Result<Vec<SpannedToken>, LexError>)
    requires
        base + s@.len() <= usize::MAX,
    ensures
        r matches Ok(toks) ==> tokens_tile(toks@, base as int, base + s@.len()),
        r matches Ok(toks) ==> spec_lex(s@, base as int, 0) matches Some(sts) && token_views(
            toks@,
        ) == sts,
        r is Err ==> !vstd::string::is_ascii(s) || spec_lex(s@, base as int, 0) is None,
{
    if !s.is_ascii() {
        return Err(LexError::Unknown);
    }
    let n = s.unicode_len();
    let mut toks: Vec<SpannedToken> = Vec::new();
    let mut i: usize = 0;
    while i < n
        invariant
            s.is_ascii(),
            n == s@.len(),
            i <= n,
            base + n <= usize::MAX,
            tokens_tile(toks@, base as int, base + i),
            spec_lex(s@, base as int, i as int) matches Some(rest) ==> spec_lex(
                s@,
                base as int,
                0,
            ) == Some(token_views(toks@) + rest),
            spec_lex(s@, base as int, i as int) is None ==> spec_lex(s@, base as int, 0) is None,
        decreases n - i,
    {
        let ghost toks_before = toks@;
        let ghost i_before = i as int;
        let (tok, j) = match lex_one(s, i) {
            Ok(pair) => pair,
            Err(e) => {
                return Err(e);
            },
        };
        let spanned = Spanned::new(base + i, base + j, tok);
        toks.push(spanned);
        proof {
            lemma_tile_push(toks_before, base as int, base + i_before, spanned, base + j);
            let head = (
                spanned.value@,
                Span::Known(
                    RawSpan { start: (base + i_before) as usize, end: (base + j) as usize },
                ),
            );
            assert(token_views(toks@) =~= token_views(toks@.take(toks@.len() - 1)).push(head));
            assert(toks@.take(toks@.len() - 1) =~= toks_before);
            if spec_lex(s@, base as int, j as int) is Some {
                let rest = spec_lex(s@, base as int, j as int)->0;
                assert(spec_lex(s@, base as int, i_before) == Some(seq![head] + rest));
                assert(token_views(toks_before).push(head) + rest =~= token_views(toks_before)
                    + (seq![head] + rest));
            }
        }
        i = j;
    }
    proof {
        assert(spec_lex(s@, base as int, n as int) == Some(Seq::<(TokenV, Span)>::empty()));
        assert(token_views(toks@) + Seq::<(TokenV, Span)>::empty() =~= token_views(toks@));
    }
    Ok(toks)
}

/// An incremental lexer that accumulates chunks and lexes only up to the
/// last line break, so that no token straddles the lexed prefix; the suffix
/// is retained for the next call.
pub struct LineLexer {
    buffer: String,
    offset: usize,
}

impl LineLexer {
    /// The absolute byte offset of the start of the retained suffix.
    pub closed spec fn spec_offset(&self) -> int {
        self.offset as int
    }

    /// The retained, not yet lexed suffix.
    pub closed spec fn spec_pending(&self) -> Seq<char> {
        self.buffer@
    }

    #[verifier::type_invariant]
    spec fn wf(&self) -> bool {
        &&& vstd::string::string_is_ascii(&self.buffer)
        &&& self.spec_offset() + self.spec_pending().len() <= usize::MAX
    }

    /// A fresh lexer at offset 0 with nothing retained.
    pub fn new() -> (r: LineLexer)
        ensures
            r.spec_offset() == 0,
            r.spec_pending().len() == 0,
    {
        LineLexer { buffer: String::new(), offset: 0 }
    }

    /// The current absolute byte offset: everything before it has been lexed
    /// and handed out.
    pub fn offset(&self) -> (n: usize)
        ensures
            n == self.spec_offset(),
    {
        self.offset
    }

    /// The index one past the last `\n` in `s`, exactly the safe split
    /// point [`spec_last_newline_end`] names; everything at or after it is
    /// newline-free.
    fn last_newline_end(s: &String) -> (r: Option<usize>)
        requires
            vstd::string::string_is_ascii(s),
        ensures
            spec_last_newline_end(s@) == 0 ==> r is None,
            spec_last_newline_end(s@) > 0 ==> r == Some(spec_last_newline_end(s@) as usize),
            r matches Some(p) ==> 0 < p <= s@.len() && forall|j: int|
                p <= j < s@.len() ==> s@[j] != '\n',
            r is None ==> forall|j: int| 0 <= j < s@.len() ==> s@[j] != '\n',
    {
        let n = s.as_str().unicode_len();
        let mut found: Option<usize> = None;
        let mut i: usize = 0;
        while i < n
            invariant
                vstd::string::string_is_ascii(s),
                n == s@.len(),
                i <= n,
                found matches Some(p) ==> 0 < p <= i && forall|j: int|
                    p <= j < i ==> s@[j] != '\n',
                found is None ==> forall|j: int| 0 <= j < i ==> s@[j] != '\n',
                found is None ==> spec_last_newline_end(s@.take(i as int)) == 0,
                found matches Some(p) ==> p == spec_last_newline_end(s@.take(i as int)),
            decreases n - i,
        {
            proof {
                assert(s@.take(i + 1).last() == s@[i as int]);
                assert(s@.take(i + 1).drop_last() =~= s@.take(i as int));
            }
            if s.as_str().get_ascii(i) == LINE_FEED {
                found = Some(i + 1);
            } else {
                proof {
                    assert(s@[i as int] != '\n');
                    assert(spec_last_newline_end(s@.take(i + 1)) == spec_last_newline_end(
                        s@.take(i as int),
                    ));
                }
            }
            i = i + 1;
        }
        proof {
            assert(s@.take(n as int) =~= s@);
        }
        found
    }

    /// Appends `chunk` to the retained input, lexes the prefix up to the
    /// last line break, and returns its tokens. The returned spans are
    /// absolute and tile the range between the old and the new offset, so
    /// successive calls produce contiguous, monotone spans.
    pub fn feed(&mut self, chunk: &str) -> (r: Result<Vec<SpannedToken>, LexError>)
        ensures
            r matches Ok(toks) ==> {
                &&& final(self).spec_offset() >= old(self).spec_offset()
                &&& tokens_tile(
                    toks@,
                    old(self).spec_offset(),
                    final(self).spec_offset(),
                )
                &&& final(self).spec_offset() + final(self).spec_pending().len() == old(self).spec_offset() + old(self).spec_pending().len() + chunk@.len()
                &&& forall|j: int|
                    0 <= j < final(self).spec_pending().len() ==> final(self).spec_pending()[j] != '\n'
                &&& ({
                    let combined = old(self).spec_pending() + chunk@;
                    let split = spec_last_newline_end(combined);
                    &&& combined.len() - final(self).spec_pending().len() == split
                    &&& final(self).spec_pending() == combined.subrange(
                        split,
                        combined.len() as int,
                    )
                    &&& spec_lex(
                        combined.subrange(0, split),
                        old(self).spec_offset(),
                        0,
                    ) matches Some(sts)
                    &&& token_views(toks@) == spec_lex(
                        combined.subrange(0, split),
                        old(self).spec_offset(),
                        0,
                    )->0
                })
            },
            r is Err ==> final(self).spec_offset() == old(self).spec_offset() && final(self).spec_pending() == old(self).spec_pending(),
            r is Err ==> {
                ||| !vstd::string::is_ascii(chunk)
                ||| old(self).spec_offset() + old(self).spec_pending().len() + chunk@.len()
                    > usize::MAX
                ||| ({
                    let combined = old(self).spec_pending() + chunk@;
                    spec_lex(
                        combined.subrange(0, spec_last_newline_end(combined)),
                        old(self).spec_offset(),
                        0,
                    ) is None
                })
            },
    {
        proof {
            use_type_invariant(&*self);
        }
        if !chunk.is_ascii() {
            return Err(LexError::Unknown);
        }
        let chunk_len = chunk.unicode_len();
        let buf_len = self.buffer.as_str().unicode_len();
        let total = match self.offset.checked_add(buf_len) {
            Some(t) => t,
            None => {
                return Err(LexError::Unknown);
            },
        };
        match total.checked_add(chunk_len) {
            Some(_) => {},
            None => {
                return Err(LexError::Unknown);
            },
        };
        let mut combined = self.buffer.clone();
        combined.append(chunk);
        let split = match Self::last_newline_end(&combined) {
            Some(p) => p,
            None => {
                self.buffer = combined;
                proof {
                    let all = old(self).spec_pending() + chunk@;
                    lemma_last_newline_end_bounds(all);
                    assert(self.spec_pending() =~= all);
                    assert(spec_last_newline_end(all) == 0);
                    assert(self.spec_pending() =~= all.subrange(0, all.len() as int));
                    assert(all.subrange(0, 0) =~= Seq::<char>::empty());
                    assert(spec_lex(Seq::<char>::empty(), old(self).spec_offset(), 0) == Some(
                        Seq::<(TokenV, Span)>::empty(),
                    ));
                    assert(token_views(Seq::<SpannedToken>::empty()) =~= Seq::<
                        (TokenV, Span),
                    >::empty());
                }
                return Ok(Vec::new());
            },
        };
        let len = combined.as_str().unicode_len();
        let prefix = combined.as_str().substring_ascii(0, split);
        let toks = match lex_str(prefix, self.offset) {
            Ok(t) => t,
            Err(e) => {
                proof {
                    let combined_v = old(self).spec_pending() + chunk@;
                    lemma_last_newline_end_bounds(combined_v);
                    assert(combined@ =~= combined_v);
                    assert(split == spec_last_newline_end(combined_v));
                    assert(prefix@ =~= combined_v.subrange(
                        0,
                        spec_last_newline_end(combined_v),
                    ));
                }
                return Err(e);
            },
        };
        let rest = combined.as_str().substring_ascii(split, len).to_owned();
        self.buffer = rest;
        self.offset = self.offset + split;
        proof {
            let all = old(self).spec_pending() + chunk@;
            lemma_last_newline_end_bounds(all);
            assert(combined@ =~= all);
            assert(split == spec_last_newline_end(all));
            assert(self.spec_pending() =~= all.subrange(split as int, all.len() as int));
            assert(prefix@ =~= all.subrange(0, spec_last_newline_end(all)));
        }
        Ok(toks)
    }

    /// Lexes whatever is retained and returns its tokens: exactly the
    /// tokens the lexing relation gives the retained suffix, and a failure
    /// exactly when the suffix is structurally incomplete, such as an
    /// unterminated string.
    pub fn finish(self) -> (r: Result<Vec<SpannedToken>, LexError>)
        ensures
            r matches Ok(toks) ==> tokens_tile(
                toks@,
                self.spec_offset(),
                self.spec_offset() + self.spec_pending().len(),
            ),
            r matches Ok(toks) ==> spec_lex(self.spec_pending(), self.spec_offset(), 0)
                matches Some(sts) && token_views(toks@) == sts,
            r is Err <==> spec_lex(self.spec_pending(), self.spec_offset(), 0) is None,
    {
        proof {
            use_type_invariant(&self);
        }
        if self.buffer.as_str().is_empty() {
            return Ok(Vec::new());
        }
        lex_str(self.buffer.as_str(), self.offset)
    }
}

impl IncrementalLexer for LineLexer {
    type Token = Token;

    type Spanned = SpannedToken;

    type Error = LexError;

    /// A fresh lexer at offset 0.
    fn new() -> Self {
        LineLexer::new()
    }

    /// Feeds a chunk; see the inherent method for the span contract.
    fn feed(&mut self, chunk: &str) -> Result<Vec<SpannedToken>, LexError> {
        LineLexer::feed(self, chunk)
    }

    /// Finishes; see the inherent method for the span contract.
    fn finish(self) -> Result<Vec<SpannedToken>, LexError> {
        LineLexer::finish(self)
    }

    /// The current absolute byte offset.
    fn offset(&self) -> usize {
        LineLexer::offset(self)
    }
}

} // verus!
