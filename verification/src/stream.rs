//! The forkable token stream: a random-access cursor over a shared buffer of
//! spanned tokens, with raw and significant reading modes, rewinding, and
//! zero-copy sub-ranges.

use std::sync::Arc;
use vstd::prelude::*;
use vstd::string::StrSliceExecFns;
use crate::error::Error;
use crate::span::{Span, Spanned};
use crate::token::{clone_token, is_skip_token, spec_is_skip, Token};

verus! {

/// A token paired with its source span.
pub type SpannedToken = Spanned<Token>;

/// An exact copy of a spanned token: same span, same mathematical value.
pub fn clone_spanned_token(t: &SpannedToken) -> (r: SpannedToken)
    ensures
        r.span == t.span,
        r.value@ == t.value@,
{
    Spanned { span: t.span, value: clone_token(&t.value) }
}

/// Relies on `Arc::clone`: the clone points to the same allocation, so it
/// carries the same value; this makes forking a stream O(1).
#[verifier::external_body]
fn arc_clone<T>(a: &Arc<T>) -> (r: Arc<T>)
    ensures
        r == *a,
{
    Arc::clone(a)
}

/// The first index in `[i, end)` holding a significant (non-trivia) token,
/// if any.
pub open spec fn next_sig(toks: Seq<SpannedToken>, i: int, end: int) -> Option<int>
    decreases end - i,
{
    if i < 0 || i >= end || end > toks.len() {
        None
    } else if !spec_is_skip(toks[i].value@) {
        Some(i)
    } else {
        next_sig(toks, i + 1, end)
    }
}

/// How many significant tokens `[i, end)` holds.
pub open spec fn sig_count(toks: Seq<SpannedToken>, i: int, end: int) -> nat
    decreases end - i,
{
    if i < 0 || i >= end || end > toks.len() {
        0
    } else if !spec_is_skip(toks[i].value@) {
        1 + sig_count(toks, i + 1, end)
    } else {
        sig_count(toks, i + 1, end)
    }
}

/// The significant-token count is zero exactly when the whole range is
/// trivia; this is what a successful consumption check certifies.
pub proof fn lemma_sig_count_zero(toks: Seq<SpannedToken>, i: int, end: int)
    requires
        0 <= i <= end <= toks.len(),
    ensures
        (sig_count(toks, i, end) == 0) <==> (forall|j: int|
            i <= j < end ==> spec_is_skip(toks[j].value@)),
    decreases end - i,
{
    if i < end {
        lemma_sig_count_zero(toks, i + 1, end);
    }
}

/// When a first significant index exists, it lies in `[i, end)` and holds a
/// significant token, with only trivia before it.
pub proof fn lemma_next_sig_bounds(toks: Seq<SpannedToken>, i: int, end: int)
    requires
        0 <= i,
    ensures
        next_sig(toks, i, end) matches Some(j) ==> i <= j < end && !spec_is_skip(toks[j].value@),
    decreases end - i,
{
    if i < end && end <= toks.len() && spec_is_skip(toks[i].value@) {
        lemma_next_sig_bounds(toks, i + 1, end);
    }
}

/// The index of the close delimiter that balances `depth` outstanding open
/// delimiters, scanning raw tokens from `i`: an `Open` token deepens the
/// nesting, a `Close` token closes one level, and the scan succeeds at the
/// first `Close` token seen at depth 1.
pub open spec fn scan_match<Open: crate::parse::Peek, Close: crate::parse::Peek>(
    toks: Seq<SpannedToken>,
    i: int,
    end: int,
    depth: int,
) -> Option<int>
    decreases end - i,
{
    if i < 0 || i >= end || end > toks.len() {
        None
    } else if Open::spec_is(toks[i].value@) {
        scan_match::<Open, Close>(toks, i + 1, end, depth + 1)
    } else if Close::spec_is(toks[i].value@) {
        if depth == 1 {
            Some(i)
        } else {
            scan_match::<Open, Close>(toks, i + 1, end, depth - 1)
        }
    } else {
        scan_match::<Open, Close>(toks, i + 1, end, depth)
    }
}

/// The sum over `[base, j)` of delimiter deltas: `+1` for each `Open`, `-1`
/// for each `Close` that is not also an `Open`, `0` otherwise.
pub open spec fn pair_depth<Open: crate::parse::Peek, Close: crate::parse::Peek>(
    toks: Seq<SpannedToken>,
    base: int,
    j: int,
) -> int
    decreases j - base,
{
    if j <= base {
        0
    } else {
        pair_depth::<Open, Close>(toks, base, j - 1) + (if Open::spec_is(toks[j - 1].value@) {
            1int
        } else if Close::spec_is(toks[j - 1].value@) {
            -1int
        } else {
            0int
        })
    }
}

/// Whether position `j` closes the delimiter opened just before `base`: a
/// `Close` token at the matched depth, with the interior `[base, j)`
/// balanced.
pub open spec fn closes_at<Open: crate::parse::Peek, Close: crate::parse::Peek>(
    toks: Seq<SpannedToken>,
    base: int,
    j: int,
) -> bool {
    &&& !Open::spec_is(toks[j].value@)
    &&& Close::spec_is(toks[j].value@)
    &&& pair_depth::<Open, Close>(toks, base, j) == 0
}

/// Delimiter-match characterisation: a scan whose running depth so far is
/// `d` finds `Some(k)` exactly when `k` is the first position at or after
/// `i` that closes the delimiter opened just before `base`. In particular
/// the interior `[base, k)` is balanced and no earlier position closes it,
/// so the sub-stream of `extract_inner` covers exactly the interior at the
/// matched depth.
pub proof fn lemma_scan_match_characterises<
    Open: crate::parse::Peek,
    Close: crate::parse::Peek,
>(toks: Seq<SpannedToken>, end: int, base: int, i: int, d: int, k: int)
    requires
        0 <= base <= i <= end <= toks.len(),
        d == 1 + pair_depth::<Open, Close>(toks, base, i),
    ensures
        scan_match::<Open, Close>(toks, i, end, d) == Some(k) <==> {
            &&& i <= k < end
            &&& closes_at::<Open, Close>(toks, base, k)
            &&& forall|j: int| i <= j < k ==> !closes_at::<Open, Close>(toks, base, j)
        },
    decreases end - i,
{
    if i < end {
        let t = toks[i].value@;
        let step: int = if Open::spec_is(t) {
            1
        } else if Close::spec_is(t) {
            -1
        } else {
            0
        };
        assert(pair_depth::<Open, Close>(toks, base, i + 1) == pair_depth::<Open, Close>(
            toks,
            base,
            i,
        ) + step);
        assert(closes_at::<Open, Close>(toks, base, i) <==> (!Open::spec_is(t)
            && Close::spec_is(t) && d == 1));
        if !Open::spec_is(t) && Close::spec_is(t) && d == 1 {
            assert(scan_match::<Open, Close>(toks, i, end, d) == Some(i));
        } else {
            lemma_scan_match_characterises::<Open, Close>(toks, end, base, i + 1, d + step, k);
            assert(scan_match::<Open, Close>(toks, i, end, d) == scan_match::<Open, Close>(
                toks,
                i + 1,
                end,
                d + step,
            ));
        }
    }
}

/// Delimiter balance: the close index that `extract_inner` finds for an
/// opener at `open_i` is the first position after it that closes the pair,
/// with the interior balanced.
pub proof fn lemma_extract_matched<Open: crate::parse::Peek, Close: crate::parse::Peek>(
    toks: Seq<SpannedToken>,
    end: int,
    open_i: int,
    k: int,
)
    requires
        0 <= open_i,
        open_i + 1 <= end <= toks.len(),
    ensures
        scan_match::<Open, Close>(toks, open_i + 1, end, 1) == Some(k) <==> {
            &&& open_i < k < end
            &&& closes_at::<Open, Close>(toks, open_i + 1, k)
            &&& forall|j: int| open_i < j < k ==> !(#[trigger] closes_at::<Open, Close>(
                toks,
                open_i + 1,
                j,
            ))
        },
{
    lemma_scan_match_characterises::<Open, Close>(toks, end, open_i + 1, open_i + 1, 1, k);
}

/// A forkable cursor over a shared, immutable vector of spanned tokens.
///
/// The stream sees the sub-range `[range_start, range_end)` of the buffer;
/// `cursor` is the next raw position and `last_cursor` remembers the most
/// recently consumed token. The buffer is reference-counted, so forking and
/// sub-stream extraction share it without copying.
#[derive(Debug)]
pub struct TokenStream {
    tokens: Arc<Vec<SpannedToken>>,
    cursor: usize,
    range_start: usize,
    range_end: usize,
    last_cursor: usize,
}

impl TokenStream {
    /// The whole underlying token buffer.
    pub closed spec fn spec_tokens(&self) -> Seq<SpannedToken> {
        self.tokens@
    }

    /// The current raw cursor.
    pub closed spec fn spec_cursor(&self) -> int {
        self.cursor as int
    }

    /// The inclusive lower bound of the visible sub-range.
    pub closed spec fn spec_range_start(&self) -> int {
        self.range_start as int
    }

    /// The exclusive upper bound of the visible sub-range.
    pub closed spec fn spec_range_end(&self) -> int {
        self.range_end as int
    }

    /// The index of the most recently consumed token.
    pub closed spec fn spec_last_cursor(&self) -> int {
        self.last_cursor as int
    }

    #[verifier::type_invariant]
    spec fn wf(&self) -> bool {
        &&& self.spec_range_start() <= self.spec_cursor() <= self.spec_range_end()
        &&& self.spec_range_end() <= self.spec_tokens().len()
        &&& self.spec_last_cursor() <= self.spec_tokens().len()
    }

    /// Cursor soundness: the cursor lies within the visible sub-range,
    /// which lies within the buffer. Every constructor establishes this and
    /// every operation preserves it; [`TokenStream::cursor_soundness`]
    /// certifies it for any stream, however it was produced.
    pub open spec fn in_range(&self) -> bool {
        &&& self.spec_range_start() <= self.spec_cursor() <= self.spec_range_end()
        &&& self.spec_range_end() <= self.spec_tokens().len()
    }

    /// Certifies cursor soundness for this stream: after any sequence of
    /// `next_raw`, `rewind`, and `fork` operations, the cursor satisfies
    /// `range_start <= cursor <= range_end`, within the buffer's bounds.
    pub fn cursor_soundness(&self)
        ensures
            self.in_range(),
    {
        proof {
            use_type_invariant(self);
        }
    }

    /// Lexes an ASCII source with the kit lexer and returns a stream over
    /// all of its tokens, positioned at the start. The tokens are exactly
    /// what the lexing relation gives the source, their spans tile it, and
    /// lexing fails exactly when the source is not ASCII or fails the
    /// grammar.
    pub fn lex(source: &str) -> (r: Result<TokenStream, crate::lexer::LexError>)
        ensures
            r matches Ok(ts) ==> {
                &&& ts.spec_cursor() == 0
                &&& ts.spec_range_start() == 0
                &&& ts.spec_range_end() == ts.spec_tokens().len()
                &&& ts.spec_last_cursor() == 0
                &&& crate::lexer::tokens_tile(ts.spec_tokens(), 0, source@.len() as int)
                &&& crate::lexer::spec_lex(source@, 0, 0) matches Some(sts)
                    && crate::lexer::token_views(ts.spec_tokens()) == sts
            },
            r is Err ==> !vstd::string::is_ascii(source) || crate::lexer::spec_lex(
                source@,
                0,
                0,
            ) is None,
    {
        let n = source.unicode_len();
        let toks = match crate::lexer::lex_str(source, 0) {
            Ok(t) => t,
            Err(e) => {
                return Err(e);
            },
        };
        Ok(TokenStream::from_tokens(toks))
    }

    /// A stream over all of `tokens`, positioned at the start.
    pub fn from_tokens(tokens: Vec<SpannedToken>) -> (r: TokenStream)
        ensures
            r.spec_tokens() == tokens@,
            r.spec_cursor() == 0,
            r.spec_range_start() == 0,
            r.spec_range_end() == tokens@.len(),
            r.spec_last_cursor() == 0,
    {
        let len = tokens.len();
        TokenStream {
            tokens: Arc::new(tokens),
            cursor: 0,
            range_start: 0,
            range_end: len,
            last_cursor: 0,
        }
    }

    /// A stream over the sub-range `[start, end)` of `tokens`.
    pub fn from_tokens_range(tokens: Vec<SpannedToken>, start: usize, end: usize) -> (r:
        TokenStream)
        requires
            start <= end <= tokens@.len(),
        ensures
            r.spec_tokens() == tokens@,
            r.spec_cursor() == start,
            r.spec_range_start() == start,
            r.spec_range_end() == end,
            r.spec_last_cursor() == start,
    {
        TokenStream {
            tokens: Arc::new(tokens),
            cursor: start,
            range_start: start,
            range_end: end,
            last_cursor: start,
        }
    }

    /// Every token of the visible sub-range, trivia included.
    pub fn all(&self) -> (r: &[SpannedToken])
        ensures
            r@ == self.spec_tokens().subrange(self.spec_range_start(), self.spec_range_end()),
    {
        proof {
            use_type_invariant(self);
        }
        let v: &Vec<SpannedToken> = &self.tokens;
        &v[self.range_start..self.range_end]
    }

    /// The next raw token, trivia included, without consuming it.
    pub fn peek_token_raw(&self) -> (r: Option<&SpannedToken>)
        ensures
            self.spec_cursor() < self.spec_range_end() ==> r == Some(
                &self.spec_tokens()[self.spec_cursor()],
            ),
            self.spec_cursor() >= self.spec_range_end() ==> r is None,
    {
        proof {
            use_type_invariant(self);
        }
        if self.cursor < self.range_end {
            let v: &Vec<SpannedToken> = &self.tokens;
            Some(&v[self.cursor])
        } else {
            None
        }
    }

    /// Consumes and returns the next raw token, trivia included. At the end
    /// of the range it returns `None` and changes nothing.
    pub fn next_raw(&mut self) -> (r: Option<SpannedToken>)
        ensures
            final(self).spec_tokens() == old(self).spec_tokens(),
            final(self).spec_range_start() == old(self).spec_range_start(),
            final(self).spec_range_end() == old(self).spec_range_end(),
            old(self).spec_cursor() >= old(self).spec_range_end() ==> r is None
                && final(self).spec_cursor() == old(self).spec_cursor()
                && final(self).spec_last_cursor() == old(self).spec_last_cursor(),
            old(self).spec_cursor() < old(self).spec_range_end() ==> {
                &&& r is Some
                &&& r->0.span == old(self).spec_tokens()[old(self).spec_cursor()].span
                &&& r->0.value@ == old(self).spec_tokens()[old(self).spec_cursor()].value@
                &&& final(self).spec_cursor() == old(self).spec_cursor() + 1
                &&& final(self).spec_last_cursor() == old(self).spec_cursor()
            },
    {
        proof {
            use_type_invariant(&*self);
        }
        if self.cursor >= self.range_end {
            return None;
        }
        let v: &Vec<SpannedToken> = &self.tokens;
        let tok = clone_spanned_token(&v[self.cursor]);
        self.last_cursor = self.cursor;
        self.cursor = self.cursor + 1;
        Some(tok)
    }

    /// Consumes raw tokens until a significant one is found and returns it;
    /// trivia passed over on the way is consumed too.
    pub fn next(&mut self) -> (r: Option<SpannedToken>)
        ensures
            final(self).spec_tokens() == old(self).spec_tokens(),
            final(self).spec_range_start() == old(self).spec_range_start(),
            final(self).spec_range_end() == old(self).spec_range_end(),
            match next_sig(
                old(self).spec_tokens(),
                old(self).spec_cursor(),
                old(self).spec_range_end(),
            ) {
                Some(i) => {
                    &&& r is Some
                    &&& r->0.span == old(self).spec_tokens()[i].span
                    &&& r->0.value@ == old(self).spec_tokens()[i].value@
                    &&& final(self).spec_cursor() == i + 1
                    &&& final(self).spec_last_cursor() == i
                },
                None => {
                    &&& r is None
                    &&& final(self).spec_cursor() == final(self).spec_range_end()
                    &&& final(self).spec_last_cursor() == if old(self).spec_cursor() < old(
                        self,
                    ).spec_range_end() {
                        old(self).spec_range_end() - 1
                    } else {
                        old(self).spec_last_cursor()
                    }
                },
            },
        decreases old(self).spec_range_end() - old(self).spec_cursor(),
    {
        proof {
            use_type_invariant(&*self);
        }
        match self.next_raw() {
            None => None,
            Some(tok) => {
                if is_skip_token(&tok.value) {
                    self.next()
                } else {
                    Some(tok)
                }
            },
        }
    }

    /// The next significant token, without consuming anything.
    pub fn peek_token(&self) -> (r: Option<&SpannedToken>)
        ensures
            r == match next_sig(
                self.spec_tokens(),
                self.spec_cursor(),
                self.spec_range_end(),
            ) {
                Some(i) => Some(&self.spec_tokens()[i]),
                None => None::<&SpannedToken>,
            },
    {
        proof {
            use_type_invariant(self);
        }
        self.peek_from(self.cursor)
    }

    /// The first significant token at or after raw index `i`.
    fn peek_from(&self, i: usize) -> (r: Option<&SpannedToken>)
        requires
            self.spec_range_start() <= i,
        ensures
            r == match next_sig(self.spec_tokens(), i as int, self.spec_range_end()) {
                Some(j) => Some(&self.spec_tokens()[j]),
                None => None::<&SpannedToken>,
            },
        decreases self.spec_range_end() - i,
    {
        proof {
            use_type_invariant(self);
        }
        if i >= self.range_end {
            return None;
        }
        let v: &Vec<SpannedToken> = &self.tokens;
        let tok = &v[i];
        if is_skip_token(&tok.value) {
            self.peek_from(i + 1)
        } else {
            Some(tok)
        }
    }

    /// The current raw cursor position.
    pub fn cursor(&self) -> (n: usize)
        ensures
            n == self.spec_cursor(),
    {
        self.cursor
    }

    /// Sets the cursor to `pos`, clamped into `[range_start, range_end]`:
    /// this never panics, even when `pos` lies past the end of the range.
    pub fn rewind(&mut self, pos: usize)
        ensures
            final(self).spec_tokens() == old(self).spec_tokens(),
            final(self).spec_range_start() == old(self).spec_range_start(),
            final(self).spec_range_end() == old(self).spec_range_end(),
            final(self).spec_last_cursor() == old(self).spec_last_cursor(),
            final(self).spec_cursor() == if pos < old(self).spec_range_start() {
                old(self).spec_range_start()
            } else if pos > old(self).spec_range_end() {
                old(self).spec_range_end()
            } else {
                pos as int
            },
    {
        proof {
            use_type_invariant(&*self);
        }
        self.cursor = if pos < self.range_start {
            self.range_start
        } else if pos > self.range_end {
            self.range_end
        } else {
            pos
        };
    }

    /// An independent stream over the same shared buffer with the same
    /// cursor, sub-range, and last-consumed index. The fork owns its own
    /// cursor state, so operations on it never change this stream.
    pub fn fork(&self) -> (r: TokenStream)
        ensures
            r.spec_tokens() == self.spec_tokens(),
            r.spec_cursor() == self.spec_cursor(),
            r.spec_range_start() == self.spec_range_start(),
            r.spec_range_end() == self.spec_range_end(),
            r.spec_last_cursor() == self.spec_last_cursor(),
    {
        proof {
            use_type_invariant(self);
        }
        TokenStream {
            tokens: arc_clone(&self.tokens),
            cursor: self.cursor,
            range_start: self.range_start,
            range_end: self.range_end,
            last_cursor: self.last_cursor,
        }
    }

    /// The span of the token at the raw cursor, or `None` at the end.
    pub fn cursor_span(&self) -> (r: Option<Span>)
        ensures
            r == if 0 <= self.spec_cursor() < self.spec_tokens().len() {
                Some(self.spec_tokens()[self.spec_cursor()].span)
            } else {
                None::<Span>
            },
    {
        proof {
            use_type_invariant(self);
        }
        let v: &Vec<SpannedToken> = &self.tokens;
        if self.cursor < v.len() {
            Some(v[self.cursor].span)
        } else {
            None
        }
    }

    /// The span of the most recently consumed token, or `None` before any
    /// consumption on an empty buffer.
    pub fn last_span(&self) -> (r: Option<Span>)
        ensures
            r == if 0 <= self.spec_last_cursor() < self.spec_tokens().len() {
                Some(self.spec_tokens()[self.spec_last_cursor()].span)
            } else {
                None::<Span>
            },
    {
        proof {
            use_type_invariant(self);
        }
        let v: &Vec<SpannedToken> = &self.tokens;
        if self.last_cursor < v.len() {
            Some(v[self.last_cursor].span)
        } else {
            None
        }
    }

    /// The span of the token at raw index `pos`, or `None` out of bounds.
    pub fn span_at(&self, pos: usize) -> (r: Option<Span>)
        ensures
            r == if pos < self.spec_tokens().len() {
                Some(self.spec_tokens()[pos as int].span)
            } else {
                None::<Span>
            },
    {
        let v: &Vec<SpannedToken> = &self.tokens;
        if pos < v.len() {
            Some(v[pos].span)
        } else {
            None
        }
    }

    /// Synthesises a span from a byte-offset range.
    pub fn span_range(&self, range: core::ops::Range<usize>) -> (r: Span)
        ensures
            r == Span::Known(crate::span::RawSpan { start: range.start, end: range.end }),
    {
        Span::new(range.start, range.end)
    }

    /// Whether no significant token remains.
    pub fn is_empty(&self) -> (b: bool)
        ensures
            b == (next_sig(self.spec_tokens(), self.spec_cursor(), self.spec_range_end())
                is None),
    {
        match self.peek_token() {
            Some(_) => false,
            None => true,
        }
    }

    /// Counts the significant tokens between the cursor and the end of the
    /// range, without consuming anything.
    pub fn remaining(&self) -> (n: usize)
        ensures
            n == sig_count(self.spec_tokens(), self.spec_cursor(), self.spec_range_end()),
    {
        proof {
            use_type_invariant(self);
        }
        let mut count: usize = 0;
        let mut i: usize = self.cursor;
        let v: &Vec<SpannedToken> = &self.tokens;
        while i < self.range_end
            invariant
                self.spec_cursor() <= i <= self.spec_range_end(),
                self.spec_range_end() <= self.spec_tokens().len(),
                v@ == self.spec_tokens(),
                count + sig_count(self.spec_tokens(), i as int, self.spec_range_end())
                    == sig_count(
                    self.spec_tokens(),
                    self.spec_cursor(),
                    self.spec_range_end(),
                ),
                count <= i - self.spec_cursor(),
            decreases self.spec_range_end() - i,
        {
            if !is_skip_token(&v[i].value) {
                count = count + 1;
            }
            i = i + 1;
        }
        count
    }

    /// Checks that every significant token has been consumed: returns
    /// `Ok(())` exactly when none remains, and otherwise the error carrying
    /// the count of remaining significant tokens. The stream is read, never
    /// changed, so repeated calls on the same state return the same result.
    pub fn ensure_consumed(&self) -> (r: Result<(), Error>)
        ensures
            r is Ok <==> sig_count(
                self.spec_tokens(),
                self.spec_cursor(),
                self.spec_range_end(),
            ) == 0,
            r is Err ==> r == Err::<(), Error>((Error::StreamNotConsumed {
                remaining: sig_count(
                    self.spec_tokens(),
                    self.spec_cursor(),
                    self.spec_range_end(),
                ) as usize,
            })),
    {
        let remaining = self.remaining();
        if remaining > 0 {
            Err(Error::StreamNotConsumed { remaining })
        } else {
            Ok(())
        }
    }

    /// Whether the next significant token matches `T`, without consuming.
    pub fn peek<T: crate::parse::Peek>(&self) -> (b: bool)
        ensures
            b == match next_sig(self.spec_tokens(), self.spec_cursor(), self.spec_range_end()) {
                Some(i) => T::spec_is(self.spec_tokens()[i].value@),
                None => false,
            },
    {
        T::peek(self)
    }

    /// Parses a `T` from the stream and wraps it with its covering span:
    /// from the first significant token at entry to the last token the
    /// parse consumed.
    pub fn parse<T: crate::parse::Parse>(&mut self) -> (r: Result<
        crate::span::Spanned<T>,
        crate::parse::ParseError,
    >)
        ensures
            r matches Ok(sp) ==> ({
                let from = match next_sig(
                    old(self).spec_tokens(),
                    old(self).spec_cursor(),
                    old(self).spec_range_end(),
                ) {
                    Some(i) => old(self).spec_tokens()[i].span.spec_start(),
                    None => 0int,
                };
                let upto = if 0 <= final(self).spec_last_cursor() < final(self).spec_tokens().len() {
                    final(self).spec_tokens()[final(self).spec_last_cursor()].span.spec_end()
                } else {
                    from
                };
                sp.span == Span::Known(
                    crate::span::RawSpan { start: from as usize, end: upto as usize },
                )
            }),
    {
        T::parse_spanned(self)
    }

    /// The raw index of the close delimiter balancing `depth` outstanding
    /// opens, scanning from raw index `i`.
    fn find_match_from<Open: crate::parse::Peek, Close: crate::parse::Peek>(
        &self,
        i: usize,
        depth: usize,
    ) -> (r: Option<usize>)
        requires
            depth >= 1,
            depth <= i,
        ensures
            r matches Some(k) ==> scan_match::<Open, Close>(
                self.spec_tokens(),
                i as int,
                self.spec_range_end(),
                depth as int,
            ) == Some(k as int) && i <= k < self.spec_range_end(),
            r is None ==> scan_match::<Open, Close>(
                self.spec_tokens(),
                i as int,
                self.spec_range_end(),
                depth as int,
            ) is None,
        decreases self.spec_range_end() - i,
    {
        proof {
            use_type_invariant(self);
        }
        if i >= self.range_end {
            return None;
        }
        let v: &Vec<SpannedToken> = &self.tokens;
        let tok = &v[i];
        if Open::is(&tok.value) {
            self.find_match_from::<Open, Close>(i + 1, depth + 1)
        } else if Close::is(&tok.value) {
            if depth == 1 {
                Some(i)
            } else {
                self.find_match_from::<Open, Close>(i + 1, depth - 1)
            }
        } else {
            self.find_match_from::<Open, Close>(i + 1, depth)
        }
    }

    /// Extracts the tokens between a matched pair of delimiters.
    ///
    /// The next significant token must match `Open`; it is consumed, the raw
    /// tokens are scanned with a depth counter until the matching `Close`,
    /// and the result is a sub-stream over exactly the interior (both
    /// delimiters excluded) sharing the same buffer, together with the span
    /// covering the whole delimited region. The cursor of this stream moves
    /// past the `Close`. With no `Open` ahead, or no balancing `Close`
    /// inside the range, the call fails and the cursor is unspecified.
    pub fn extract_inner<
        Open: crate::parse::Peek + crate::parse::Diagnostic,
        Close: crate::parse::Peek + crate::parse::Diagnostic,
    >(&mut self) -> (r: Result<(TokenStream, Span), crate::parse::ParseError>)
        ensures
            ({
                let toks = old(self).spec_tokens();
                let end = old(self).spec_range_end();
                let sig = next_sig(toks, old(self).spec_cursor(), end);
                match r {
                    Ok(pair) => {
                        &&& sig is Some
                        &&& Open::spec_is(toks[sig->0].value@)
                        &&& scan_match::<Open, Close>(toks, sig->0 + 1, end, 1) is Some
                        &&& pair.0.spec_tokens() == toks
                        &&& pair.0.spec_range_start() == sig->0 + 1
                        &&& pair.0.spec_cursor() == sig->0 + 1
                        &&& pair.0.spec_range_end() == scan_match::<Open, Close>(
                            toks,
                            sig->0 + 1,
                            end,
                            1,
                        )->0
                        &&& final(self).spec_tokens() == toks
                        &&& final(self).spec_range_end() == end
                        &&& final(self).spec_cursor() == scan_match::<Open, Close>(
                            toks,
                            sig->0 + 1,
                            end,
                            1,
                        )->0 + 1
                        &&& pair.1.spec_start() == toks[sig->0].span.spec_start()
                        &&& pair.1.spec_end() == toks[scan_match::<Open, Close>(
                            toks,
                            sig->0 + 1,
                            end,
                            1,
                        )->0].span.spec_end()
                    },
                    Err(e) => {
                        &&& sig is None ==> e is Empty
                        &&& (sig matches Some(oi) && !Open::spec_is(toks[oi].value@)) ==> e
                            is Expected
                        &&& (sig matches Some(oi) && Open::spec_is(toks[oi].value@)
                            && scan_match::<Open, Close>(toks, oi + 1, end, 1) is None) ==> e
                            is Empty
                    },
                }
            }),
    {
        proof {
            use_type_invariant(&*self);
            lemma_next_sig_bounds(
                self.spec_tokens(),
                self.spec_cursor(),
                self.spec_range_end(),
            );
        }
        let first = match self.next() {
            Some(tok) => tok,
            None => {
                return Err(crate::parse::ParseError::Empty { expect: Open::fmt() });
            },
        };
        if !Open::is(&first.value) {
            return Err(
                crate::parse::ParseError::Expected {
                    expect: Open::fmt(),
                    found: crate::token::token_text(&first.value),
                },
            );
        }
        let open_index = self.cursor - 1;
        let close_index = match self.find_match_from::<Open, Close>(open_index + 1, 1) {
            Some(k) => k,
            None => {
                return Err(crate::parse::ParseError::Empty { expect: Close::fmt() });
            },
        };
        let v: &Vec<SpannedToken> = &self.tokens;
        let close_span_end = v[close_index].span.end();
        let first_start = first.span.start();
        let sub = TokenStream {
            tokens: arc_clone(&self.tokens),
            cursor: open_index + 1,
            range_start: open_index + 1,
            range_end: close_index,
            last_cursor: open_index + 1,
        };
        self.last_cursor = close_index;
        self.cursor = close_index + 1;
        Ok((sub, Span::new(first_start, close_span_end)))
    }
}

} // verus!
