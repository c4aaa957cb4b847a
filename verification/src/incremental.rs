//! Incremental parsing machinery: the chunk-boundary protocol that decides,
//! from a prefix of tokens alone, where the next self-contained unit ends;
//! the incremental lexer and parser contracts; and batch draining of every
//! complete chunk in a buffer.

use vstd::prelude::*;
use vstd::seq_lib::*;
use crate::buffer::IncrementalBuffer;
use crate::pipeline::{LexerCapacityHint, ParseCheckpoint};

verus! {

/// The chunk-boundary protocol: three predicates over raw tokens decide
/// where a self-contained parse unit ends, without parsing it.
///
/// A unit ends one past a boundary token observed at nesting depth 0, where
/// the depth is the running sum of `depth_delta` over the scanned tokens.
pub trait ChunkBoundary {
    /// The token type scanned for boundaries.
    type Token;

    /// Which tokens may terminate a unit when the depth is zero.
    spec fn spec_boundary(t: Self::Token) -> bool;

    /// The depth change a token causes: positive for openers, negative for
    /// closers, zero otherwise.
    spec fn spec_delta(t: Self::Token) -> int;

    /// Which tokens are trivia for the purpose of recognising an empty
    /// unit.
    spec fn spec_ignorable(t: Self::Token) -> bool;

    /// Whether this token may terminate a unit at depth zero.
    fn is_boundary_token(token: &Self::Token) -> (b: bool)
        ensures
            b == Self::spec_boundary(*token),
    ;

    /// The depth change this token causes.
    fn depth_delta(token: &Self::Token) -> (d: i32)
        ensures
            d as int == Self::spec_delta(*token),
    ;

    /// Whether this token is ignorable trivia.
    fn is_ignorable(token: &Self::Token) -> (b: bool)
        ensures
            b == Self::spec_ignorable(*token),
    ;

    /// Scans from `start` with a depth counter starting at 0 and returns
    /// the index one past the first boundary token observed at depth 0, or
    /// `None` when no complete chunk is available yet. Implementations call
    /// the free function [`find_boundary_from`] with depth 0, which pins
    /// down the result.
    fn find_boundary(tokens: &[Self::Token], start: usize) -> Option<usize>;

    /// Whether a complete chunk is available starting at `start`.
    fn has_complete_chunk(tokens: &[Self::Token], start: usize) -> bool;
}

/// The executable boundary scan from `i` with `depth` outstanding: exactly
/// the computation [`spec_scan_boundary`] describes.
pub fn find_boundary_from<C: ChunkBoundary + ?Sized>(
    tokens: &[C::Token],
    i: usize,
    depth: i128,
) -> (r: Option<usize>)
    requires
        -0x8000_0000i128 * (i as i128 + 1) <= depth <= 0x8000_0000i128 * (i as i128 + 1),
    ensures
        r matches Some(k) ==> spec_scan_boundary::<C>(tokens@, i as int, depth as int) == Some(
            k as int,
        ) && i < k <= tokens@.len(),
        r is None ==> spec_scan_boundary::<C>(tokens@, i as int, depth as int) is None,
    decreases tokens@.len() - i,
{
    let n = tokens.len();
    if i >= n {
        return None;
    }
    let t = &tokens[i];
    let d = C::depth_delta(t);
    let new_depth = depth + (d as i128);
    if new_depth == 0 && C::is_boundary_token(t) {
        Some(i + 1)
    } else {
        find_boundary_from::<C>(tokens, i + 1, new_depth)
    }
}

/// The boundary scan: starting at `i` with `depth` outstanding, the index
/// one past the first boundary token observed at depth 0.
pub open spec fn spec_scan_boundary<C: ChunkBoundary + ?Sized>(
    toks: Seq<C::Token>,
    i: int,
    depth: int,
) -> Option<int>
    decreases toks.len() - i,
{
    if i < 0 || i >= toks.len() {
        None
    } else {
        let d = depth + C::spec_delta(toks[i]);
        if d == 0 && C::spec_boundary(toks[i]) {
            Some(i + 1)
        } else {
            spec_scan_boundary::<C>(toks, i + 1, d)
        }
    }
}

/// The sum of depth deltas over `[start, j)`.
pub open spec fn depth_sum<C: ChunkBoundary + ?Sized>(toks: Seq<C::Token>, start: int, j: int) -> int
    decreases j - start,
{
    if j <= start {
        0
    } else {
        depth_sum::<C>(toks, start, j - 1) + C::spec_delta(toks[j - 1])
    }
}

/// Whether, for a scan started at `start`, position `j` holds a boundary
/// token observed at depth 0.
pub open spec fn boundary_at<C: ChunkBoundary + ?Sized>(
    toks: Seq<C::Token>,
    start: int,
    j: int,
) -> bool {
    depth_sum::<C>(toks, start, j + 1) == 0 && C::spec_boundary(toks[j])
}

/// Chunk-boundary characterisation: a scan whose running depth so far is
/// `d0` returns `Some(k)` exactly when `k - 1` is the first position at or
/// after `i` that holds a boundary token at depth 0, counting depth from
/// `start`. In particular no earlier prefix contains a depth-0 boundary, so
/// `k` is minimal.
pub proof fn lemma_scan_boundary_characterises<C: ChunkBoundary + ?Sized>(
    toks: Seq<C::Token>,
    start: int,
    i: int,
    d0: int,
    k: int,
)
    requires
        0 <= start <= i <= toks.len(),
        d0 == depth_sum::<C>(toks, start, i),
    ensures
        spec_scan_boundary::<C>(toks, i, d0) == Some(k) <==> {
            &&& i < k <= toks.len()
            &&& boundary_at::<C>(toks, start, k - 1)
            &&& forall|j: int| i <= j < k - 1 ==> !boundary_at::<C>(toks, start, j)
        },
    decreases toks.len() - i,
{
    if i < toks.len() {
        let d = d0 + C::spec_delta(toks[i]);
        assert(depth_sum::<C>(toks, start, i + 1) == depth_sum::<C>(toks, start, i)
            + C::spec_delta(toks[i]));
        assert(boundary_at::<C>(toks, start, i) <==> (d == 0 && C::spec_boundary(toks[i])));
        if d == 0 && C::spec_boundary(toks[i]) {
            assert(spec_scan_boundary::<C>(toks, i, d0) == Some(i + 1));
            if k > i + 1 {
                assert(boundary_at::<C>(toks, start, i));
            }
        } else {
            lemma_scan_boundary_characterises::<C>(toks, start, i + 1, d, k);
            lemma_scan_in_range::<C>(toks, i + 1, d);
            assert(spec_scan_boundary::<C>(toks, i, d0) == spec_scan_boundary::<C>(
                toks,
                i + 1,
                d,
            ));
        }
    }
}

/// Chunk-boundary minimality: the boundary scan from `start` returns `k`
/// exactly when `[start, k)` is the minimal prefix ending one past a
/// boundary token at depth 0 — for any shorter prefix, no depth-0 boundary
/// exists.
pub proof fn lemma_find_boundary_iff<C: ChunkBoundary + ?Sized>(
    toks: Seq<C::Token>,
    start: int,
    k: int,
)
    requires
        0 <= start <= toks.len(),
    ensures
        spec_scan_boundary::<C>(toks, start, 0) == Some(k) <==> {
            &&& start < k <= toks.len()
            &&& boundary_at::<C>(toks, start, k - 1)
            &&& forall|j: int| start <= j < k - 1 ==> !boundary_at::<C>(toks, start, j)
        },
{
    lemma_scan_boundary_characterises::<C>(toks, start, start, 0, k);
}

/// Boundary decisions are stable under further input: a boundary found in a
/// token prefix is found at the same place once more tokens arrive.
pub proof fn lemma_scan_stable<C: ChunkBoundary + ?Sized>(
    toks: Seq<C::Token>,
    ext: Seq<C::Token>,
    i: int,
    depth: int,
)
    requires
        0 <= i,
        spec_scan_boundary::<C>(toks, i, depth) is Some,
    ensures
        spec_scan_boundary::<C>(toks + ext, i, depth) == spec_scan_boundary::<C>(toks, i, depth),
    decreases toks.len() - i,
{
    assert((toks + ext).len() == toks.len() + ext.len());
    if i < toks.len() {
        assert((toks + ext)[i] == toks[i]);
        let d = depth + C::spec_delta(toks[i]);
        if !(d == 0 && C::spec_boundary(toks[i])) {
            lemma_scan_stable::<C>(toks, ext, i + 1, d);
        }
    }
}

/// Scanning a suffix is scanning the whole sequence from the suffix's
/// start: dropping a consumed prefix does not move the boundaries found.
pub proof fn lemma_scan_shift<C: ChunkBoundary + ?Sized>(
    toks: Seq<C::Token>,
    a: int,
    i: int,
    d: int,
)
    requires
        0 <= a <= toks.len(),
        0 <= i,
    ensures
        ({
            let sub = toks.subrange(a, toks.len() as int);
            match spec_scan_boundary::<C>(sub, i, d) {
                Some(k) => spec_scan_boundary::<C>(toks, a + i, d) == Some(a + k),
                None => spec_scan_boundary::<C>(toks, a + i, d) is None,
            }
        }),
    decreases toks.len() - a - i,
{
    let sub = toks.subrange(a, toks.len() as int);
    if i < sub.len() {
        assert(sub[i] == toks[a + i]);
        let dd = d + C::spec_delta(sub[i]);
        if !(dd == 0 && C::spec_boundary(sub[i])) {
            lemma_scan_shift::<C>(toks, a, i + 1, dd);
        }
    }
}

/// The ends of the self-contained chunks of `toks`, scanning from `start`:
/// each entry is the index one past a chunk's boundary token, in order.
pub open spec fn chunk_ends<C: ChunkBoundary + ?Sized>(toks: Seq<C::Token>, start: int) -> Seq<int>
    decreases toks.len() - start,
{
    if !(0 <= start <= toks.len()) {
        Seq::empty()
    } else {
        match spec_scan_boundary::<C>(toks, start, 0) {
            None => Seq::empty(),
            Some(k) => if start < k <= toks.len() {
                seq![k] + chunk_ends::<C>(toks, k)
            } else {
                Seq::empty()
            },
        }
    }
}

/// The scan only returns positions one past `i`, within the sequence.
pub proof fn lemma_scan_in_range<C: ChunkBoundary + ?Sized>(toks: Seq<C::Token>, i: int, depth: int)
    requires
        0 <= i,
    ensures
        spec_scan_boundary::<C>(toks, i, depth) matches Some(k) ==> i < k <= toks.len(),
    decreases toks.len() - i,
{
    if i < toks.len() {
        let d = depth + C::spec_delta(toks[i]);
        if !(d == 0 && C::spec_boundary(toks[i])) {
            lemma_scan_in_range::<C>(toks, i + 1, d);
        }
    }
}

/// Order preservation of the chunk protocol: the chunks recognised in a
/// token prefix are exactly the first chunks recognised once more input
/// arrives, at the same ends and in the same order. An incremental consumer
/// that parses chunk by chunk therefore produces the same units, in the
/// same order, as a batch pass over the full input.
pub proof fn lemma_chunks_prefix<C: ChunkBoundary + ?Sized>(
    toks: Seq<C::Token>,
    ext: Seq<C::Token>,
    start: int,
)
    requires
        0 <= start <= toks.len(),
    ensures
        chunk_ends::<C>(toks, start).is_prefix_of(chunk_ends::<C>(toks + ext, start)),
    decreases toks.len() - start,
{
    assert((toks + ext).len() == toks.len() + ext.len());
    match spec_scan_boundary::<C>(toks, start, 0) {
        None => {
            assert(chunk_ends::<C>(toks, start) =~= Seq::empty());
        },
        Some(k) => {
            lemma_scan_in_range::<C>(toks, start, 0);
            lemma_scan_stable::<C>(toks, ext, start, 0);
            lemma_chunks_prefix::<C>(toks, ext, k);
            let a = chunk_ends::<C>(toks, start);
            let b = chunk_ends::<C>(toks + ext, start);
            assert(a == seq![k] + chunk_ends::<C>(toks, k));
            assert(b == seq![k] + chunk_ends::<C>(toks + ext, k));
            assert(a.len() <= b.len());
            assert forall|m: int| 0 <= m < a.len() implies a[m] == b[m] by {
                if m > 0 {
                    assert(chunk_ends::<C>(toks, k).is_prefix_of(chunk_ends::<C>(toks + ext, k)));
                    assert(a[m] == chunk_ends::<C>(toks, k)[m - 1]);
                    assert(b[m] == chunk_ends::<C>(toks + ext, k)[m - 1]);
                }
            }
            assert(a.is_prefix_of(b));
        },
    }
}

/// The incremental lexer contract: accumulate source chunks, lex only the
/// prefix that is safely complete, and keep the rest for the next call.
/// Spans must be absolute against the logical input, so that two successive
/// calls produce contiguous spans.
pub trait IncrementalLexer: Sized {
    /// The token type produced.
    type Token;

    /// The spanned token type handed out.
    type Spanned;

    /// The error type for lexing failures.
    type Error;

    /// A fresh lexer with default capacity.
    fn new() -> Self;

    /// A fresh lexer pre-allocating according to `hint`; by default the
    /// hint is ignored.
    fn with_capacity_hint(hint: LexerCapacityHint) -> Self {
        Self::new()
    }

    /// Feeds a chunk of source text and returns the tokens of the safely
    /// complete prefix; the rest is retained.
    fn feed(&mut self, chunk: &str) -> Result<Vec<Self::Spanned>, Self::Error>;

    /// Feeds a chunk, appending the produced tokens to `buffer`; returns
    /// how many were added.
    fn feed_into(&mut self, chunk: &str, buffer: &mut Vec<Self::Spanned>) -> Result<
        usize,
        Self::Error,
    > {
        match self.feed(chunk) {
            Ok(tokens) => {
                let mut incoming = tokens;
                let count = incoming.len();
                buffer.append(&mut incoming);
                Ok(count)
            },
            Err(e) => Err(e),
        }
    }

    /// Signals the end of input: lexes whatever is retained and fails if it
    /// is structurally incomplete.
    fn finish(self) -> Result<Vec<Self::Spanned>, Self::Error>;

    /// Finishes, appending the remaining tokens to `buffer`; returns how
    /// many were added.
    fn finish_into(self, buffer: &mut Vec<Self::Spanned>) -> Result<usize, Self::Error> {
        match self.finish() {
            Ok(tokens) => {
                let mut incoming = tokens;
                let count = incoming.len();
                buffer.append(&mut incoming);
                Ok(count)
            },
            Err(e) => Err(e),
        }
    }

    /// The current absolute byte offset in the logical input.
    fn offset(&self) -> usize;
}

/// The incremental parser contract: attempt to parse one unit from a grown
/// token prefix, resuming from a checkpoint.
pub trait IncrementalParse: Sized {
    /// The token type consumed.
    type Token;

    /// The error type for parse failures.
    type Error;

    /// Attempts one parse from `checkpoint`: `Ok((Some(unit), next))` when
    /// a complete unit was recognised, `Ok((None, next))` when more tokens
    /// are needed (or an ignorable stretch was skipped), and `Err` when the
    /// input is invalid.
    fn parse_incremental(tokens: &[Self::Token], checkpoint: &ParseCheckpoint) -> Result<
        (Option<Self>, ParseCheckpoint),
        Self::Error,
    >;

    /// A cheap check whether a parse attempt could succeed with the tokens
    /// available now; used to avoid futile attempts.
    fn can_parse(tokens: &[Self::Token], checkpoint: &ParseCheckpoint) -> bool;
}

/// Whether `node` is a possible result of `parse_fn` on exactly the slice
/// `rem[lo..hi]`.
pub open spec fn chunk_parsed_at<Tok, T, E, F: Fn(&[Tok]) -> Result<T, E>>(
    parse_fn: F,
    rem: Seq<Tok>,
    lo: int,
    hi: int,
    node: T,
) -> bool {
    exists|sl: &[Tok]| sl@ == rem.subrange(lo, hi) && call_ensures(parse_fn, (sl,), Ok::<T, E>(node))
}

/// The start of the `m`-th chunk: the end of the previous one, or 0.
pub open spec fn chunk_lo(ends: Seq<int>, m: int) -> int {
    if m == 0 {
        0
    } else {
        ends[m - 1]
    }
}

/// Whether `e` is a possible failure of `parse_fn` on exactly the slice
/// `rem[lo..hi]`.
pub open spec fn chunk_failed_at<Tok, T, E, F: Fn(&[Tok]) -> Result<T, E>>(
    parse_fn: F,
    rem: Seq<Tok>,
    lo: int,
    hi: int,
    e: E,
) -> bool {
    exists|sl: &[Tok]| sl@ == rem.subrange(lo, hi) && call_ensures(parse_fn, (sl,), Err::<T, E>(e))
}

/// Whether `e` is a possible failure of `parse_fn` on one of the chunks of
/// `rem`, with `cursor_delta` tokens — exactly the preceding chunks —
/// already consumed. An error of a chunked parse always satisfies this, so
/// success is owed whenever every chunk parses, and in particular whenever
/// no chunk exists.
pub open spec fn chunks_failed_at<T: ChunkBoundary, E, F: Fn(&[T::Token]) -> Result<T, E>>(
    parse_fn: F,
    rem: Seq<T::Token>,
    cursor_delta: int,
    e: E,
) -> bool {
    let ends = chunk_ends::<T>(rem, 0);
    exists|m: int|
        {
            &&& 0 <= m < ends.len()
            &&& #[trigger] chunk_failed_at::<T::Token, T, E, F>(
                parse_fn,
                rem,
                chunk_lo(ends, m),
                ends[m],
                e,
            )
            &&& cursor_delta == chunk_lo(ends, m)
        }
}

/// Parses every complete chunk in `buffer`, in order, consuming each one:
/// repeatedly finds the next boundary, hands the chunk's tokens to
/// `parse_fn`, and stops at the first range with no boundary, so afterwards
/// no complete chunk remains. The buffer's tokens are never changed, only
/// consumed.
pub fn parse_available_chunks<T: ChunkBoundary, E, F: Fn(&[T::Token]) -> Result<T, E>>(
    buffer: &mut IncrementalBuffer<T::Token>,
    parse_fn: F,
) -> (r: Result<Vec<T>, E>)
    requires
        old(buffer).wf(),
        forall|sl: &[T::Token]| call_requires(parse_fn, (sl,)),
    ensures
        final(buffer).wf(),
        final(buffer).spec_tokens() == old(buffer).spec_tokens(),
        final(buffer).spec_cursor() >= old(buffer).spec_cursor(),
        r matches Ok(res) ==> {
            let rem0 = old(buffer).spec_remaining();
            let ends = chunk_ends::<T>(rem0, 0);
            &&& spec_scan_boundary::<T>(final(buffer).spec_remaining(), 0, 0) is None
            &&& res@.len() == ends.len()
            &&& final(buffer).spec_cursor() == old(buffer).spec_cursor() + (if ends.len() == 0 {
                0int
            } else {
                ends.last()
            })
            &&& forall|k: int|
                0 <= k < ends.len() ==> chunk_parsed_at::<T::Token, T, E, F>(
                    parse_fn,
                    rem0,
                    if k == 0 {
                        0int
                    } else {
                        ends[k - 1]
                    },
                    ends[k],
                    #[trigger] res@[k],
                )
        },
        r matches Err(e) ==> chunks_failed_at::<T, E, F>(
            parse_fn,
            old(buffer).spec_remaining(),
            final(buffer).spec_cursor() - old(buffer).spec_cursor(),
            e,
        ),
{
    let mut results: Vec<T> = Vec::new();
    proof {
        let rem0 = old(buffer).spec_remaining();
        let ends = chunk_ends::<T>(rem0, 0);
        assert(ends.skip(0) =~= ends);
    }
    loop
        invariant_except_break
            old(buffer).wf(),
            buffer.wf(),
            buffer.spec_tokens() == old(buffer).spec_tokens(),
            buffer.spec_cursor() >= old(buffer).spec_cursor(),
            forall|sl: &[T::Token]| call_requires(parse_fn, (sl,)),
            ({
                let rem0 = old(buffer).spec_remaining();
                let ends = chunk_ends::<T>(rem0, 0);
                let m = results@.len() as int;
                let consumed = if m == 0 {
                    0int
                } else {
                    ends[m - 1]
                };
                &&& m <= ends.len()
                &&& buffer.spec_cursor() == old(buffer).spec_cursor() + consumed
                &&& 0 <= consumed <= rem0.len()
                &&& ends.skip(m) == chunk_ends::<T>(rem0, consumed)
                &&& forall|k: int|
                    0 <= k < m ==> chunk_parsed_at::<T::Token, T, E, F>(
                        parse_fn,
                        rem0,
                        if k == 0 {
                            0int
                        } else {
                            ends[k - 1]
                        },
                        ends[k],
                        #[trigger] results@[k],
                    )
            }),
        ensures
            buffer.wf(),
            buffer.spec_tokens() == old(buffer).spec_tokens(),
            buffer.spec_cursor() >= old(buffer).spec_cursor(),
            spec_scan_boundary::<T>(buffer.spec_remaining(), 0, 0) is None,
            ({
                let rem0 = old(buffer).spec_remaining();
                let ends = chunk_ends::<T>(rem0, 0);
                &&& results@.len() == ends.len()
                &&& buffer.spec_cursor() == old(buffer).spec_cursor() + (if ends.len() == 0 {
                    0int
                } else {
                    ends.last()
                })
                &&& forall|k: int|
                    0 <= k < ends.len() ==> chunk_parsed_at::<T::Token, T, E, F>(
                        parse_fn,
                        rem0,
                        if k == 0 {
                            0int
                        } else {
                            ends[k - 1]
                        },
                        ends[k],
                        #[trigger] results@[k],
                    )
            }),
        decreases buffer.spec_tokens().len() - buffer.spec_cursor(),
    {
        let ghost rem0 = old(buffer).spec_remaining();
        let ghost ends = chunk_ends::<T>(rem0, 0);
        let ghost m = results@.len() as int;
        let ghost consumed = if m == 0 {
            0int
        } else {
            ends[m - 1]
        };
        let remaining = buffer.remaining();
        proof {
            assert(remaining@.len() == rem0.len() - consumed);
            assert forall|j: int| 0 <= j < remaining@.len() implies remaining@[j] == rem0.subrange(
                consumed,
                rem0.len() as int,
            )[j] by {
                assert(remaining@[j] == buffer.spec_tokens()[buffer.spec_cursor() + j]);
                assert(rem0[consumed + j] == old(buffer).spec_tokens()[old(buffer).spec_cursor()
                    + consumed + j]);
            }
            assert(remaining@ =~= rem0.subrange(consumed, rem0.len() as int));
        }
        let boundary = match find_boundary_from::<T>(remaining, 0, 0) {
            Some(b) => b,
            None => {
                proof {
                    lemma_scan_shift::<T>(rem0, consumed, 0, 0);
                    assert(chunk_ends::<T>(rem0, consumed) =~= Seq::<int>::empty());
                    assert(ends.skip(m).len() == 0);
                    assert(m == ends.len());
                }
                break ;
            },
        };
        proof {
            lemma_scan_shift::<T>(rem0, consumed, 0, 0);
            assert(spec_scan_boundary::<T>(rem0, consumed, 0) == Some(consumed + boundary));
            assert(chunk_ends::<T>(rem0, consumed) == seq![consumed + boundary]
                + chunk_ends::<T>(rem0, consumed + boundary));
            assert(ends.skip(m)[0] == consumed + boundary);
            assert(ends[m] == consumed + boundary);
            assert(ends.skip(m).skip(1) =~= ends.skip(m + 1));
            assert(ends.skip(m + 1) =~= chunk_ends::<T>(rem0, consumed + boundary));
        }
        let chunk = &remaining[0..boundary];
        proof {
            assert(chunk@ =~= rem0.subrange(consumed, consumed + boundary));
        }
        let node = match parse_fn(chunk) {
            Ok(node) => node,
            Err(e) => {
                proof {
                    assert(call_ensures(parse_fn, (chunk,), Err::<T, E>(e)));
                    assert(0 <= m < ends.len());
                    assert(ends[m] == consumed + boundary);
                    assert(chunk_lo(ends, m) == consumed);
                    assert(chunk_failed_at::<T::Token, T, E, F>(
                        parse_fn,
                        rem0,
                        chunk_lo(ends, m),
                        ends[m],
                        e,
                    ));
                    assert(buffer.spec_cursor() == old(buffer).spec_cursor() + chunk_lo(
                        ends,
                        m,
                    ));
                    assert(chunks_failed_at::<T, E, F>(
                        parse_fn,
                        rem0,
                        buffer.spec_cursor() - old(buffer).spec_cursor(),
                        e,
                    ));
                }
                return Err(e);
            },
        };
        proof {
            assert(call_ensures(parse_fn, (chunk,), Ok::<T, E>(node)));
            assert(chunk_parsed_at::<T::Token, T, E, F>(
                parse_fn,
                rem0,
                consumed,
                consumed + boundary,
                node,
            ));
        }
        results.push(node);
        buffer.consume(boundary);
    }
    Ok(results)
}

} // verus!
