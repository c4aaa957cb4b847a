//! The streaming coordinator's decision logic, as a pair of synchronous
//! state machines: the lexer stage turns source chunks into tokens, the
//! parser stage turns tokens into records. An asynchronous pipeline wires
//! queues around these stages; every decision — chunk-size validation,
//! buffer bounds, compaction, draining, and end-of-input handling — is made
//! here.

use vstd::prelude::*;
use crate::config::ParseConfig;
use crate::lexer::LineLexer;
use crate::pipeline::{ParseCheckpoint, StreamConfig, StreamError};
use crate::record::{
    lemma_next_chunk_bounds, skip_to_end, spec_next_chunk, spec_parse_record,
    spec_record_eof_complete, spec_record_scan, Record, ValueV,
};
use crate::span::Span;
use crate::stream::SpannedToken;
use vstd::string::StrSliceExecFns;

verus! {

/// The lexer stage: validates chunk sizes and feeds an incremental lexer.
pub struct LexerStage {
    lexer: LineLexer,
    config: StreamConfig,
}

impl LexerStage {
    /// The configured maximum chunk size.
    pub closed spec fn spec_max_chunk_size(&self) -> int {
        self.config.max_chunk_size as int
    }

    /// The absolute byte offset of the retained, not yet lexed suffix.
    pub closed spec fn spec_offset(&self) -> int {
        self.lexer.spec_offset()
    }

    /// The retained, not yet lexed suffix.
    pub closed spec fn spec_pending(&self) -> Seq<char> {
        self.lexer.spec_pending()
    }

    /// A fresh stage with the given configuration.
    pub fn new(config: StreamConfig) -> (r: LexerStage)
        ensures
            r.spec_max_chunk_size() == config.max_chunk_size,
            r.spec_offset() == 0,
            r.spec_pending().len() == 0,
    {
        LexerStage { lexer: LineLexer::new(), config }
    }

    /// Processes one source chunk: rejects it with
    /// [`StreamError::ChunkTooLarge`] exactly when it exceeds the configured
    /// maximum, leaving the lexer untouched; otherwise lexes the safely
    /// complete prefix, whose tokens come back in source order with
    /// absolute spans tiling the range between the old and new offset, the
    /// rest of the input being retained.
    pub fn feed(&mut self, chunk: &str) -> (r: Result<Vec<SpannedToken>, StreamError>)
        ensures
            final(self).spec_max_chunk_size() == old(self).spec_max_chunk_size(),
            r matches Err(e) && e is ChunkTooLarge <==> chunk@.len()
                > old(self).spec_max_chunk_size(),
            chunk@.len() > old(self).spec_max_chunk_size() ==> r == Err::<
                Vec<SpannedToken>,
                StreamError,
            >((StreamError::ChunkTooLarge {
                size: chunk@.len() as usize,
                max: old(self).spec_max_chunk_size() as usize,
            })),
            r is Err ==> final(self).spec_offset() == old(self).spec_offset() && final(self).spec_pending() == old(self).spec_pending(),
            r matches Err(e) ==> e is ChunkTooLarge || e is LexError,
            (r matches Err(e) && e is LexError) ==> {
                ||| !vstd::string::is_ascii(chunk)
                ||| old(self).spec_offset() + old(self).spec_pending().len() + chunk@.len()
                    > usize::MAX
                ||| ({
                    let combined = old(self).spec_pending() + chunk@;
                    crate::lexer::spec_lex(
                        combined.subrange(0, crate::lexer::spec_last_newline_end(combined)),
                        old(self).spec_offset(),
                        0,
                    ) is None
                })
            },
            r matches Ok(toks) ==> {
                &&& final(self).spec_offset() >= old(self).spec_offset()
                &&& crate::lexer::tokens_tile(
                    toks@,
                    old(self).spec_offset(),
                    final(self).spec_offset(),
                )
                &&& final(self).spec_offset() + final(self).spec_pending().len() == old(self).spec_offset() + old(self).spec_pending().len() + chunk@.len()
                &&& ({
                    let combined = old(self).spec_pending() + chunk@;
                    let split = combined.len() - final(self).spec_pending().len();
                    &&& final(self).spec_pending() == combined.subrange(
                        split as int,
                        combined.len() as int,
                    )
                    &&& crate::lexer::spec_lex(
                        combined.subrange(0, split as int),
                        old(self).spec_offset(),
                        0,
                    ) matches Some(sts)
                    &&& crate::lexer::token_views(toks@) == crate::lexer::spec_lex(
                        combined.subrange(0, split as int),
                        old(self).spec_offset(),
                        0,
                    )->0
                })
            },
    {
        let size = chunk.unicode_len();
        if size > self.config.max_chunk_size {
            return Err(StreamError::ChunkTooLarge { size, max: self.config.max_chunk_size });
        }
        match self.lexer.feed(chunk) {
            Ok(tokens) => Ok(tokens),
            Err(e) => Err(StreamError::LexError(e.describe())),
        }
    }

    /// Signals the end of input: lexes whatever the lexer retained; on
    /// success the final tokens carry absolute spans tiling exactly the
    /// retained suffix.
    pub fn finish(self) -> (r: Result<Vec<SpannedToken>, StreamError>)
        ensures
            r matches Ok(toks) ==> crate::lexer::tokens_tile(
                toks@,
                self.spec_offset(),
                self.spec_offset() + self.spec_pending().len(),
            ),
            r matches Ok(toks) ==> crate::lexer::spec_lex(
                self.spec_pending(),
                self.spec_offset(),
                0,
            ) matches Some(sts) && crate::lexer::token_views(toks@) == sts,
            r is Err <==> crate::lexer::spec_lex(self.spec_pending(), self.spec_offset(), 0)
                is None,
    {
        match self.lexer.finish() {
            Ok(tokens) => Ok(tokens),
            Err(e) => Err(StreamError::LexError(e.describe())),
        }
    }
}

/// The views of a sequence of records: each is its value's view paired with
/// its span.
pub open spec fn record_views(records: Seq<Record>) -> Seq<(ValueV, Span)> {
    Seq::new(records.len(), |k: int| (records[k].value@, records[k].span))
}

/// The outcome of draining every currently complete record: the records in
/// order, the cursor afterwards, and whether any chunk failed the grammar.
pub struct DrainOutcome {
    /// The records of the completed chunks, in source order.
    pub emitted: Seq<(ValueV, Span)>,
    /// The consumption cursor after draining.
    pub cursor: int,
    /// False exactly when a completed chunk failed the record grammar.
    pub ok: bool,
}

/// Draining, as a specification mirroring the parser stage's loop: chunk by
/// chunk from `cursor`, blank chunks skipped, each remaining chunk parsed by
/// the record grammar, stopping at the first chunk that fails it; `at_eof`
/// says whether end of input has been signalled, which alone allows a final
/// chunk without a boundary.
pub open spec fn spec_drain(
    toks: Seq<SpannedToken>,
    cursor: int,
    limit: int,
    at_eof: bool,
) -> DrainOutcome
    decreases toks.len() - cursor,
{
    if cursor < 0 || cursor >= toks.len() {
        DrainOutcome { emitted: Seq::empty(), cursor, ok: true }
    } else {
        match spec_next_chunk(toks, cursor, at_eof) {
            None => DrainOutcome { emitted: Seq::empty(), cursor, ok: true },
            Some(nc) => {
                if !(1 <= nc.0 && cursor + nc.0 <= toks.len() && 0 <= nc.1 <= nc.0) {
                    DrainOutcome { emitted: Seq::empty(), cursor, ok: true }
                } else {
                    let rem = toks.subrange(cursor, toks.len() as int);
                    if skip_to_end(rem, 0, nc.1) {
                        spec_drain(toks, cursor + nc.0, limit, at_eof)
                    } else {
                        match spec_parse_record(rem.subrange(0, nc.1), limit) {
                            Some(pr) => {
                                let rest = spec_drain(toks, cursor + nc.0, limit, at_eof);
                                DrainOutcome {
                                    emitted: seq![pr] + rest.emitted,
                                    cursor: rest.cursor,
                                    ok: rest.ok,
                                }
                            },
                            None => DrainOutcome { emitted: Seq::empty(), cursor, ok: false },
                        }
                    }
                }
            },
        }
    }
}

/// The parser stage: a token buffer and a checkpoint, driven one token at a
/// time, emitting records as soon as they are complete and compacting the
/// buffer to keep memory bounded.
pub struct ParserStage {
    buffer: Vec<SpannedToken>,
    checkpoint: ParseCheckpoint,
    config: StreamConfig,
    parse_config: ParseConfig,
    history: Ghost<Seq<SpannedToken>>,
}

impl ParserStage {
    /// The tokens currently buffered (consumed ones included until
    /// compaction).
    pub closed spec fn spec_buffer(&self) -> Seq<SpannedToken> {
        self.buffer@
    }

    /// The checkpoint's cursor into the buffer.
    pub closed spec fn spec_cursor(&self) -> int {
        self.checkpoint.cursor as int
    }

    /// The configured token buffer size.
    pub closed spec fn spec_token_buffer_size(&self) -> int {
        self.config.token_buffer_size as int
    }

    /// The configured recursion limit for record parsing.
    pub closed spec fn spec_limit(&self) -> int {
        self.parse_config.max_recursion_depth as int
    }

    /// Every token this stage has ever accepted, in arrival order,
    /// compacted ones included.
    pub closed spec fn spec_history(&self) -> Seq<SpannedToken> {
        self.history@
    }

    /// How many tokens of the history have been physically dropped by
    /// compaction.
    pub open spec fn spec_base(&self) -> int {
        self.spec_history().len() - self.spec_buffer().len()
    }

    /// The absolute position in the logical token stream up to which
    /// records have been consumed.
    pub open spec fn spec_total_consumed(&self) -> int {
        self.spec_base() + self.spec_cursor()
    }

    /// The unconsumed remainder of the buffer.
    pub open spec fn spec_unconsumed(&self) -> Seq<SpannedToken> {
        self.spec_buffer().subrange(self.spec_cursor(), self.spec_buffer().len() as int)
    }

    /// Whether every currently complete record has been parsed out: either
    /// everything is consumed, or the remainder holds no chunk boundary —
    /// and, once end of input has been signalled, is not complete there
    /// either.
    pub open spec fn fully_drained(&self, at_eof: bool) -> bool {
        ||| self.spec_cursor() >= self.spec_buffer().len()
        ||| (spec_record_scan(self.spec_unconsumed(), 0, 0) is None && (!at_eof
            || !spec_record_eof_complete(self.spec_unconsumed())))
    }

    /// The stage invariant: the buffer is always a suffix of the logical
    /// token history — compaction drops only tokens before the consumption
    /// cursor, so no unconsumed token is ever lost — and the cursor stays
    /// within the buffer.
    pub open spec fn inv(&self) -> bool {
        &&& self.spec_buffer().len() <= self.spec_history().len()
        &&& self.spec_buffer() == self.spec_history().subrange(
            self.spec_base(),
            self.spec_history().len() as int,
        )
        &&& 0 <= self.spec_cursor() <= self.spec_buffer().len()
    }

    /// A fresh stage with the given configurations.
    pub fn new(config: StreamConfig, parse_config: ParseConfig) -> (r: ParserStage)
        ensures
            r.inv(),
            r.spec_buffer() == Seq::<SpannedToken>::empty(),
            r.spec_history() == Seq::<SpannedToken>::empty(),
            r.spec_cursor() == 0,
            r.spec_token_buffer_size() == config.token_buffer_size,
    {
        let r = ParserStage {
            buffer: Vec::new(),
            checkpoint: ParseCheckpoint { cursor: 0, tokens_consumed: 0, state: 0 },
            config,
            parse_config,
            history: Ghost(Seq::empty()),
        };
        proof {
            assert(r.spec_buffer() =~= r.spec_history().subrange(
                r.spec_base(),
                r.spec_history().len() as int,
            ));
        }
        r
    }

    /// Parses every currently complete record, appending each to `out` in
    /// source order; the emitted records and the final consumption cursor —
    /// whether the drain succeeds or stops at a failing chunk — are exactly
    /// what [`spec_drain`] says.
    fn drain(&mut self, out: &mut Vec<Record>, at_eof: bool) -> (r: Result<(), StreamError>)
        ensures
            final(self).spec_buffer() == old(self).spec_buffer(),
            final(self).spec_history() == old(self).spec_history(),
            final(self).spec_token_buffer_size() == old(self).spec_token_buffer_size(),
            final(self).spec_limit() == old(self).spec_limit(),
            final(self).spec_cursor() >= old(self).spec_cursor(),
            old(self).spec_cursor() <= old(self).spec_buffer().len() ==> final(self).spec_cursor() <= final(self).spec_buffer().len(),
            old(out)@.is_prefix_of(final(out)@),
            r is Ok ==> final(self).fully_drained(at_eof),
            r matches Err(e) ==> e is ParseError,
            ({
                let d = spec_drain(
                    old(self).spec_buffer(),
                    old(self).spec_cursor(),
                    old(self).spec_limit(),
                    at_eof,
                );
                &&& (r is Ok <==> d.ok)
                &&& final(self).spec_cursor() == d.cursor
                &&& final(out)@.len() == old(out)@.len() + d.emitted.len()
                &&& record_views(final(out)@.skip(old(out)@.len() as int)) == d.emitted
            }),
    {
        proof {
            assert(out@.skip(old(out)@.len() as int) =~= Seq::<Record>::empty());
            assert(record_views(Seq::<Record>::empty()) =~= Seq::<(ValueV, Span)>::empty());
            assert(Seq::<(ValueV, Span)>::empty() + spec_drain(
                self.spec_buffer(),
                self.spec_cursor(),
                self.spec_limit(),
                at_eof,
            ).emitted =~= spec_drain(
                self.spec_buffer(),
                self.spec_cursor(),
                self.spec_limit(),
                at_eof,
            ).emitted);
        }
        loop
            invariant
                self.spec_buffer() == old(self).spec_buffer(),
                self.spec_history() == old(self).spec_history(),
                self.spec_token_buffer_size() == old(self).spec_token_buffer_size(),
                self.spec_limit() == old(self).spec_limit(),
                self.spec_cursor() >= old(self).spec_cursor(),
                old(self).spec_cursor() <= old(self).spec_buffer().len() ==> self.spec_cursor()
                    <= self.spec_buffer().len(),
                old(out)@.is_prefix_of(out@),
                out@.len() >= old(out)@.len(),
                ({
                    let d0 = spec_drain(
                        old(self).spec_buffer(),
                        old(self).spec_cursor(),
                        old(self).spec_limit(),
                        at_eof,
                    );
                    let dn = spec_drain(
                        self.spec_buffer(),
                        self.spec_cursor(),
                        self.spec_limit(),
                        at_eof,
                    );
                    &&& d0.ok == dn.ok
                    &&& d0.cursor == dn.cursor
                    &&& record_views(out@.skip(old(out)@.len() as int)) + dn.emitted
                        == d0.emitted
                }),
            decreases (if self.spec_cursor() <= self.spec_buffer().len() {
                self.spec_buffer().len() - self.spec_cursor()
            } else {
                0int
            }),
        {
            if self.checkpoint.cursor >= self.buffer.len() {
                proof {
                    let dn = spec_drain(
                        self.spec_buffer(),
                        self.spec_cursor(),
                        self.spec_limit(),
                        at_eof,
                    );
                    assert(dn.emitted =~= Seq::<(ValueV, Span)>::empty());
                    assert(record_views(out@.skip(old(out)@.len() as int)) + dn.emitted
                        =~= record_views(out@.skip(old(out)@.len() as int)));
                }
                return Ok(());
            }
            proof {
                lemma_next_chunk_bounds(self.spec_buffer(), self.spec_cursor(), at_eof);
            }
            let ghost pre_cursor = self.spec_cursor();
            let ghost pre_out = out@;
            match Record::parse_incremental_with(
                self.buffer.as_slice(),
                &self.checkpoint,
                &self.parse_config,
                at_eof,
            ) {
                Ok((Some(record), next)) => {
                    let ghost recv = (record.value@, record.span);
                    self.checkpoint = next;
                    out.push(record);
                    proof {
                        let oldlen = old(out)@.len() as int;
                        let d_pre = spec_drain(
                            self.spec_buffer(),
                            pre_cursor,
                            self.spec_limit(),
                            at_eof,
                        );
                        let d_post = spec_drain(
                            self.spec_buffer(),
                            self.spec_cursor(),
                            self.spec_limit(),
                            at_eof,
                        );
                        assert(d_pre.emitted == seq![recv] + d_post.emitted);
                        assert(out@.skip(oldlen) =~= pre_out.skip(oldlen).push(out@.last()));
                        assert(record_views(out@.skip(oldlen)) =~= record_views(
                            pre_out.skip(oldlen),
                        ).push(recv));
                        assert(record_views(pre_out.skip(oldlen)).push(recv) + d_post.emitted
                            =~= record_views(pre_out.skip(oldlen)) + (seq![recv]
                            + d_post.emitted));
                    }
                },
                Ok((None, next)) => {
                    if next.cursor > self.checkpoint.cursor {
                        self.checkpoint = next;
                    } else {
                        proof {
                            let dn = spec_drain(
                                self.spec_buffer(),
                                self.spec_cursor(),
                                self.spec_limit(),
                                at_eof,
                            );
                            assert(dn.emitted =~= Seq::<(ValueV, Span)>::empty());
                            assert(record_views(out@.skip(old(out)@.len() as int)) + dn.emitted
                                =~= record_views(out@.skip(old(out)@.len() as int)));
                        }
                        return Ok(());
                    }
                },
                Err(e) => {
                    proof {
                        let dn = spec_drain(
                            self.spec_buffer(),
                            self.spec_cursor(),
                            self.spec_limit(),
                            at_eof,
                        );
                        assert(dn.emitted =~= Seq::<(ValueV, Span)>::empty());
                        assert(record_views(out@.skip(old(out)@.len() as int)) + dn.emitted
                            =~= record_views(out@.skip(old(out)@.len() as int)));
                    }
                    return Err(StreamError::ParseError(e.describe()));
                },
            }
        }
    }

    /// Drops the consumed prefix of the buffer once more than half the
    /// configured buffer size has been consumed, rebasing the checkpoint.
    fn maybe_compact(&mut self)
        ensures
            final(self).spec_token_buffer_size() == old(self).spec_token_buffer_size(),
            final(self).spec_history() == old(self).spec_history(),
            final(self).spec_limit() == old(self).spec_limit(),
            final(self).spec_buffer().len() - final(self).spec_cursor()
                == old(self).spec_buffer().len() - old(self).spec_cursor(),
            final(self).spec_buffer().len() <= old(self).spec_buffer().len(),
            old(self).inv() ==> final(self).inv(),
            final(self).spec_total_consumed() == old(self).spec_total_consumed(),
            final(self).spec_unconsumed() == old(self).spec_unconsumed(),
    {
        let consumed = self.checkpoint.tokens_consumed;
        if consumed > self.config.token_buffer_size / 2 && consumed == self.checkpoint.cursor
            && consumed <= self.buffer.len() {
            let rest = self.buffer.split_off(consumed);
            self.buffer = rest;
            self.checkpoint = ParseCheckpoint {
                cursor: 0,
                tokens_consumed: 0,
                state: self.checkpoint.state,
            };
            proof {
                if old(self).inv() {
                    assert(self.spec_buffer() =~= self.spec_history().subrange(
                        self.spec_base(),
                        self.spec_history().len() as int,
                    ));
                }
                assert(self.spec_unconsumed() =~= old(self).spec_unconsumed());
            }
        }
        proof {
            assert(self.spec_unconsumed() =~= old(self).spec_unconsumed());
        }
    }

    /// Receives one token: appends it to the buffer, fails with
    /// [`StreamError::BufferOverflow`] exactly when that would grow the
    /// buffer past twice the configured token buffer size, and otherwise
    /// drains every record that is now complete into `out`, in source
    /// order, compacting afterwards. On success the buffer stays within its
    /// bound, so memory use is bounded by the configuration alone however
    /// long the input runs.
    pub fn on_token(&mut self, token: SpannedToken, out: &mut Vec<Record>) -> (r: Result<
        (),
        StreamError,
    >)
        ensures
            old(out)@.is_prefix_of(final(out)@),
            r matches Err(e) && e is BufferOverflow <==> old(self).spec_buffer().len() + 1 > 2
                * old(self).spec_token_buffer_size(),
            r is Ok ==> final(self).spec_buffer().len() <= 2
                * final(self).spec_token_buffer_size(),
            r is Ok ==> final(self).fully_drained(false),
            final(self).spec_token_buffer_size() == old(self).spec_token_buffer_size(),
            final(self).spec_limit() == old(self).spec_limit(),
            (old(self).spec_buffer().len() + 1 > 2 * old(self).spec_token_buffer_size() && old(self).spec_buffer().len() < usize::MAX) ==> r == Err::<(), StreamError>(
                (StreamError::BufferOverflow {
                    current: (old(self).spec_buffer().len() + 1) as usize,
                    max: (2 * old(self).spec_token_buffer_size()) as usize,
                }),
            ),
            ({
                let d = spec_drain(
                    old(self).spec_buffer().push(token),
                    old(self).spec_cursor(),
                    old(self).spec_limit(),
                    false,
                );
                let over = old(self).spec_buffer().len() + 1 > 2 * old(self).spec_token_buffer_size();
                &&& !over ==> (r is Ok <==> d.ok)
                &&& (!over && !d.ok) ==> (r matches Err(e) && e is ParseError)
                &&& !over ==> final(out)@.len() == old(out)@.len() + d.emitted.len()
                    && record_views(final(out)@.skip(old(out)@.len() as int)) == d.emitted
                &&& !over ==> final(self).spec_total_consumed() == old(self).spec_base()
                    + d.cursor
            }),
            old(self).inv() ==> final(self).inv(),
            old(self).inv() ==> final(self).spec_total_consumed() >= old(self).spec_total_consumed(),
            (old(self).inv() && !(r matches Err(e) && e is BufferOverflow)) ==> final(self).spec_history() == old(self).spec_history().push(token),
            r matches Err(e) && e is BufferOverflow ==> final(self).spec_history() == old(self).spec_history(),
    {
        let ghost incoming = token;
        let len = self.buffer.len();
        if (len as u128) + 1 > 2 * (self.config.token_buffer_size as u128) {
            let max = self.config.token_buffer_size * 2;
            return Err(StreamError::BufferOverflow { current: len.saturating_add(1), max });
        }
        self.buffer.push(token);
        self.history = Ghost(self.history@.push(incoming));
        proof {
            if old(self).inv() {
                assert(self.spec_buffer() =~= self.spec_history().subrange(
                    self.spec_base(),
                    self.spec_history().len() as int,
                ));
            }
        }
        match self.drain(out, false) {
            Ok(()) => {},
            Err(e) => {
                return Err(e);
            },
        }
        self.maybe_compact();
        Ok(())
    }

    /// Receives the end of input: drains once more, then checks that
    /// nothing but trivia remains unconsumed, failing with
    /// [`StreamError::IncompleteInput`] otherwise.
    pub fn on_close(&mut self, out: &mut Vec<Record>) -> (r: Result<(), StreamError>)
        ensures
            old(out)@.is_prefix_of(final(out)@),
            final(self).spec_history() == old(self).spec_history(),
            old(self).inv() ==> final(self).inv() && final(self).spec_total_consumed() >= old(self).spec_total_consumed(),
            ({
                let d = spec_drain(
                    old(self).spec_buffer(),
                    old(self).spec_cursor(),
                    old(self).spec_limit(),
                    true,
                );
                let blen = old(self).spec_buffer().len() as int;
                &&& (!d.ok <==> (r matches Err(e) && e is ParseError))
                &&& final(out)@.len() == old(out)@.len() + d.emitted.len()
                &&& record_views(final(out)@.skip(old(out)@.len() as int)) == d.emitted
                &&& final(self).spec_total_consumed() == old(self).spec_base() + d.cursor
                &&& (d.ok && skip_to_end(old(self).spec_buffer(), d.cursor, blen)) ==> r is Ok
                &&& (d.ok && !skip_to_end(old(self).spec_buffer(), d.cursor, blen)) ==> r
                    == Err::<(), StreamError>(StreamError::IncompleteInput)
            }),
            r is Ok ==> forall|j: int|
                final(self).spec_cursor() <= j < final(self).spec_buffer().len()
                    ==> crate::token::spec_is_skip(
                    (#[trigger] final(self).spec_buffer()[j]).value@,
                ),
            r matches Err(e) ==> e is IncompleteInput || e is ParseError,
    {
        match self.drain(out, true) {
            Ok(()) => {},
            Err(e) => {
                return Err(e);
            },
        }
        let len = self.buffer.len();
        let mut i: usize = self.checkpoint.cursor;
        if i > len {
            return Ok(());
        }
        let start: usize = i;
        while i < len
            invariant
                start <= i <= len,
                len == self.spec_buffer().len(),
                self.spec_buffer() == old(self).spec_buffer(),
                self.spec_history() == old(self).spec_history(),
                old(self).inv() ==> self.inv() && self.spec_total_consumed() >= old(self).spec_total_consumed(),
                old(out)@.is_prefix_of(out@),
                ({
                    let d = spec_drain(
                        old(self).spec_buffer(),
                        old(self).spec_cursor(),
                        old(self).spec_limit(),
                        true,
                    );
                    &&& d.ok
                    &&& start == d.cursor
                    &&& self.spec_cursor() == d.cursor
                    &&& self.spec_total_consumed() == old(self).spec_base() + d.cursor
                    &&& out@.len() == old(out)@.len() + d.emitted.len()
                    &&& record_views(out@.skip(old(out)@.len() as int)) == d.emitted
                }),
                forall|j: int|
                    start <= j < i ==> crate::token::spec_is_skip(
                        (#[trigger] self.spec_buffer()[j]).value@,
                    ),
            decreases len - i,
        {
            if !crate::token::is_skip_token(&self.buffer[i].value) {
                return Err(StreamError::IncompleteInput);
            }
            i = i + 1;
        }
        Ok(())
    }
}

} // verus!
