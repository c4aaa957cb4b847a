//! Shared types of the streaming pipeline: parse outcomes, checkpoints,
//! stream errors, and configuration.

use vstd::prelude::*;
use vstd::string::StringExecFns;
use crate::text::{push_decimal, spec_decimal};

verus! {

/// The outcome of one incremental parse attempt.
#[derive(Debug, Clone, Copy, PartialEq, Eq, Structural)]
pub enum ParseState {
    /// More input is needed before the parse can be decided.
    NeedMore,
    /// One complete node was produced.
    Complete,
    /// The input was invalid.
    Error,
}

/// The state needed to resume an incremental parse after more input arrives.
#[derive(Debug, Clone, Copy, PartialEq, Eq, Structural)]
pub struct ParseCheckpoint {
    /// Absolute position in the logical token stream.
    pub cursor: usize,
    /// Tokens consumed in the current batch; a hint used to time buffer
    /// compaction, reset to 0 when the buffer is compacted.
    pub tokens_consumed: usize,
    /// Opaque word reserved for parsers with non-trivial resumption state.
    pub state: u64,
}

impl Default for ParseCheckpoint {
    /// The initial checkpoint: everything zero.
    fn default() -> (r: ParseCheckpoint)
        ensures
            r == (ParseCheckpoint { cursor: 0, tokens_consumed: 0, state: 0 }),
    {
        ParseCheckpoint { cursor: 0, tokens_consumed: 0, state: 0 }
    }
}

/// An error raised by the streaming pipeline.
#[derive(Debug, Clone, PartialEq, Eq)]
pub enum StreamError {
    /// A channel was closed while the pipeline still had data to send.
    ChannelClosed,
    /// The lexer rejected its input; the message comes from the lexer.
    LexError(String),
    /// The parser rejected its input; the message comes from the parser.
    ParseError(String),
    /// Input ended while a unit was still incomplete.
    IncompleteInput,
    /// A source chunk exceeded the configured maximum size.
    ChunkTooLarge {
        /// The size of the rejected chunk.
        size: usize,
        /// The configured maximum.
        max: usize,
    },
    /// The token buffer exceeded its configured bound.
    BufferOverflow {
        /// The buffer size that broke the bound.
        current: usize,
        /// The bound (twice the configured token buffer size).
        max: usize,
    },
    /// A caller-imposed deadline expired; never raised by the core itself.
    Timeout,
    /// A resource limit was exceeded.
    ResourceLimit {
        /// The name of the exhausted resource.
        resource: &'static str,
        /// The value that broke the limit.
        current: usize,
        /// The limit.
        max: usize,
    },
}

/// The rendered message for each stream error kind.
pub open spec fn spec_stream_error_message(e: StreamError) -> Seq<char> {
    match e {
        StreamError::ChannelClosed => "channel closed unexpectedly"@,
        StreamError::LexError(msg) => "lex error: "@ + msg@,
        StreamError::ParseError(msg) => "parse error: "@ + msg@,
        StreamError::IncompleteInput => "incomplete input at end of stream"@,
        StreamError::ChunkTooLarge { size, max } => "chunk size "@ + spec_decimal(size as nat)
            + " exceeds maximum "@ + spec_decimal(max as nat),
        StreamError::BufferOverflow { current, max } => "buffer size "@
            + spec_decimal(current as nat) + " exceeds maximum "@ + spec_decimal(max as nat),
        StreamError::Timeout => "timeout waiting for input"@,
        StreamError::ResourceLimit { resource, current, max } => resource@
            + " limit exceeded: "@ + spec_decimal(current as nat) + " > "@
            + spec_decimal(max as nat),
    }
}

impl StreamError {
    /// A human-readable message naming the kind and its numbers.
    pub fn describe(&self) -> (r: String)
        ensures
            r@ == spec_stream_error_message(*self),
    {
        match self {
            StreamError::ChannelClosed => "channel closed unexpectedly".to_owned(),
            StreamError::LexError(msg) => {
                let mut s = "lex error: ".to_owned();
                s.append(msg.as_str());
                s
            },
            StreamError::ParseError(msg) => {
                let mut s = "parse error: ".to_owned();
                s.append(msg.as_str());
                s
            },
            StreamError::IncompleteInput => "incomplete input at end of stream".to_owned(),
            StreamError::ChunkTooLarge { size, max } => {
                let mut s = "chunk size ".to_owned();
                push_decimal(&mut s, *size as u64);
                s.append(" exceeds maximum ");
                push_decimal(&mut s, *max as u64);
                s
            },
            StreamError::BufferOverflow { current, max } => {
                let mut s = "buffer size ".to_owned();
                push_decimal(&mut s, *current as u64);
                s.append(" exceeds maximum ");
                push_decimal(&mut s, *max as u64);
                s
            },
            StreamError::Timeout => "timeout waiting for input".to_owned(),
            StreamError::ResourceLimit { resource, current, max } => {
                let mut s = (*resource).to_owned();
                s.append(" limit exceeded: ");
                push_decimal(&mut s, *current as u64);
                s.append(" > ");
                push_decimal(&mut s, *max as u64);
                s
            },
        }
    }
}

/// Pre-allocation hints for an incremental lexer.
#[derive(Debug, Clone, Copy, PartialEq, Eq, Structural)]
pub struct LexerCapacityHint {
    /// Expected size of the accumulated source buffer, in bytes.
    pub buffer_capacity: usize,
    /// Expected number of tokens produced per chunk.
    pub tokens_per_chunk: usize,
}

impl LexerCapacityHint {
    /// Hints for small inputs (under 1 KiB).
    pub fn small() -> (r: LexerCapacityHint)
        ensures
            r == (LexerCapacityHint { buffer_capacity: 256, tokens_per_chunk: 32 }),
    {
        LexerCapacityHint { buffer_capacity: 256, tokens_per_chunk: 32 }
    }

    /// Hints for medium inputs (1 KiB to 64 KiB).
    pub fn medium() -> (r: LexerCapacityHint)
        ensures
            r == (LexerCapacityHint { buffer_capacity: 4096, tokens_per_chunk: 256 }),
    {
        LexerCapacityHint { buffer_capacity: 4096, tokens_per_chunk: 256 }
    }

    /// Hints for large inputs (over 64 KiB).
    pub fn large() -> (r: LexerCapacityHint)
        ensures
            r == (LexerCapacityHint { buffer_capacity: 65536, tokens_per_chunk: 2048 }),
    {
        LexerCapacityHint { buffer_capacity: 65536, tokens_per_chunk: 2048 }
    }

    /// Hints derived from an expected chunk size, estimating roughly one
    /// token per four bytes.
    pub fn from_chunk_size(chunk_size: usize) -> (r: LexerCapacityHint)
        ensures
            r == (LexerCapacityHint {
                buffer_capacity: chunk_size,
                tokens_per_chunk: chunk_size / 4,
            }),
    {
        LexerCapacityHint { buffer_capacity: chunk_size, tokens_per_chunk: chunk_size / 4 }
    }
}

impl Default for LexerCapacityHint {
    /// The medium hints.
    fn default() -> (r: LexerCapacityHint)
        ensures
            r == (LexerCapacityHint { buffer_capacity: 4096, tokens_per_chunk: 256 }),
    {
        LexerCapacityHint::medium()
    }
}

/// Configuration of the streaming pipeline: buffer sizes, chunk bound, and
/// lexer hints.
#[derive(Debug, Clone, Copy, PartialEq, Eq, Structural)]
pub struct StreamConfig {
    /// Token buffer size: the buffer may hold at most twice this many tokens
    /// before the parser stage fails with [`StreamError::BufferOverflow`].
    pub token_buffer_size: usize,
    /// Capacity of the node output queue (backpressure bound).
    pub ast_buffer_size: usize,
    /// Maximum accepted source chunk size; larger chunks fail fast with
    /// [`StreamError::ChunkTooLarge`].
    pub max_chunk_size: usize,
    /// Pre-allocation hints handed to the incremental lexer.
    pub lexer_hint: LexerCapacityHint,
}

impl StreamConfig {
    /// Configuration for small inputs (under 1 KiB).
    pub fn small() -> (r: StreamConfig)
        ensures
            r.token_buffer_size == 128,
            r.ast_buffer_size == 16,
            r.max_chunk_size == 4096,
            r.lexer_hint == (LexerCapacityHint { buffer_capacity: 256, tokens_per_chunk: 32 }),
    {
        StreamConfig {
            token_buffer_size: 128,
            ast_buffer_size: 16,
            max_chunk_size: 4096,
            lexer_hint: LexerCapacityHint::small(),
        }
    }

    /// Configuration for medium inputs (1 KiB to 64 KiB); also the default.
    pub fn medium() -> (r: StreamConfig)
        ensures
            r.token_buffer_size == 1024,
            r.ast_buffer_size == 64,
            r.max_chunk_size == 65536,
            r.lexer_hint == (LexerCapacityHint { buffer_capacity: 4096, tokens_per_chunk: 256 }),
    {
        StreamConfig {
            token_buffer_size: 1024,
            ast_buffer_size: 64,
            max_chunk_size: 65536,
            lexer_hint: LexerCapacityHint::medium(),
        }
    }

    /// Configuration for large inputs (over 64 KiB).
    pub fn large() -> (r: StreamConfig)
        ensures
            r.token_buffer_size == 8192,
            r.ast_buffer_size == 512,
            r.max_chunk_size == 262144,
            r.lexer_hint == (LexerCapacityHint { buffer_capacity: 65536, tokens_per_chunk: 2048 }),
    {
        StreamConfig {
            token_buffer_size: 8192,
            ast_buffer_size: 512,
            max_chunk_size: 262144,
            lexer_hint: LexerCapacityHint::large(),
        }
    }

    /// Configuration derived from an expected chunk size `N`: a token buffer
    /// of `N / 4`, a node queue of `N / 64`, and chunks of at most `2 N`.
    pub fn from_chunk_size(chunk_size: usize) -> (r: StreamConfig)
        requires
            chunk_size * 2 <= usize::MAX,
        ensures
            r.token_buffer_size == chunk_size / 4,
            r.ast_buffer_size == chunk_size / 4 / 16,
            r.max_chunk_size == chunk_size * 2,
            r.lexer_hint == (LexerCapacityHint { buffer_capacity: chunk_size, tokens_per_chunk: chunk_size / 4 }),
    {
        let tokens_estimate = chunk_size / 4;
        StreamConfig {
            token_buffer_size: tokens_estimate,
            ast_buffer_size: tokens_estimate / 16,
            max_chunk_size: chunk_size * 2,
            lexer_hint: LexerCapacityHint::from_chunk_size(chunk_size),
        }
    }
}

impl Default for StreamConfig {
    /// The medium configuration.
    fn default() -> (r: StreamConfig)
        ensures
            r.token_buffer_size == 1024,
            r.ast_buffer_size == 64,
            r.max_chunk_size == 65536,
            r.lexer_hint == (LexerCapacityHint { buffer_capacity: 4096, tokens_per_chunk: 256 }),
    {
        StreamConfig::medium()
    }
}

} // verus!
