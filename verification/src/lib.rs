//! A toolkit for hand-written, type-directed parsers with first-class support
//! for incremental streaming.
//!
//! The crate is built from three tightly coupled subsystems:
//!
//! * a forkable, random-access token stream over a shared buffer of spanned
//!   tokens, with backtracking lookahead and zero-copy sub-streams for
//!   delimiter extraction;
//! * an incremental lex-then-parse pipeline with an explicit chunk-boundary
//!   protocol that decides, from a prefix of tokens alone, whether one more
//!   complete unit has arrived;
//! * a streaming coordinator state machine with bounded buffers and
//!   compaction, around which an asynchronous pipeline can be wired.

pub mod buffer;
pub mod config;
pub mod coordinator;
pub mod delimited;
pub mod error;
pub mod incremental;
pub mod lexer;
pub mod parse;
pub mod pipeline;
pub mod printer;
pub mod punctuated;
pub mod record;
pub mod repeated;
pub mod span;
pub mod stream;
pub mod text;
pub mod token;
pub mod tokens;
pub mod traits;

pub use buffer::IncrementalBuffer;
pub use config::{ParseConfig, RecursionGuard};
pub use coordinator::{LexerStage, ParserStage};
pub use delimited::Delimited;
pub use error::Error;
pub use incremental::{parse_available_chunks, ChunkBoundary, IncrementalLexer, IncrementalParse};
pub use lexer::{LexError, LineLexer};
pub use parse::{Diagnostic, Parse, ParseError, Peek};
pub use pipeline::{LexerCapacityHint, ParseCheckpoint, ParseState, StreamConfig, StreamError};
pub use printer::{Printer, ToTokens};
pub use punctuated::{Punctuated, PunctuatedInner, Separated, Terminated, TrailingPolicy};
pub use record::{KeyValue, Record, Value};
pub use repeated::{Repeated, RepeatedItem};
pub use span::{RawSpan, Span, Spanned};
pub use stream::{SpannedToken, TokenStream};
pub use text::to_snake_case;
pub use token::{Token, TokenV};
pub use traits::{MappedSpanned, SpanLike, SpannedError, SpannedLike};
