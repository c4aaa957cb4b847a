//! Core error type for stream and parser operations.
//!
//! Domain-specific error types embed these kinds or are convertible from
//! them.

use vstd::prelude::*;
use vstd::string::StringExecFns;
use crate::text::{push_decimal, spec_decimal};

verus! {

/// An error raised by the core stream and parser machinery.
#[derive(Debug, Clone, Copy, PartialEq, Eq, Structural)]
pub enum Error {
    /// The token stream still held significant tokens after parsing;
    /// returned by `ensure_consumed`.
    StreamNotConsumed {
        /// Number of remaining significant tokens.
        remaining: usize,
    },
    /// Nested parsing exceeded the configured maximum recursion depth.
    RecursionLimitExceeded {
        /// The depth at which the limit was exceeded.
        depth: usize,
        /// The configured limit.
        limit: usize,
    },
    /// The parser consumed more tokens than the configured maximum.
    TokenLimitExceeded {
        /// Number of tokens consumed when the limit was exceeded.
        consumed: usize,
        /// The configured limit.
        limit: usize,
    },
}

/// The rendered message for each error kind.
pub open spec fn spec_error_message(e: Error) -> Seq<char> {
    match e {
        Error::StreamNotConsumed { remaining } => "stream not fully consumed: "@
            + spec_decimal(remaining as nat) + " tokens remaining"@,
        Error::RecursionLimitExceeded { depth, limit } => "recursion limit exceeded: depth "@
            + spec_decimal(depth as nat) + " > limit "@ + spec_decimal(limit as nat),
        Error::TokenLimitExceeded { consumed, limit } => "token limit exceeded: consumed "@
            + spec_decimal(consumed as nat) + " > limit "@ + spec_decimal(limit as nat),
    }
}

impl Error {
    /// A human-readable message naming the kind and its numbers.
    pub fn describe(&self) -> (r: String)
        ensures
            r@ == spec_error_message(*self),
    {
        match self {
            Error::StreamNotConsumed { remaining } => {
                let mut s = "stream not fully consumed: ".to_owned();
                push_decimal(&mut s, *remaining as u64);
                s.append(" tokens remaining");
                s
            },
            Error::RecursionLimitExceeded { depth, limit } => {
                let mut s = "recursion limit exceeded: depth ".to_owned();
                push_decimal(&mut s, *depth as u64);
                s.append(" > limit ");
                push_decimal(&mut s, *limit as u64);
                s
            },
            Error::TokenLimitExceeded { consumed, limit } => {
                let mut s = "token limit exceeded: consumed ".to_owned();
                push_decimal(&mut s, *consumed as u64);
                s.append(" > limit ");
                push_decimal(&mut s, *limit as u64);
                s
            },
        }
    }
}

} // verus!
