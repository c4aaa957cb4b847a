//! Parser configuration: resource limits and the recursion guard.

use vstd::prelude::*;
use crate::error::Error;

verus! {

/// Configuration for parser behaviour and resource limits.
///
/// Deeply nested input can overflow the stack of a recursive-descent parser,
/// and unbounded input can exhaust memory; these limits bound both.
#[derive(Debug, Clone, Copy, PartialEq, Eq, Structural)]
pub struct ParseConfig {
    /// Maximum allowed recursion depth; parsing deeper than this fails with
    /// [`Error::RecursionLimitExceeded`]. Default: 128.
    pub max_recursion_depth: usize,
    /// Maximum number of tokens to process. Default: `usize::MAX` (no limit).
    pub max_tokens: usize,
}

impl ParseConfig {
    /// The configuration with the default limits.
    pub fn new() -> (r: ParseConfig)
        ensures
            r.max_recursion_depth == 128,
            r.max_tokens == usize::MAX,
    {
        ParseConfig { max_recursion_depth: 128, max_tokens: usize::MAX }
    }

    /// Replaces the maximum recursion depth.
    pub fn with_max_recursion_depth(self, depth: usize) -> (r: ParseConfig)
        ensures
            r.max_recursion_depth == depth,
            r.max_tokens == self.max_tokens,
    {
        ParseConfig { max_recursion_depth: depth, ..self }
    }

    /// Replaces the maximum token count.
    pub fn with_max_tokens(self, count: usize) -> (r: ParseConfig)
        ensures
            r.max_recursion_depth == self.max_recursion_depth,
            r.max_tokens == count,
    {
        ParseConfig { max_tokens: count, ..self }
    }

    /// Removes the recursion limit. Only safe for trusted input: deeply
    /// nested input can then overflow the stack.
    pub fn disable_recursion_limit(self) -> (r: ParseConfig)
        ensures
            r.max_recursion_depth == usize::MAX,
            r.max_tokens == self.max_tokens,
    {
        self.with_max_recursion_depth(usize::MAX)
    }
}

impl Default for ParseConfig {
    /// The default configuration: recursion depth 128, no token limit.
    fn default() -> (r: ParseConfig)
        ensures
            r.max_recursion_depth == 128,
            r.max_tokens == usize::MAX,
    {
        ParseConfig::new()
    }
}

/// Tracks recursion depth during parsing, enforcing the limit from
/// [`ParseConfig::max_recursion_depth`].
#[derive(Debug, Clone, Copy)]
pub struct RecursionGuard {
    depth: usize,
}

impl RecursionGuard {
    /// The current depth.
    pub closed spec fn spec_depth(&self) -> int {
        self.depth as int
    }

    /// A fresh guard at depth 0.
    pub fn new() -> (r: RecursionGuard)
        ensures
            r.spec_depth() == 0,
    {
        RecursionGuard { depth: 0 }
    }

    /// The current recursion depth.
    pub fn depth(&self) -> (d: usize)
        ensures
            d == self.spec_depth(),
    {
        self.depth
    }

    /// Enters a nested context: increments the depth (saturating) and fails
    /// with [`Error::RecursionLimitExceeded`] exactly when the new depth
    /// exceeds `limit`.
    pub fn enter(&mut self, limit: usize) -> (r: Result<(), Error>)
        ensures
            final(self).spec_depth() == if old(self).spec_depth() + 1 <= usize::MAX {
                old(self).spec_depth() + 1
            } else {
                usize::MAX as int
            },
            r is Ok <==> final(self).spec_depth() <= limit,
            r is Err ==> r == Err::<(), Error>((Error::RecursionLimitExceeded {
                depth: final(self).spec_depth() as usize,
                limit,
            })),
    {
        self.depth = self.depth.saturating_add(1);
        if self.depth > limit {
            Err(Error::RecursionLimitExceeded { depth: self.depth, limit })
        } else {
            Ok(())
        }
    }

    /// Leaves a nested context: decrements the depth, saturating at 0 so that
    /// an extra call cannot underflow.
    pub fn exit(&mut self)
        ensures
            final(self).spec_depth() == if old(self).spec_depth() >= 1 {
                old(self).spec_depth() - 1
            } else {
                0
            },
    {
        self.depth = self.depth.saturating_sub(1);
    }

    /// Resets the depth to 0, for reusing a parser across inputs.
    pub fn reset(&mut self)
        ensures
            final(self).spec_depth() == 0,
    {
        self.depth = 0;
    }
}

impl Default for RecursionGuard {
    /// A fresh guard at depth 0.
    fn default() -> (r: RecursionGuard)
        ensures
            r.spec_depth() == 0,
    {
        RecursionGuard::new()
    }
}

} // verus!
