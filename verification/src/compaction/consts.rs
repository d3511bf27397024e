//! Thresholds of the compaction algorithm.
use vstd::prelude::*;

verus! {

/// Pruning only happens when it would clear more than this many tokens.
pub const PRUNE_MINIMUM: usize = 20_000;

/// The most recent tool output, up to this many tokens, is never pruned.
pub const PRUNE_PROTECT: usize = 40_000;

/// Longest tool output kept in a compaction request, in characters.
pub const TOOL_OUTPUT_MAX_CHARS: usize = 2_000;

/// Number of most recent user turns kept verbatim by default.
pub const DEFAULT_TAIL_TURNS: usize = 2;

/// Lower bound of the default budget for the verbatim tail, in tokens.
pub const MIN_PRESERVE_RECENT_TOKENS: usize = 2_000;

/// Upper bound of the default budget for the verbatim tail, in tokens.
pub const MAX_PRESERVE_RECENT_TOKENS: usize = 8_000;

/// Tokens held back from the input limit for the model's reply.
pub const COMPACTION_BUFFER: usize = 20_000;

/// Characters counted as one token by the estimator.
pub const CHARS_PER_TOKEN: usize = 4;

} // verus!
