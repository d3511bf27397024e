//! User-facing compaction settings.
use vstd::prelude::*;

use super::consts::{DEFAULT_TAIL_TURNS, MAX_PRESERVE_RECENT_TOKENS, MIN_PRESERVE_RECENT_TOKENS};

verus! {

/// Compaction settings.
#[derive(Debug, Clone, Copy, PartialEq, Eq)]
pub struct CompactionConfig {
    /// Whether overflow triggers compaction automatically.
    pub auto: bool,
    /// Whether old tool outputs are pruned before each request.
    pub prune: bool,
    /// Number of most recent user turns kept verbatim (0 summarises everything).
    pub tail_turns: usize,
    /// Tokens held back for the reply; `None` uses `min(COMPACTION_BUFFER, max_output)`.
    pub reserved: Option<usize>,
    /// Token budget for the verbatim tail; `None` derives it from the usable window.
    pub preserve_recent_tokens: Option<usize>,
}

/// `v` limited to `[lo, hi]` (with `lo <= hi`).
pub open spec fn clamp(v: int, lo: int, hi: int) -> int {
    if v < lo {
        lo
    } else if v > hi {
        hi
    } else {
        v
    }
}

impl CompactionConfig {
    /// The budget for the verbatim tail given the usable token count: the configured
    /// value, or a quarter of the usable window kept between the two bounds.
    pub open spec fn budget_spec(self, usable: nat) -> nat {
        match self.preserve_recent_tokens {
            Some(b) => b as nat,
            None => clamp(
                usable as int / 4,
                MIN_PRESERVE_RECENT_TOKENS as int,
                MAX_PRESERVE_RECENT_TOKENS as int,
            ) as nat,
        }
    }

    /// Default settings: automatic, pruning, two verbatim turns, derived budgets.
    pub fn new_default() -> (r: Self)
        ensures
            r.auto,
            r.prune,
            r.tail_turns == DEFAULT_TAIL_TURNS,
            r.reserved is None,
            r.preserve_recent_tokens is None,
    {
        CompactionConfig {
            auto: true,
            prune: true,
            tail_turns: DEFAULT_TAIL_TURNS,
            reserved: None,
            preserve_recent_tokens: None,
        }
    }

    /// Token budget for the verbatim tail.
    pub fn preserve_recent_budget(&self, usable: usize) -> (r: usize)
        ensures
            r == self.budget_spec(usable as nat),
    {
        match self.preserve_recent_tokens {
            Some(b) => b,
            None => {
                let q = usable / 4;
                if q < MIN_PRESERVE_RECENT_TOKENS {
                    MIN_PRESERVE_RECENT_TOKENS
                } else if q > MAX_PRESERVE_RECENT_TOKENS {
                    MAX_PRESERVE_RECENT_TOKENS
                } else {
                    q
                }
            },
        }
    }
}

impl Default for CompactionConfig {
    fn default() -> (r: Self)
        ensures
            r.auto,
            r.prune,
            r.tail_turns == DEFAULT_TAIL_TURNS,
            r.reserved is None,
            r.preserve_recent_tokens is None,
    {
        Self::new_default()
    }
}

} // verus!
