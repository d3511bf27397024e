//! Deciding whether a conversation has outgrown the model's context window.
use vstd::prelude::*;

use super::config::CompactionConfig;
use super::consts::COMPACTION_BUFFER;

verus! {

/// Token limits of a model.
#[derive(Debug, Clone, Copy, PartialEq, Eq)]
pub struct ModelLimit {
    /// The whole context window; 0 when unknown.
    pub context: usize,
    /// A separate input limit; 0 when unknown, in which case `context - max_output` is used.
    pub input: usize,
    /// Largest reply the model produces.
    pub max_output: usize,
}

impl ModelLimit {
    /// Limits assumed when no metadata is known.
    pub fn fallback() -> (r: ModelLimit)
        ensures
            r.context == 200_000,
            r.input == 180_000,
            r.max_output == 8_000,
    {
        ModelLimit { context: 200_000, input: 180_000, max_output: 8_000 }
    }
}

/// Token usage reported for a conversation.
#[derive(Debug, Clone, Copy, Default, PartialEq, Eq)]
pub struct TokenCounts {
    /// Total reported by the model, 0 when not reported.
    pub total: usize,
    pub input: usize,
    pub output: usize,
    pub cache_read: usize,
    pub cache_write: usize,
}

impl TokenCounts {
    /// The counted tokens: the reported total, or the sum of the parts when no total is given.
    pub open spec fn count_spec(self) -> int {
        if self.total > 0 {
            self.total as int
        } else {
            self.input + self.output + self.cache_read + self.cache_write
        }
    }

    /// Whether the parts can be summed without overflow.
    pub open spec fn summable(self) -> bool {
        self.total > 0 || self.input + self.output + self.cache_read + self.cache_write
            <= usize::MAX
    }

    /// Counted tokens.
    pub fn count(&self) -> (r: usize)
        requires
            self.summable(),
        ensures
            r == self.count_spec(),
    {
        if self.total > 0 {
            self.total
        } else {
            self.input + self.output + self.cache_read + self.cache_write
        }
    }
}

/// `a - b`, or 0 when `b > a`.
pub open spec fn sat_sub(a: int, b: int) -> int {
    if a > b {
        a - b
    } else {
        0
    }
}

/// Tokens held back for the reply.
pub open spec fn reserved_spec(cfg: CompactionConfig, model: ModelLimit) -> int {
    match cfg.reserved {
        Some(r) => r as int,
        None => if COMPACTION_BUFFER < model.max_output {
            COMPACTION_BUFFER as int
        } else {
            model.max_output as int
        },
    }
}

/// Tokens that the conversation may use before it overflows.
pub open spec fn usable_spec(cfg: CompactionConfig, model: ModelLimit) -> int {
    if model.context == 0 {
        0
    } else if model.input > 0 {
        sat_sub(model.input as int, reserved_spec(cfg, model))
    } else {
        sat_sub(model.context as int, model.max_output as int)
    }
}

/// Whether the counted tokens reach the usable limit.
pub open spec fn is_overflow_spec(cfg: CompactionConfig, tokens: TokenCounts, model: ModelLimit) -> bool {
    cfg.auto && model.context != 0 && tokens.count_spec() >= usable_spec(cfg, model)
}

/// Usable tokens: the input limit less the reserve, or the context less the reply size.
pub fn usable(cfg: &CompactionConfig, model: ModelLimit) -> (r: usize)
    ensures
        r == usable_spec(*cfg, model),
{
    if model.context == 0 {
        return 0;
    }
    let reserved = match cfg.reserved {
        Some(r) => r,
        None => if COMPACTION_BUFFER < model.max_output {
            COMPACTION_BUFFER
        } else {
            model.max_output
        },
    };
    if model.input > 0 {
        if model.input > reserved {
            model.input - reserved
        } else {
            0
        }
    } else if model.context > model.max_output {
        model.context - model.max_output
    } else {
        0
    }
}

/// Whether the conversation overflows; always false when automatic compaction is off
/// or the context window is unknown.
pub fn is_overflow(cfg: &CompactionConfig, tokens: TokenCounts, model: ModelLimit) -> (r: bool)
    requires
        tokens.summable(),
    ensures
        r == is_overflow_spec(*cfg, tokens, model),
{
    if !cfg.auto {
        return false;
    }
    if model.context == 0 {
        return false;
    }
    tokens.count() >= usable(cfg, model)
}

/// Overflow persists as usage grows: with the same settings and model, a usage whose count
/// is at least that of an overflowing usage overflows too.
pub proof fn lemma_overflow_monotone(
    cfg: CompactionConfig,
    model: ModelLimit,
    a: TokenCounts,
    b: TokenCounts,
)
    requires
        is_overflow_spec(cfg, a, model),
        b.count_spec() >= a.count_spec(),
    ensures
        is_overflow_spec(cfg, b, model),
{
}

/// With automatic compaction off, or an unknown context window, nothing overflows.
pub proof fn lemma_no_overflow_when_disabled(cfg: CompactionConfig, model: ModelLimit, t: TokenCounts)
    requires
        !cfg.auto || model.context == 0,
    ensures
        !is_overflow_spec(cfg, t, model),
{
}

/// The usable count never exceeds the window it is taken from.
pub proof fn lemma_usable_bounded(cfg: CompactionConfig, model: ModelLimit)
    ensures
        0 <= usable_spec(cfg, model),
        model.input > 0 ==> usable_spec(cfg, model) <= model.input,
        model.input == 0 ==> usable_spec(cfg, model) <= model.context,
{
}

/// With no reserve configured and a known input limit, the conversation may use the input
/// limit less the smaller of 20 000 tokens and the model's largest reply (never less than
/// nothing), and, with automatic compaction on, it overflows exactly when its counted tokens
/// reach that.
pub proof fn lemma_default_reserve_is_capped(cfg: CompactionConfig, model: ModelLimit, tokens: TokenCounts)
    requires
        cfg.reserved is None,
        model.context > 0,
        model.input > 0,
    ensures
        ({
            let held: int = if model.max_output < 20_000 {
                model.max_output as int
            } else {
                20_000
            };
            let limit: int = if model.input > held {
                model.input - held
            } else {
                0
            };
            &&& usable_spec(cfg, model) == limit
            &&& is_overflow_spec(cfg, tokens, model) <==> (cfg.auto && tokens.count_spec() >= limit)
        }),
{
}

} // verus!
