//! Choosing between shell and agent input when the typed text matches history.
use vstd::prelude::*;

verus! {

/// The kind of input the user is typing.
#[derive(Debug, Clone, Copy, PartialEq, Eq, Structural)]
pub enum InputType {
    Shell,
    AI,
}

/// Whether, and when, a history source last held the typed text.
#[derive(Debug, Clone, Copy, PartialEq, Eq, Structural)]
pub enum HistoryMatch {
    NoMatch,
    /// Matched an entry that carries no timestamp.
    MatchedWithoutTimestamp,
    /// Matched an entry made at this time (milliseconds since the epoch).
    MatchedAt(i64),
}

/// The decision a history match forces, if any: neither source matching decides nothing;
/// a single matching source decides for itself; when both match, the prompt wins only when
/// it is provably newer (it has a timestamp and the command has none or an earlier one).
pub open spec fn resolve_spec(command: HistoryMatch, prompt: HistoryMatch) -> Option<InputType> {
    match (command, prompt) {
        (HistoryMatch::NoMatch, HistoryMatch::NoMatch) => None,
        (HistoryMatch::NoMatch, _) => Some(InputType::AI),
        (_, HistoryMatch::NoMatch) => Some(InputType::Shell),
        (HistoryMatch::MatchedAt(c), HistoryMatch::MatchedAt(p)) => if p > c {
            Some(InputType::AI)
        } else {
            Some(InputType::Shell)
        },
        (HistoryMatch::MatchedWithoutTimestamp, HistoryMatch::MatchedAt(_)) => Some(InputType::AI),
        (_, HistoryMatch::MatchedWithoutTimestamp) => Some(InputType::Shell),
    }
}

/// Resolves the input type from the command-history and prompt-history matches.
pub fn resolve_history_match(command: HistoryMatch, prompt: HistoryMatch) -> (r: Option<InputType>)
    ensures
        r == resolve_spec(command, prompt),
{
    match (command, prompt) {
        (HistoryMatch::NoMatch, HistoryMatch::NoMatch) => None,
        (HistoryMatch::NoMatch, _) => Some(InputType::AI),
        (_, HistoryMatch::NoMatch) => Some(InputType::Shell),
        (HistoryMatch::MatchedAt(c), HistoryMatch::MatchedAt(p)) => if p > c {
            Some(InputType::AI)
        } else {
            Some(InputType::Shell)
        },
        (HistoryMatch::MatchedWithoutTimestamp, HistoryMatch::MatchedAt(_)) => Some(InputType::AI),
        (_, HistoryMatch::MatchedWithoutTimestamp) => Some(InputType::Shell),
    }
}

/// A decision is made exactly when some source matched.
pub proof fn lemma_decides_iff_some_match(command: HistoryMatch, prompt: HistoryMatch)
    ensures
        resolve_spec(command, prompt) is Some <==> !(command is NoMatch && prompt is NoMatch),
{
}

/// Ties and unprovable recency go to the shell: whenever the command matched and the
/// prompt is not strictly newer by timestamp, the decision is the shell.
pub proof fn lemma_shell_unless_prompt_newer(command: HistoryMatch, prompt: HistoryMatch)
    requires
        !(command is NoMatch),
        !(prompt matches HistoryMatch::MatchedAt(p) && (command is MatchedWithoutTimestamp || (
        command matches HistoryMatch::MatchedAt(c) && p > c))),
    ensures
        resolve_spec(command, prompt) == Some(InputType::Shell),
{
}

} // verus!
