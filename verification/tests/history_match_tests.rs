use agent_core::history_match::{resolve_history_match, HistoryMatch, InputType};

fn earlier_and_later() -> (i64, i64) {
    let earlier = chrono::Local::now().timestamp_millis();
    (earlier, earlier + 1000)
}

#[test]
fn no_match_from_either_source_is_not_history_match() {
    assert_eq!(
        resolve_history_match(HistoryMatch::NoMatch, HistoryMatch::NoMatch),
        None,
    );
}

#[test]
fn prompt_only_match_locks_to_ai() {
    let (_, prompt_ts) = earlier_and_later();
    assert_eq!(
        resolve_history_match(HistoryMatch::NoMatch, HistoryMatch::MatchedAt(prompt_ts)),
        Some(InputType::AI),
    );
}

#[test]
fn command_only_match_locks_to_shell() {
    let (command_ts, _) = earlier_and_later();
    assert_eq!(
        resolve_history_match(HistoryMatch::MatchedAt(command_ts), HistoryMatch::NoMatch),
        Some(InputType::Shell),
    );
}

#[test]
fn command_only_match_without_timestamp_locks_to_shell() {
    assert_eq!(
        resolve_history_match(HistoryMatch::MatchedWithoutTimestamp, HistoryMatch::NoMatch),
        Some(InputType::Shell),
    );
}

#[test]
fn both_match_prompt_newer_locks_to_ai() {
    let (command_ts, prompt_ts) = earlier_and_later();
    assert_eq!(
        resolve_history_match(
            HistoryMatch::MatchedAt(command_ts),
            HistoryMatch::MatchedAt(prompt_ts),
        ),
        Some(InputType::AI),
    );
}

#[test]
fn both_match_command_newer_locks_to_shell() {
    let (prompt_ts, command_ts) = earlier_and_later();
    assert_eq!(
        resolve_history_match(
            HistoryMatch::MatchedAt(command_ts),
            HistoryMatch::MatchedAt(prompt_ts),
        ),
        Some(InputType::Shell),
    );
}

#[test]
fn both_match_equal_timestamps_prefer_shell() {
    let ts = chrono::Local::now().timestamp_millis();
    assert_eq!(
        resolve_history_match(HistoryMatch::MatchedAt(ts), HistoryMatch::MatchedAt(ts)),
        Some(InputType::Shell),
    );
}

#[test]
fn both_match_command_without_timestamp_locks_to_ai() {
    let (_, prompt_ts) = earlier_and_later();
    assert_eq!(
        resolve_history_match(
            HistoryMatch::MatchedWithoutTimestamp,
            HistoryMatch::MatchedAt(prompt_ts),
        ),
        Some(InputType::AI),
    );
}

#[test]
fn both_match_prompt_without_timestamp_locks_to_shell() {
    let (command_ts, _) = earlier_and_later();
    assert_eq!(
        resolve_history_match(
            HistoryMatch::MatchedAt(command_ts),
            HistoryMatch::MatchedWithoutTimestamp,
        ),
        Some(InputType::Shell),
    );
}

#[test]
fn both_match_without_timestamps_prefer_shell() {
    assert_eq!(
        resolve_history_match(
            HistoryMatch::MatchedWithoutTimestamp,
            HistoryMatch::MatchedWithoutTimestamp,
        ),
        Some(InputType::Shell),
    );
}

#[test]
fn prompt_only_match_without_timestamp_locks_to_ai() {
    assert_eq!(
        resolve_history_match(HistoryMatch::NoMatch, HistoryMatch::MatchedWithoutTimestamp),
        Some(InputType::AI),
    );
}
