use agent_core::collapsible::{
    default_collapsible_state_for_orchestration_action,
    default_collapsible_state_for_orchestration_message, received_message_collapsible_id,
    AIAgentActionType, CollapsibleElementState, CollapsibleExpansionState,
    OrchestrationMessageDisplayMode, ThinkingDisplayMode,
};

fn send_message() -> AIAgentActionType {
    AIAgentActionType::SendMessageToAgent {
        addresses: vec!["child-agent".to_string()],
        subject: "Status".to_string(),
        message: "Body".to_string(),
    }
}

#[test]
fn reasoning_auto_collapses_when_user_has_not_manually_toggled() {
    let mut state = CollapsibleElementState::default();
    state.finish_reasoning(ThinkingDisplayMode::default());
    assert!(matches!(state.expansion_state, CollapsibleExpansionState::Collapsed));
}

#[test]
fn collapsed_initializer_starts_collapsed() {
    let state = CollapsibleElementState::collapsed();
    assert!(matches!(state.expansion_state, CollapsibleExpansionState::Collapsed));
}

#[test]
fn orchestration_show_and_collapse_collapses_after_finish() {
    let mut state =
        default_collapsible_state_for_orchestration_message(OrchestrationMessageDisplayMode::ShowAndCollapse);
    state.finish_orchestration_message(OrchestrationMessageDisplayMode::ShowAndCollapse);
    assert!(matches!(state.expansion_state, CollapsibleExpansionState::Collapsed));
}

#[test]
fn orchestration_always_show_stays_expanded_after_finish() {
    let mut state =
        default_collapsible_state_for_orchestration_message(OrchestrationMessageDisplayMode::AlwaysShow);
    state.finish_orchestration_message(OrchestrationMessageDisplayMode::AlwaysShow);
    assert!(matches!(
        state.expansion_state,
        CollapsibleExpansionState::Expanded { is_finished: true, scroll_pinned_to_bottom: false }
    ));
}

#[test]
fn orchestration_send_message_starts_collapsed() {
    let state = default_collapsible_state_for_orchestration_action(
        &send_message(),
        OrchestrationMessageDisplayMode::AlwaysCollapse,
    )
    .expect("send-message actions should get a collapsible state");
    assert!(matches!(state.expansion_state, CollapsibleExpansionState::Collapsed));
}

#[test]
fn non_orchestration_actions_do_not_get_collapsible_state_defaults() {
    assert!(default_collapsible_state_for_orchestration_action(
        &AIAgentActionType::OpenCodeReview,
        OrchestrationMessageDisplayMode::AlwaysCollapse,
    )
    .is_none());
}

#[test]
fn orchestration_show_and_collapse_starts_sent_messages_expanded() {
    let state = default_collapsible_state_for_orchestration_action(
        &send_message(),
        OrchestrationMessageDisplayMode::ShowAndCollapse,
    )
    .expect("send-message actions should get a collapsible state");
    assert!(matches!(
        state.expansion_state,
        CollapsibleExpansionState::Expanded { is_finished: false, scroll_pinned_to_bottom: true }
    ));
}

#[test]
fn orchestration_always_show_starts_sent_messages_expanded() {
    let state = default_collapsible_state_for_orchestration_action(
        &send_message(),
        OrchestrationMessageDisplayMode::AlwaysShow,
    )
    .expect("send-message actions should get a collapsible state");
    assert!(matches!(
        state.expansion_state,
        CollapsibleExpansionState::Expanded { is_finished: false, scroll_pinned_to_bottom: true }
    ));
}

#[test]
fn orchestration_received_messages_follow_initial_message_display_mode() {
    let show_and_collapse =
        default_collapsible_state_for_orchestration_message(OrchestrationMessageDisplayMode::ShowAndCollapse);
    assert!(matches!(
        show_and_collapse.expansion_state,
        CollapsibleExpansionState::Expanded { is_finished: false, scroll_pinned_to_bottom: true }
    ));
    let collapsed =
        default_collapsible_state_for_orchestration_message(OrchestrationMessageDisplayMode::AlwaysCollapse);
    assert!(matches!(collapsed.expansion_state, CollapsibleExpansionState::Collapsed));
    let expanded =
        default_collapsible_state_for_orchestration_message(OrchestrationMessageDisplayMode::AlwaysShow);
    assert!(matches!(
        expanded.expansion_state,
        CollapsibleExpansionState::Expanded { is_finished: false, scroll_pinned_to_bottom: true }
    ));
}

#[test]
fn always_show_thinking_stays_expanded_after_finish() {
    let mut state = CollapsibleElementState::default();
    state.finish_reasoning(ThinkingDisplayMode::AlwaysShow);
    assert!(matches!(
        state.expansion_state,
        CollapsibleExpansionState::Expanded { is_finished: true, scroll_pinned_to_bottom: false }
    ));
}

#[test]
fn manual_collapse_while_streaming_stays_collapsed_after_finish() {
    let mut state = CollapsibleElementState::default();
    state.toggle_expansion();
    state.finish_reasoning(ThinkingDisplayMode::default());
    assert!(matches!(state.expansion_state, CollapsibleExpansionState::Collapsed));
}

#[test]
fn manual_reexpand_while_streaming_stays_expanded_after_finish() {
    let mut state = CollapsibleElementState::default();
    state.toggle_expansion();
    state.toggle_expansion();
    state.finish_reasoning(ThinkingDisplayMode::default());
    assert!(matches!(
        state.expansion_state,
        CollapsibleExpansionState::Expanded { is_finished: true, scroll_pinned_to_bottom: false }
    ));
}

#[test]
fn received_message_collapsible_id_prefixes_row_ids() {
    let first = received_message_collapsible_id("message-1");
    let second = received_message_collapsible_id("message-2");
    assert_eq!(&*first, "received-message:message-1");
    assert_eq!(&*second, "received-message:message-2");
    assert_ne!(first, second);
}

#[test]
fn always_collapsed_reasoning_folds_even_when_shown_by_default() {
    let mut state = CollapsibleElementState::new();
    state.finish_reasoning(ThinkingDisplayMode::AlwaysCollapse);
    assert_eq!(state.expansion_state, CollapsibleExpansionState::Collapsed);
    let mut folded = CollapsibleElementState::collapsed();
    folded.toggle_expansion();
    assert!(folded.toggled_by_user);
    folded.finish_orchestration_message(OrchestrationMessageDisplayMode::AlwaysCollapse);
    assert_eq!(
        folded.expansion_state,
        CollapsibleExpansionState::Expanded { is_finished: true, scroll_pinned_to_bottom: false }
    );
}
