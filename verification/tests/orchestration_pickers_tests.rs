use agent_core::orchestration::{OrchestrationEditState, OrchestrationExecutionMode};
use agent_core::orchestration_pickers::{
    apply_auth_secret_change, apply_execution_mode_change, apply_harness_change, first_filtered_model_id, is_model_in_filtered_choices,
    repopulate_all_pickers, should_show_auth_secret_picker, HarnessKind, PickerCatalog, SavedModelPerHarness,
};
use agent_core::start_agent::HarnessLookup;

fn catalog() -> PickerCatalog {
    PickerCatalog {
        base_choices: vec!["auto".to_string(), "gpt-x".to_string()],
        first_base_choice: Some("auto".to_string()),
    }
}

fn local_state(harness: &str, model: &str) -> OrchestrationEditState {
    OrchestrationEditState {
        model_id: model.to_string(),
        harness_type: harness.to_string(),
        execution_mode: OrchestrationExecutionMode::Local,
        auth_secret_name: Some("secret".to_string()),
    }
}

fn available(name: &str) -> HarnessLookup {
    HarnessLookup::Available(name.to_string())
}

#[test]
fn oz_offers_catalogue_models_and_others_only_the_default() {
    let c = catalog();
    assert!(is_model_in_filtered_choices("gpt-x", Some(HarnessKind::Oz), &c));
    assert!(is_model_in_filtered_choices("gpt-x", None, &c));
    assert!(!is_model_in_filtered_choices("gpt-x", Some(HarnessKind::Other), &c));
    assert!(is_model_in_filtered_choices("", Some(HarnessKind::Other), &c));
    assert_eq!(first_filtered_model_id(Some(HarnessKind::Other), &c).as_deref(), Some(""));
    assert_eq!(first_filtered_model_id(None, &c).as_deref(), Some("auto"));
}

#[test]
fn switching_harness_away_and_back_restores_the_model() {
    let c = catalog();
    let mut state = local_state("oz", "gpt-x");
    let mut memory = SavedModelPerHarness::new();
    apply_harness_change(&mut state, &mut memory, "codex", &available("codex"), Some(HarnessKind::Other), &c, None);
    assert_eq!(state.harness_type, "codex");
    assert_eq!(state.model_id, "");
    assert_eq!(state.auth_secret_name, None);
    assert_eq!(memory.get("oz"), Some("gpt-x"));
    apply_harness_change(&mut state, &mut memory, "oz", &available("oz"), Some(HarnessKind::Oz), &c, None);
    assert_eq!(state.model_id, "gpt-x");
    assert_eq!(memory.get("codex"), Some(""));
}

#[test]
fn disabled_local_harness_falls_back_to_oz() {
    let c = catalog();
    let mut state = local_state("", "gpt-x");
    let mut memory = SavedModelPerHarness::new();
    apply_harness_change(
        &mut state,
        &mut memory,
        "gemini",
        &HarnessLookup::Disabled("off".to_string()),
        Some(HarnessKind::Other),
        &c,
        Some("missing".to_string()),
    );
    assert_eq!(state.harness_type, "oz");
    // The empty harness saved its model under "oz", which comes back.
    assert_eq!(state.model_id, "gpt-x");
}

#[test]
fn unknown_model_falls_back_to_base_then_first() {
    let c = catalog();
    let mut state = local_state("oz", "gone");
    let mut memory = SavedModelPerHarness::new();
    apply_harness_change(&mut state, &mut memory, "", &available("oz"), None, &c, Some("gpt-x".to_string()));
    assert_eq!(state.model_id, "gpt-x");
    let mut state = local_state("oz", "gone");
    let mut memory = SavedModelPerHarness::new();
    apply_harness_change(&mut state, &mut memory, "", &available("oz"), None, &c, Some("nope".to_string()));
    assert_eq!(state.model_id, "auto");
}

#[test]
fn going_remote_turns_opencode_into_oz() {
    let c = catalog();
    let mut state = local_state("OpenCode", "");
    apply_execution_mode_change(&mut state, true, &available("opencode"), Some(HarnessKind::Other), &c, None);
    assert_eq!(state.harness_type, "oz");
    assert_eq!(state.model_id, "auto");
    match &state.execution_mode {
        OrchestrationExecutionMode::Remote { environment_id, worker_host } => {
            assert!(environment_id.is_empty());
            assert_eq!(worker_host, "warp");
        }
        OrchestrationExecutionMode::Local => panic!("expected a remote run"),
    }
    assert_eq!(state.auth_secret_name.as_deref(), Some("secret"));
}

#[test]
fn repopulating_resets_a_vanished_model() {
    let c = catalog();
    let mut state = local_state("oz", "vanished");
    repopulate_all_pickers(&mut state, &available("oz"), Some(HarnessKind::Oz), &c);
    assert_eq!(state.model_id, "auto");
    let mut state = local_state("oz", "gpt-x");
    repopulate_all_pickers(&mut state, &available("oz"), Some(HarnessKind::Oz), &c);
    assert_eq!(state.model_id, "gpt-x");
}

#[test]
fn auth_secret_picker_only_for_remote_third_party_harness() {
    let mut state = local_state("codex", "");
    assert!(!should_show_auth_secret_picker(&state, Some(HarnessKind::Other), true));
    state.execution_mode =
        OrchestrationExecutionMode::Remote { environment_id: String::new(), worker_host: "warp".to_string() };
    assert!(should_show_auth_secret_picker(&state, Some(HarnessKind::Other), true));
    assert!(!should_show_auth_secret_picker(&state, Some(HarnessKind::Oz), true));
    assert!(!should_show_auth_secret_picker(&state, None, true));
    assert!(!should_show_auth_secret_picker(&state, Some(HarnessKind::Other), false));
}

#[test]
fn saved_models_replace_by_key() {
    let mut memory = SavedModelPerHarness::new();
    memory.insert("oz".to_string(), "a".to_string());
    memory.insert("codex".to_string(), "".to_string());
    memory.insert("oz".to_string(), "b".to_string());
    assert_eq!(memory.get("oz"), Some("b"));
    assert_eq!(memory.get("codex"), Some(""));
    assert_eq!(memory.get("gemini"), None);
}

#[test]
fn auth_secret_change_treats_blank_names_as_none() {
    let mut state = local_state("codex", "m");
    apply_auth_secret_change(&mut state, Some("  my-key ".to_string()));
    assert_eq!(state.auth_secret_name.as_deref(), Some("  my-key "));
    apply_auth_secret_change(&mut state, Some(" \t ".to_string()));
    assert_eq!(state.auth_secret_name, None);
    apply_auth_secret_change(&mut state, Some("k".to_string()));
    apply_auth_secret_change(&mut state, None);
    assert_eq!(state.auth_secret_name, None);
    assert_eq!(state.model_id, "m");
}
