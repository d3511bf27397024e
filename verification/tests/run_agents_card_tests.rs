use agent_core::orchestration::{OrchestrationConfig, OrchestrationEditState, OrchestrationExecutionMode};
use agent_core::run_agents::{
    RunAgentsAgentOutcome, RunAgentsAgentOutcomeKind, RunAgentsAgentRunConfig, RunAgentsExecutionMode,
    RunAgentsLaunchedExecutionMode, RunAgentsRequest, RunAgentsResult, RunAgentsSpawningSnapshot,
};
use agent_core::orchestration::OrchestrationConfigStatus;
use agent_core::orchestration_pickers::HarnessKind;
use agent_core::run_agents_card::{
    format_terminal_state, is_orphaned_by_finished_output, spawning_label, AIActionStatus,
    AIBlockOutputStatus, AcceptOutcome, RunAgentsCard, RunAgentsEditState, StatusKind,
};
use agent_core::start_agent::HarnessLookup;

fn make_request() -> RunAgentsRequest {
    RunAgentsRequest {
        summary: "summary".to_string(),
        base_prompt: "base".to_string(),
        model_id: "auto".to_string(),
        harness_type: "oz".to_string(),
        execution_mode: RunAgentsExecutionMode::Local,
        agent_run_configs: vec![RunAgentsAgentRunConfig {
            name: "child".to_string(),
            prompt: "do work".to_string(),
            title: "Child agent".to_string(),
            model_id: String::new(),
        }],
        plan_id: "plan-1".to_string(),
        harness_auth_secret_name: Some("local-provider-key".to_string()),
    }
}

#[test]
fn request_round_trip_preserves_local_fields() {
    let request = make_request();
    let round_tripped =
        RunAgentsEditState::from_request(&request, &HarnessLookup::Available("oz".to_string())).to_request();
    assert_eq!(round_tripped, request);
    assert_eq!(round_tripped.execution_mode, RunAgentsExecutionMode::Local);
}

#[test]
fn edited_harness_and_model_round_trip_locally() {
    let mut state = RunAgentsEditState::from_request(&make_request(), &HarnessLookup::Available("oz".to_string()));
    state.orch.harness_type = "codex".to_string();
    state.orch.model_id = "provider/model".to_string();
    let request = state.to_request();
    assert_eq!(request.harness_type, "codex");
    assert_eq!(request.model_id, "provider/model");
    assert_eq!(request.execution_mode, RunAgentsExecutionMode::Local);
}

#[test]
fn switched_off_harness_falls_back_to_the_built_in_one() {
    let mut request = make_request();
    request.harness_type = "codex".to_string();
    let state = RunAgentsEditState::from_request(&request, &HarnessLookup::Disabled("off".to_string()));
    assert_eq!(state.orch.harness_type, "oz");
    assert_eq!(state.orch.model_id, "");
    assert_eq!(state.orch.auth_secret_name, Some("local-provider-key".to_string()));
}

fn launched(name: &str, agent_id: &str) -> RunAgentsAgentOutcome {
    RunAgentsAgentOutcome {
        name: name.to_string(),
        resolved_model_id: String::new(),
        kind: RunAgentsAgentOutcomeKind::Launched { agent_id: agent_id.to_string() },
    }
}

fn failed(name: &str, error: &str) -> RunAgentsAgentOutcome {
    RunAgentsAgentOutcome {
        name: name.to_string(),
        resolved_model_id: String::new(),
        kind: RunAgentsAgentOutcomeKind::Failed { error: error.to_string() },
    }
}

fn launched_result(agents: Vec<RunAgentsAgentOutcome>) -> RunAgentsResult {
    RunAgentsResult::Launched {
        model_id: "auto".to_string(),
        harness_type: "oz".to_string(),
        execution_mode: RunAgentsLaunchedExecutionMode::Local,
        agents,
    }
}

#[test]
fn launched_singular_uses_singular_label() {
    let (label, kind) = format_terminal_state(&launched_result(vec![launched("child", "a-1")]));
    assert_eq!(label, "Spawned 1 agent");
    assert!(matches!(kind, StatusKind::Success));
}

#[test]
fn launched_partial_uses_mixed_status() {
    let result = launched_result(vec![launched("a", "a-1"), failed("b", "boom")]);
    let (label, kind) = format_terminal_state(&result);
    assert_eq!(label, "Spawned 1 of 2 agents");
    assert!(matches!(kind, StatusKind::Mixed));
}

#[test]
fn all_failed_uses_failure_status() {
    let result = launched_result(vec![failed("a", "boom"), failed("b", "boom")]);
    let (label, kind) = format_terminal_state(&result);
    assert_eq!(label, "Failed to spawn 2 agents");
    assert!(matches!(kind, StatusKind::Failure));
}

#[test]
fn failure_includes_local_launch_error() {
    let (label, kind) =
        format_terminal_state(&RunAgentsResult::Failure { error: "local harness missing".to_string() });
    assert_eq!(label, "Failed to start orchestration: local harness missing");
    assert!(matches!(kind, StatusKind::Failure));
}

#[test]
fn denied_and_cancelled_are_terminal() {
    let (denied_label, denied_kind) =
        format_terminal_state(&RunAgentsResult::Denied { reason: "disabled".to_string() });
    assert!(denied_label.contains("disabled"));
    assert!(matches!(denied_kind, StatusKind::Cancelled));
    let (cancelled_label, cancelled_kind) = format_terminal_state(&RunAgentsResult::Cancelled);
    assert_eq!(cancelled_label, "Spawn agents cancelled");
    assert!(matches!(cancelled_kind, StatusKind::Cancelled));
}

#[test]
fn status_lines_count_large_batches() {
    let agents: Vec<_> = (0..12).map(|i| launched("x", &i.to_string())).collect();
    assert_eq!(format_terminal_state(&launched_result(agents)).0, "Spawned 12 agents");
    let mut mixed: Vec<_> = (0..10).map(|i| launched("x", &i.to_string())).collect();
    mixed.push(failed("y", "e"));
    assert_eq!(format_terminal_state(&launched_result(mixed)).0, "Spawned 10 of 11 agents");
    assert_eq!(format_terminal_state(&launched_result(vec![failed("y", "e")])).0, "Failed to spawn agent");
    assert_eq!(format_terminal_state(&launched_result(vec![])).0, "Spawned 0 agents");
    assert_eq!(
        format_terminal_state(&RunAgentsResult::Denied { reason: String::new() }).0,
        "Orchestration is currently disabled. Re-enable on the plan card to launch."
    );
    assert_eq!(
        format_terminal_state(&RunAgentsResult::Failure { error: String::new() }).0,
        "Failed to start orchestration"
    );
    assert_eq!(spawning_label(&RunAgentsSpawningSnapshot { agent_count: 1 }), "Spawning 1 agent\u{2026}");
    assert_eq!(spawning_label(&RunAgentsSpawningSnapshot { agent_count: 305 }), "Spawning 305 agents\u{2026}");
}

#[test]
fn statusless_action_on_cancelled_block_is_orphaned() {
    assert!(is_orphaned_by_finished_output(None, &AIBlockOutputStatus::Cancelled));
}

#[test]
fn statusless_action_on_failed_block_is_orphaned() {
    let failed = AIBlockOutputStatus::Failed { error: "boom".to_string() };
    assert!(is_orphaned_by_finished_output(None, &failed));
}

#[test]
fn statusless_action_on_unfinished_or_successful_block_is_not_orphaned() {
    for block_status in [
        AIBlockOutputStatus::Pending,
        AIBlockOutputStatus::PartiallyReceived,
        AIBlockOutputStatus::Complete,
    ] {
        assert!(
            !is_orphaned_by_finished_output(None, &block_status),
            "{block_status:?} should not orphan the card"
        );
    }
}

#[test]
fn action_with_status_on_cancelled_block_is_not_orphaned() {
    for action_status in [
        AIActionStatus::Preprocessing,
        AIActionStatus::Queued,
        AIActionStatus::Blocked,
        AIActionStatus::RunningAsync,
    ] {
        assert!(
            !is_orphaned_by_finished_output(Some(&action_status), &AIBlockOutputStatus::Cancelled),
            "{action_status:?} should not orphan the card"
        );
    }
}

fn edit(mode: OrchestrationExecutionMode, harness: &str, model: &str) -> OrchestrationEditState {
    OrchestrationEditState {
        model_id: model.to_string(),
        harness_type: harness.to_string(),
        execution_mode: mode,
        auth_secret_name: None,
    }
}

#[test]
fn going_remote_replaces_opencode_and_picks_the_default_host() {
    let mut state = edit(OrchestrationExecutionMode::Local, "OpenCode", "m");
    state.toggle_execution_mode_to_remote(true, &HarnessLookup::Unsupported);
    assert_eq!(state.harness_type, "oz");
    assert_eq!(
        state.execution_mode,
        OrchestrationExecutionMode::Remote { environment_id: String::new(), worker_host: "warp".to_string() }
    );
    state.toggle_execution_mode_to_remote(false, &HarnessLookup::Disabled("x".to_string()));
    assert_eq!(state.execution_mode, OrchestrationExecutionMode::Local);
    assert_eq!(state.model_id, "");
}

#[test]
fn accept_is_blocked_for_switched_off_or_unsupported_combinations() {
    let local = edit(OrchestrationExecutionMode::Local, "codex", "");
    assert_eq!(local.accept_disabled_reason(&HarnessLookup::Disabled("codex is off".to_string())), Some("codex is off".to_string()));
    assert_eq!(local.accept_disabled_reason(&HarnessLookup::Available("codex".to_string())), None);
    let remote = edit(
        OrchestrationExecutionMode::Remote { environment_id: "e".to_string(), worker_host: "h".to_string() },
        "opencode",
        "",
    );
    assert_eq!(
        remote.accept_disabled_reason(&HarnessLookup::Unsupported),
        Some("OpenCode is not supported on Cloud yet. Switch to Local or pick a different harness.".to_string())
    );
}

#[test]
fn empty_fields_are_filled_from_the_approved_config() {
    let config = OrchestrationConfig {
        model_id: "cfg-model".to_string(),
        harness_type: "codex".to_string(),
        execution_mode: OrchestrationExecutionMode::Local,
    };
    let mut state = edit(OrchestrationExecutionMode::Local, "", "mine");
    state.resolve_from_config(&config, &HarnessLookup::Available("codex".to_string()));
    assert_eq!(state.harness_type, "codex");
    assert_eq!(state.model_id, "mine");
    let from_config = OrchestrationEditState::from_orchestration_config(&config, &HarnessLookup::Disabled("off".to_string()));
    assert_eq!(from_config.harness_type, "oz");
    assert_eq!(from_config.model_id, "");
}

fn oz() -> HarnessLookup {
    HarnessLookup::Available("oz".to_string())
}

#[test]
fn card_takes_the_streamed_request_unless_spawning() {
    let mut req = make_request();
    let mut card = RunAgentsCard::new(&req, &oz());
    let same = card.update_request(&req, &oz(), None, &oz(), Some(HarnessKind::Oz), None);
    assert!(!same.changed && !same.repopulate);
    req.summary = "new summary".to_string();
    let r = card.update_request(&req, &oz(), None, &oz(), Some(HarnessKind::Oz), None);
    assert!(r.changed && !r.repopulate);
    req.model_id = "gpt-x".to_string();
    let r = card.update_request(&req, &oz(), None, &oz(), Some(HarnessKind::Oz), None);
    assert!(r.changed && r.repopulate);
    assert_eq!(card.state.orch.model_id, "gpt-x");

    card.spawning_started(RunAgentsSpawningSnapshot { agent_count: 1 });
    req.model_id = "other".to_string();
    let r = card.update_request(&req, &oz(), None, &oz(), Some(HarnessKind::Oz), None);
    assert!(!r.changed);
    assert_eq!(card.state.orch.model_id, "gpt-x");
    assert_eq!(card.accept(&oz()), AcceptOutcome::Ignored);
    card.spawning_finished();
    assert!(matches!(card.accept(&oz()), AcceptOutcome::Execute(_)));
}

#[test]
fn card_fills_empty_fields_from_approved_local_config_and_base_model() {
    let mut req = make_request();
    req.harness_type = String::new();
    req.model_id = String::new();
    let mut card = RunAgentsCard::new(&req, &oz());
    let config = OrchestrationConfig {
        model_id: String::new(),
        harness_type: "codex".to_string(),
        execution_mode: OrchestrationExecutionMode::Local,
    };
    let r = card.update_request(
        &req,
        &oz(),
        Some((&config, OrchestrationConfigStatus::Approved)),
        &HarnessLookup::Available("codex".to_string()),
        Some(HarnessKind::Other),
        Some("base-model".to_string()),
    );
    assert!(r.changed);
    assert_eq!(card.state.orch.harness_type, "codex");
    // A third-party harness keeps its default (empty) model.
    assert_eq!(card.state.orch.model_id, "");

    let mut card = RunAgentsCard::new(&req, &oz());
    card.resolve_interactive_defaults(None, Some("base-model".to_string()));
    assert_eq!(card.state.orch.model_id, "base-model");
}

#[test]
fn accept_is_refused_with_the_reason_when_disabled() {
    let req = make_request();
    let card = RunAgentsCard::new(&req, &oz());
    let disabled = HarnessLookup::Disabled("Codex is switched off.".to_string());
    assert_eq!(card.accept(&disabled), AcceptOutcome::Refused("Codex is switched off.".to_string()));
    assert_eq!(card.accept_button_state(&disabled), (true, "Codex is switched off.".to_string()));
    assert_eq!(card.accept_button_state(&oz()), (false, "Accept".to_string()));
    match card.accept(&oz()) {
        AcceptOutcome::Execute(r) => {
            assert_eq!(r.plan_id, "plan-1");
            assert_eq!(r.harness_auth_secret_name.as_deref(), Some("local-provider-key"));
        }
        other => panic!("expected a request, got {other:?}"),
    }
}

#[test]
fn accept_menu_toggles() {
    let mut card = RunAgentsCard::new(&make_request(), &oz());
    assert!(card.toggle_accept_menu());
    assert!(!card.toggle_accept_menu());
}
