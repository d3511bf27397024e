use agent_core::execution_profiles::RunAgentsPermission;
use agent_core::orchestration::{OrchestrationConfig, OrchestrationConfigStatus, OrchestrationExecutionMode};
use agent_core::run_agents::{
    apply_approved_local_plan_config, build_agent_outcomes, child_outcome,
    compose_run_agents_child_prompt, normalize_agent_name, run_agents_to_start_agent_mode,
    validate_request, ChildLaunchResult, ExistingLaunchedAgent, RunAgentsAgentOutcome,
    RunAgentsAgentOutcomeKind, RunAgentsAgentRunConfig, RunAgentsExecutionMode, RunAgentsExecutor,
    RunAgentsLaunchedExecutionMode, RunAgentsRequest, RunAgentsResult,
};
use agent_core::start_agent::{HarnessLookup, StartAgentExecutionMode, StartAgentOutcome};

#[test]
fn compose_child_prompt_joins_non_empty_parts() {
    assert_eq!(
        compose_run_agents_child_prompt("shared", "specialized"),
        "shared\n\nspecialized"
    );
}

#[test]
fn compose_child_prompt_does_not_add_blank_separators() {
    assert_eq!(compose_run_agents_child_prompt("shared", "  "), "shared");
    assert_eq!(
        compose_run_agents_child_prompt("", "specialized"),
        "specialized"
    );
    assert_eq!(compose_run_agents_child_prompt("", ""), "");
}

#[test]
fn compose_child_prompt_keeps_parts_verbatim() {
    assert_eq!(
        compose_run_agents_child_prompt("  shared ", "\tspecialized"),
        "  shared \n\n\tspecialized"
    );
    assert_eq!(compose_run_agents_child_prompt(" \n", "x"), "x");
}

#[test]
fn normalize_agent_name_trims_and_lowercases() {
    assert_eq!(normalize_agent_name("  Builder-A "), Some("builder-a".to_string()));
    assert_eq!(normalize_agent_name("ÄBC"), Some("Äbc".to_string()));
    assert_eq!(normalize_agent_name(" \t "), None);
    assert_eq!(normalize_agent_name(""), None);
}

fn config(name: &str, model_id: &str) -> RunAgentsAgentRunConfig {
    RunAgentsAgentRunConfig {
        name: name.to_string(),
        prompt: "do work".to_string(),
        title: "title".to_string(),
        model_id: model_id.to_string(),
    }
}

#[test]
fn child_outcomes_preserve_request_order() {
    let configs = vec![config("first", ""), config("second", "own-model")];
    let outcomes = vec![
        RunAgentsAgentOutcomeKind::Launched { agent_id: "one".to_string() },
        RunAgentsAgentOutcomeKind::Failed { error: "failed".to_string() },
    ];
    let agents = build_agent_outcomes(&configs, outcomes, "batch-model");
    assert_eq!(agents.len(), 2);
    assert_eq!(agents[0].name, "first");
    assert_eq!(
        agents[0].kind,
        RunAgentsAgentOutcomeKind::Launched { agent_id: "one".to_string() }
    );
    assert_eq!(agents[0].resolved_model_id, "batch-model");
    assert_eq!(agents[1].name, "second");
    assert_eq!(
        agents[1].kind,
        RunAgentsAgentOutcomeKind::Failed { error: "failed".to_string() }
    );
    assert_eq!(agents[1].resolved_model_id, "own-model");
}

#[test]
fn child_outcomes_stop_at_the_shorter_list() {
    let configs = vec![config("a", " "), config("b", "")];
    let outcomes = vec![RunAgentsAgentOutcomeKind::Launched { agent_id: "x".to_string() }];
    let agents = build_agent_outcomes(&configs, outcomes, "m");
    assert_eq!(agents.len(), 1);
    assert_eq!(agents[0].resolved_model_id, "m");
}

#[test]
fn local_codex_batch_maps_to_local_codex_children() {
    assert_eq!(
        run_agents_to_start_agent_mode(
            &RunAgentsExecutionMode::Local,
            "codex",
            "provider/model",
            &HarnessLookup::Available("codex".to_string())
        ),
        Ok(StartAgentExecutionMode::Local {
            harness_type: Some("codex".to_string()),
            model_id: Some("provider/model".to_string()),
        })
    );
}

#[test]
fn local_oz_batch_maps_to_embedded_children() {
    assert_eq!(
        run_agents_to_start_agent_mode(&RunAgentsExecutionMode::Local, "oz", "", &HarnessLookup::Unsupported),
        Ok(StartAgentExecutionMode::local_with_defaults())
    );
    assert_eq!(
        run_agents_to_start_agent_mode(&RunAgentsExecutionMode::Local, " OZ ", "  m  ", &HarnessLookup::Unsupported),
        Ok(StartAgentExecutionMode::Local { harness_type: None, model_id: Some("m".to_string()) })
    );
}

#[test]
fn unsupported_local_harness_is_rejected() {
    assert_eq!(
        run_agents_to_start_agent_mode(&RunAgentsExecutionMode::Local, "future-cli", "", &HarnessLookup::Unsupported),
        Err("Unsupported local child harness 'future-cli'.".to_string())
    );
    assert_eq!(
        run_agents_to_start_agent_mode(
            &RunAgentsExecutionMode::Local,
            "gemini",
            "",
            &HarnessLookup::Disabled("not in this build".to_string())
        ),
        Err("not in this build".to_string())
    );
}

fn request(plan_id: &str, names: &[&str]) -> RunAgentsRequest {
    RunAgentsRequest {
        summary: "batch".to_string(),
        base_prompt: "shared".to_string(),
        model_id: String::new(),
        harness_type: String::new(),
        execution_mode: RunAgentsExecutionMode::Local,
        agent_run_configs: names
            .iter()
            .map(|name| RunAgentsAgentRunConfig {
                name: name.to_string(),
                prompt: "do the thing".to_string(),
                title: name.to_string(),
                model_id: String::new(),
            })
            .collect(),
        plan_id: plan_id.to_string(),
        harness_auth_secret_name: None,
    }
}

fn autoexecutes(permission: RunAgentsPermission, plan_id: &str) -> bool {
    let executor = RunAgentsExecutor::new();
    executor.should_autoexecute(&request(plan_id, &["first"]), "conv", &None, &[], false, false, permission)
}

#[test]
fn always_ask_stops_for_the_confirmation_card() {
    assert!(!autoexecutes(RunAgentsPermission::AlwaysAsk, ""));
}

#[test]
fn never_allow_does_not_autoexecute() {
    assert!(!autoexecutes(RunAgentsPermission::NeverAllow, ""));
}

#[test]
fn always_allow_autoexecutes() {
    assert!(autoexecutes(RunAgentsPermission::AlwaysAllow, ""));
}

#[test]
fn empty_plan_id_does_not_count_as_an_approved_plan() {
    assert!(!autoexecutes(RunAgentsPermission::AlwaysAsk, ""));
}

#[test]
fn remote_session_refuses_without_prompting() {
    let executor = RunAgentsExecutor::new();
    let mut req = request("", &["first"]);
    assert!(executor.should_autoexecute(&req, "conv", &None, &[], true, false, RunAgentsPermission::AlwaysAsk));
    let reason = executor.prepare_request_for_execution(
        &mut req,
        "conv",
        &None,
        &[],
        true,
        false,
        RunAgentsPermission::AlwaysAsk,
    );
    assert!(reason.is_some_and(|reason| reason.contains("SSH session")));
}

fn local_config(model: &str, harness: &str) -> OrchestrationConfig {
    OrchestrationConfig {
        model_id: model.to_string(),
        harness_type: harness.to_string(),
        execution_mode: OrchestrationExecutionMode::Local,
    }
}

#[test]
fn approved_local_plan_overrides_model_and_harness() {
    let mut req = request("plan", &["a"]);
    let plan = Some((local_config("m1", "codex"), OrchestrationConfigStatus::Approved));
    assert_eq!(apply_approved_local_plan_config(&mut req, &plan), Ok(Some(OrchestrationConfigStatus::Approved)));
    assert_eq!(req.model_id, "m1");
    assert_eq!(req.harness_type, "codex");

    let mut req = request("plan", &["a"]);
    let pending = Some((local_config("m1", "codex"), OrchestrationConfigStatus::Pending));
    assert_eq!(apply_approved_local_plan_config(&mut req, &pending), Ok(Some(OrchestrationConfigStatus::Pending)));
    assert_eq!(req.model_id, "");

    let mut req = request("plan", &["a"]);
    let remote = Some((
        OrchestrationConfig {
            model_id: "m".to_string(),
            harness_type: String::new(),
            execution_mode: OrchestrationExecutionMode::Remote {
                environment_id: "e".to_string(),
                worker_host: "w".to_string(),
            },
        },
        OrchestrationConfigStatus::Approved,
    ));
    assert_eq!(
        apply_approved_local_plan_config(&mut req, &remote),
        Err("Cloud child-agent execution is not available in Zap.".to_string())
    );
}

#[test]
fn refusals_come_in_order() {
    let executor = RunAgentsExecutor::new();
    let disapproved = Some((local_config("m", ""), OrchestrationConfigStatus::Disapproved));
    let mut req = request("plan", &["a"]);
    assert_eq!(
        executor.prepare_request_for_execution(&mut req, "c", &disapproved, &[], false, false, RunAgentsPermission::AlwaysAllow),
        Some("Orchestration config was disapproved".to_string())
    );
    let mut req = request("plan", &["a"]);
    assert_eq!(
        executor.prepare_request_for_execution(&mut req, "c", &disapproved, &[], false, true, RunAgentsPermission::NeverAllow),
        None
    );
    let mut req = request("", &["a"]);
    assert_eq!(
        executor.prepare_request_for_execution(&mut req, "c", &None, &[], false, false, RunAgentsPermission::Unknown),
        Some("Running child agents is disabled by the active execution profile.".to_string())
    );
    let mut req = request("", &["a"]);
    assert_eq!(
        executor.prepare_request_for_execution(&mut req, "c", &None, &[], false, false, RunAgentsPermission::AlwaysAsk),
        None
    );
}

#[test]
fn validation_needs_children_and_a_harness() {
    assert_eq!(
        validate_request(&request("", &[]), &HarnessLookup::Unsupported),
        Err("orchestrate: empty agent_run_configs".to_string())
    );
    let mut req = request("", &["a"]);
    req.harness_type = "nope".to_string();
    assert_eq!(
        validate_request(&req, &HarnessLookup::Unsupported),
        Err("Unsupported local child harness 'nope'.".to_string())
    );
    assert_eq!(validate_request(&request("", &["a"]), &HarnessLookup::Unsupported), Ok(()));
}

#[test]
fn child_outcomes_name_each_way_a_launch_ends() {
    assert_eq!(
        child_outcome(ChildLaunchResult::Answered(StartAgentOutcome::Started { agent_id: "x".to_string() })),
        RunAgentsAgentOutcomeKind::Launched { agent_id: "x".to_string() }
    );
    assert_eq!(
        child_outcome(ChildLaunchResult::Answered(StartAgentOutcome::Error("e".to_string()))),
        RunAgentsAgentOutcomeKind::Failed { error: "e".to_string() }
    );
    assert_eq!(
        child_outcome(ChildLaunchResult::Dropped),
        RunAgentsAgentOutcomeKind::Failed { error: "Cancelled before launch".to_string() }
    );
    assert_eq!(
        child_outcome(ChildLaunchResult::TimedOut),
        RunAgentsAgentOutcomeKind::Failed {
            error: "Agent failed to start within 30 seconds. The local harness binary may not be installed."
                .to_string()
        }
    );
}

#[test]
fn a_batch_is_spawned_and_resolved_once() {
    let mut executor = RunAgentsExecutor::new();
    let req = request("", &["Builder", "checker"]);
    let (snapshot, launches) = executor
        .begin_dispatch("act".to_string(), &req, &HarnessLookup::Unsupported)
        .expect("a valid batch starts");
    assert_eq!(snapshot.agent_count, 2);
    assert_eq!(launches.len(), 2);
    assert_eq!(launches[0].name, "Builder");
    assert_eq!(launches[0].prompt, "shared\n\ndo the thing");
    assert_eq!(launches[1].execution_mode, StartAgentExecutionMode::local_with_defaults());
    assert!(executor.is_pending("act"));
    assert_eq!(
        executor.begin_dispatch("act".to_string(), &req, &HarnessLookup::Unsupported),
        Err(RunAgentsResult::Cancelled)
    );

    let outcomes = vec![
        RunAgentsAgentOutcomeKind::Launched { agent_id: "id-1".to_string() },
        RunAgentsAgentOutcomeKind::Launched { agent_id: "id-2".to_string() },
    ];
    let result = executor.finish_dispatch(
        "act",
        "conv",
        &req.agent_run_configs,
        outcomes.clone(),
        "model".to_string(),
        "".to_string(),
    );
    match result {
        Some(RunAgentsResult::Launched { model_id, execution_mode, agents, .. }) => {
            assert_eq!(model_id, "model");
            assert_eq!(execution_mode, RunAgentsLaunchedExecutionMode::Local);
            assert_eq!(agents.len(), 2);
            assert_eq!(agents[1].resolved_model_id, "model");
        }
        other => panic!("unexpected result {other:?}"),
    }
    assert!(!executor.is_pending("act"));
    assert_eq!(
        executor.finish_dispatch("act", "conv", &req.agent_run_configs, outcomes, "model".to_string(), "".to_string()),
        None
    );

    let again = request("", &[" builder ", "CHECKER"]);
    assert_eq!(
        executor.duplicate_launched_agents_reason(&again, "conv", &[]),
        Some(
            "Requested agent(s) have already been launched: Builder (id-1), checker (id-2). Duplicate launch rejected."
                .to_string()
        )
    );
    assert_eq!(executor.duplicate_launched_agents_reason(&again, "other-conv", &[]), None);
    let partly_new = request("", &["builder", "fresh"]);
    assert_eq!(executor.duplicate_launched_agents_reason(&partly_new, "conv", &[]), None);
}

#[test]
fn cancelled_batch_reports_nothing() {
    let mut executor = RunAgentsExecutor::new();
    let req = request("", &["a"]);
    assert!(executor.begin_dispatch("act".to_string(), &req, &HarnessLookup::Unsupported).is_ok());
    assert!(executor.cancel_execution("act"));
    assert!(!executor.cancel_execution("act"));
    assert_eq!(
        executor.finish_dispatch("act", "conv", &req.agent_run_configs, vec![], String::new(), String::new()),
        None
    );
    assert_eq!(
        executor.existing_launched_agent("conv", &[], "a"),
        None
    );
}

#[test]
fn history_supplies_earlier_launches() {
    let executor = RunAgentsExecutor::new();
    let history = vec![
        RunAgentsAgentOutcome {
            name: "Old".to_string(),
            kind: RunAgentsAgentOutcomeKind::Failed { error: "x".to_string() },
            resolved_model_id: String::new(),
        },
        RunAgentsAgentOutcome {
            name: "Old".to_string(),
            kind: RunAgentsAgentOutcomeKind::Launched { agent_id: "first".to_string() },
            resolved_model_id: String::new(),
        },
        RunAgentsAgentOutcome {
            name: "old".to_string(),
            kind: RunAgentsAgentOutcomeKind::Launched { agent_id: "second".to_string() },
            resolved_model_id: String::new(),
        },
    ];
    assert_eq!(
        executor.existing_launched_agent("conv", &history, "old"),
        Some(ExistingLaunchedAgent { name: "Old".to_string(), agent_id: "first".to_string() })
    );
    assert!(executor.should_autoexecute(
        &request("", &["OLD"]),
        "conv",
        &None,
        &history,
        false,
        false,
        RunAgentsPermission::AlwaysAsk
    ));
}
