use agent_core::execution_profiles::RunAgentsPermission;
use agent_core::start_agent::{
    invalid_local_child_harness_error, legacy_harness_from_words, normalize_legacy_local_child_harness_command,
    parse_legacy_local_child_harness_command, prepare_start_agent, start_agent_result,
    start_agent_should_autoexecute, validate_execution_mode, HarnessLookup, StartAgentExecutionMode,
    StartAgentLaunch, StartAgentOutcome, StartAgentResult,
};

#[test]
fn legacy_codex_command_becomes_a_local_codex_launch() {
    let (prompt, mode) = normalize_legacy_local_child_harness_command(
        "codex --dangerously-bypass-approvals-and-sandbox 'inspect the tests'".to_string(),
        StartAgentExecutionMode::local_with_defaults(),
    );

    assert_eq!(prompt, "inspect the tests");
    assert_eq!(
        mode,
        StartAgentExecutionMode::Local {
            harness_type: Some("codex".to_string()),
            model_id: None,
        }
    );
}

#[test]
fn non_legacy_prompt_remains_an_embedded_local_launch() {
    let original = "inspect the tests".to_string();
    let (prompt, mode) = normalize_legacy_local_child_harness_command(
        original.clone(),
        StartAgentExecutionMode::local_with_defaults(),
    );

    assert_eq!(prompt, original);
    assert_eq!(mode, StartAgentExecutionMode::local_with_defaults());
}

#[test]
fn unsupported_harness_error_preserves_the_requested_name() {
    assert_eq!(
        invalid_local_child_harness_error(" future-cli "),
        "Unsupported local child harness 'future-cli'."
    );
}

#[test]
fn missing_harness_error_for_blank_name() {
    assert_eq!(
        invalid_local_child_harness_error("   "),
        "Local child harness type is missing."
    );
}

#[test]
fn legacy_command_needs_exactly_three_words_and_a_prompt() {
    assert_eq!(
        parse_legacy_local_child_harness_command(
            "  codex --dangerously-bypass-approvals-and-sandbox \"fix it\"  "
        ),
        Some(("codex".to_string(), "fix it".to_string()))
    );
    assert_eq!(
        parse_legacy_local_child_harness_command("codex --dangerously-bypass-approvals-and-sandbox ' '"),
        None
    );
    assert_eq!(
        parse_legacy_local_child_harness_command("codex --dangerously-bypass-approvals-and-sandbox a b"),
        None
    );
    assert_eq!(
        parse_legacy_local_child_harness_command("codex --dangerously-bypass-approvals-and-sandbox 'open"),
        None
    );
    assert_eq!(parse_legacy_local_child_harness_command("gemini --x prompt"), None);
}

#[test]
fn explicit_harness_is_left_alone() {
    let mode = StartAgentExecutionMode::Local {
        harness_type: Some("gemini".to_string()),
        model_id: Some("m".to_string()),
    };
    let (prompt, out) = normalize_legacy_local_child_harness_command(
        "codex --dangerously-bypass-approvals-and-sandbox 'x'".to_string(),
        mode.clone(),
    );
    assert_eq!(prompt, "codex --dangerously-bypass-approvals-and-sandbox 'x'");
    assert_eq!(out, mode);
}

#[test]
fn legacy_command_keeps_the_model() {
    let (prompt, mode) = normalize_legacy_local_child_harness_command(
        "codex --dangerously-bypass-approvals-and-sandbox review".to_string(),
        StartAgentExecutionMode::Local { harness_type: None, model_id: Some("gpt".to_string()) },
    );
    assert_eq!(prompt, "review");
    assert_eq!(
        mode,
        StartAgentExecutionMode::Local {
            harness_type: Some("codex".to_string()),
            model_id: Some("gpt".to_string()),
        }
    );
}


#[test]
fn launch_without_harness_needs_no_registry() {
    let mode = StartAgentExecutionMode::local_with_defaults();
    assert_eq!(validate_execution_mode(&mode, &HarnessLookup::Unsupported), Ok(()));
}

#[test]
fn named_harness_must_be_available() {
    let mode = StartAgentExecutionMode::Local { harness_type: Some(" future-cli ".to_string()), model_id: None };
    assert_eq!(
        validate_execution_mode(&mode, &HarnessLookup::Unsupported),
        Err("Unsupported local child harness 'future-cli'.".to_string())
    );
    assert_eq!(
        validate_execution_mode(&mode, &HarnessLookup::Disabled("switched off".to_string())),
        Err("switched off".to_string())
    );
    assert_eq!(validate_execution_mode(&mode, &HarnessLookup::Available("codex".to_string())), Ok(()));
}

#[test]
fn legacy_command_is_rewritten_before_validation() {
    let launch = prepare_start_agent(
        "child".to_string(),
        "codex --dangerously-bypass-approvals-and-sandbox 'fix it'".to_string(),
        StartAgentExecutionMode::local_with_defaults(),
        &HarnessLookup::Available("codex".to_string()),
    );
    assert_eq!(
        launch,
        Ok(StartAgentLaunch {
            name: "child".to_string(),
            prompt: "fix it".to_string(),
            execution_mode: StartAgentExecutionMode::Local {
                harness_type: Some("codex".to_string()),
                model_id: None,
            },
        })
    );
    let refused = prepare_start_agent(
        "child".to_string(),
        "codex --dangerously-bypass-approvals-and-sandbox 'fix it'".to_string(),
        StartAgentExecutionMode::local_with_defaults(),
        &HarnessLookup::Disabled("codex is off".to_string()),
    );
    assert_eq!(refused, Err("codex is off".to_string()));
}

#[test]
fn launch_results_carry_the_version() {
    assert_eq!(
        start_agent_result(Some(StartAgentOutcome::Started { agent_id: "a1".to_string() }), 2u8),
        StartAgentResult::Success { agent_id: "a1".to_string(), version: 2u8 }
    );
    assert_eq!(
        start_agent_result(Some(StartAgentOutcome::Error("boom".to_string())), 1u8),
        StartAgentResult::Error { error: "boom".to_string(), version: 1u8 }
    );
    assert_eq!(start_agent_result(None, 7u8), StartAgentResult::Cancelled { version: 7u8 });
}

#[test]
fn direct_launches_run_unasked_only_when_allowed() {
    assert!(start_agent_should_autoexecute(true, RunAgentsPermission::AlwaysAsk));
    assert!(start_agent_should_autoexecute(false, RunAgentsPermission::AlwaysAllow));
    assert!(!start_agent_should_autoexecute(false, RunAgentsPermission::AlwaysAsk));
    assert!(!start_agent_should_autoexecute(false, RunAgentsPermission::NeverAllow));
}

#[test]
fn legacy_harness_words_need_exactly_the_codex_form() {
    let w = |ws: &[&str]| ws.iter().map(|x| x.to_string()).collect::<Vec<_>>();
    assert_eq!(
        legacy_harness_from_words(&w(&["codex", "--dangerously-bypass-approvals-and-sandbox", "fix it"])),
        Some(("codex".to_string(), "fix it".to_string()))
    );
    assert_eq!(legacy_harness_from_words(&w(&["codex", "--dangerously-bypass-approvals-and-sandbox", "  "])), None);
    assert_eq!(legacy_harness_from_words(&w(&["codex", "fix it"])), None);
    assert_eq!(legacy_harness_from_words(&w(&["gemini", "--dangerously-bypass-approvals-and-sandbox", "x"])), None);
}
