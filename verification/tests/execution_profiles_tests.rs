use std::collections::HashMap;

use agent_core::execution_profiles::{
    cli_computer_use_permission, has_configurable_context_window, should_show_long_context_pricing_warning,
    AIExecutionProfile, ActionPermission, AskUserQuestionPermission, ComputerUsePermission, RunAgentsPermission,
    WriteToPtyPermission, LONG_CONTEXT_WARNING_THRESHOLD,
};
use agent_core::llm_catalog::{default_computer_use_llms, AvailableLLMs, LLMInfo, ModelsByFeature};
use agent_core::llm_preferences::LLMPreferences;
use agent_core::llms::{LLMContextWindow, LLMProvider};

fn llm(id: &str, provider: LLMProvider, window: LLMContextWindow) -> LLMInfo {
    LLMInfo {
        display_name: id.to_string(),
        base_model_name: id.to_string(),
        id: id.to_string(),
        reasoning_level: None,
        description: None,
        disable_reason: None,
        vision_supported: false,
        provider,
        host_configs: Vec::new(),
        context_window: window,
        is_custom_router: false,
    }
}

fn window(min: u32, max: u32, default_max: u32) -> LLMContextWindow {
    LLMContextWindow { is_configurable: true, min, max, default_max }
}

fn prefs_with(choices: Vec<LLMInfo>) -> LLMPreferences {
    let default_id = choices[0].id.clone();
    let agent_mode = AvailableLLMs::new(default_id, choices, None).expect("not empty");
    let defaults = ModelsByFeature::default();
    LLMPreferences {
        models_by_feature: ModelsByFeature {
            agent_mode,
            coding: defaults.coding,
            cli_agent: None,
            computer_use: None,
        },
        custom_llms: Vec::new(),
        custom_model_routers: Vec::new(),
        custom_routers_enabled: false,
        default_computer_use: default_computer_use_llms(),
        base_llm_for_terminal_view: HashMap::new(),
    }
}

fn strings(v: &[&str]) -> Vec<String> {
    v.iter().map(|s| s.to_string()).collect()
}

#[test]
fn cli_profile_never_asks_and_drops_denylist_in_sandbox() {
    let deny = strings(&["rm -rf"]);
    let allow = strings(&["ls", "pwd"]);
    let sandboxed = AIExecutionProfile::create_default_cli_profile(true, None, false, false, &deny, &allow);
    assert_eq!(sandboxed.name, "Default (CLI)");
    assert!(sandboxed.is_default_profile);
    assert!(sandboxed.command_denylist.is_empty());
    assert_eq!(sandboxed.command_allowlist, allow);
    assert_eq!(sandboxed.execute_commands, ActionPermission::AlwaysAllow);
    assert_eq!(sandboxed.write_to_pty, WriteToPtyPermission::AlwaysAllow);
    assert_eq!(sandboxed.ask_user_question, AskUserQuestionPermission::Never);
    assert_eq!(sandboxed.run_agents, RunAgentsPermission::AlwaysAllow);

    let local = AIExecutionProfile::create_default_cli_profile(false, None, false, false, &deny, &allow);
    assert_eq!(local.command_denylist, deny);
}

#[test]
fn cli_computer_use_follows_override_sandbox_and_channel() {
    assert_eq!(cli_computer_use_permission(false, Some(true), false, false), ComputerUsePermission::Never);
    assert_eq!(cli_computer_use_permission(false, Some(true), true, false), ComputerUsePermission::AlwaysAllow);
    assert_eq!(cli_computer_use_permission(true, Some(true), false, false), ComputerUsePermission::AlwaysAllow);
    assert_eq!(cli_computer_use_permission(true, Some(false), true, true), ComputerUsePermission::Never);
    assert_eq!(cli_computer_use_permission(true, None, false, true), ComputerUsePermission::AlwaysAllow);
    assert_eq!(cli_computer_use_permission(true, None, false, false), ComputerUsePermission::Never);
    assert_eq!(cli_computer_use_permission(false, None, true, true), ComputerUsePermission::Never);
}

#[test]
fn default_permissions_ask_before_commands() {
    let p = AIExecutionProfile::with_default_permissions(&strings(&["curl"]));
    assert_eq!(p.apply_code_diffs, ActionPermission::AgentDecides);
    assert_eq!(p.execute_commands, ActionPermission::AlwaysAsk);
    assert_eq!(p.write_to_pty, WriteToPtyPermission::AlwaysAsk);
    assert_eq!(p.computer_use, ComputerUsePermission::Never);
    assert_eq!(p.command_denylist, strings(&["curl"]));
    assert!(p.web_search_enabled);
    assert!(!p.is_default_profile);
}

#[test]
fn legacy_settings_keep_only_user_added_allowed_commands() {
    let p = AIExecutionProfile::create_default_from_legacy_settings(
        &strings(&["curl"]),
        &strings(&["rm", "dd"]),
        &strings(&["ls", "make", "pwd", "cargo test"]),
        &strings(&["/src"]),
        &strings(&["ls", "pwd"]),
    );
    assert_eq!(p.name, "Default");
    assert!(p.is_default_profile);
    assert_eq!(p.command_denylist, strings(&["rm", "dd"]));
    assert_eq!(p.command_allowlist, strings(&["make", "cargo test"]));
    assert_eq!(p.directory_allowlist, strings(&["/src"]));
}

#[test]
fn eval_profile_allows_everything() {
    let p = AIExecutionProfile::create_agent_mode_eval_profile();
    assert_eq!(p.name, "Agent Mode Eval");
    assert_eq!(p.read_files, ActionPermission::AlwaysAllow);
    assert_eq!(p.ask_user_question, AskUserQuestionPermission::Never);
    assert!(p.command_denylist.is_empty());
}

#[test]
fn display_name_and_uniqueness_key() {
    let mut p = AIExecutionProfile::with_default_permissions(&Vec::new());
    assert_eq!(p.display_name(), "Untitled");
    assert_eq!(p.uniqueness_key(), None);
    p.name = "  ".to_string();
    assert_eq!(p.display_name(), "Untitled");
    p.name = "Mine".to_string();
    assert_eq!(p.display_name(), "Mine");
    p.is_default_profile = true;
    assert_eq!(p.display_name(), "Default");
    assert_eq!(p.uniqueness_key().as_deref(), Some("default"));
}

#[test]
fn context_window_is_clamped_for_requests() {
    let prefs = prefs_with(vec![llm("sonnet-like", LLMProvider::Anthropic, window(1000, 200000, 100000))]);
    let mut p = AIExecutionProfile::with_default_permissions(&Vec::new());
    assert_eq!(p.context_window_limit_for_request(&prefs, false), None);
    assert_eq!(p.context_window_display_value(&prefs, false), Some(100000));
    p.context_window_limit = Some(500000);
    assert_eq!(p.context_window_limit_for_request(&prefs, false), Some(200000));
    assert_eq!(p.context_window_display_value(&prefs, false), Some(500000));
    p.context_window_limit = Some(10);
    assert_eq!(p.context_window_limit_for_request(&prefs, false), Some(1000));
}

#[test]
fn openai_window_needs_the_switch() {
    let gpt = llm("gpt-5.5", LLMProvider::OpenAI, window(1000, 1_000_000, 272000));
    assert!(!has_configurable_context_window(&gpt, false));
    assert!(has_configurable_context_window(&gpt, true));
    let fixed = LLMContextWindow { is_configurable: false, min: 0, max: 10, default_max: 10 };
    assert!(!has_configurable_context_window(&llm("x", LLMProvider::Google, fixed), true));
}

#[test]
fn long_context_warning_only_above_threshold() {
    let gpt = llm("gpt-5.5", LLMProvider::OpenAI, window(1000, 1_000_000, 272000));
    assert!(!should_show_long_context_pricing_warning(&gpt, Some(LONG_CONTEXT_WARNING_THRESHOLD), true));
    assert!(should_show_long_context_pricing_warning(&gpt, Some(LONG_CONTEXT_WARNING_THRESHOLD + 1), true));
    assert!(!should_show_long_context_pricing_warning(&gpt, Some(400000), false));
    assert!(!should_show_long_context_pricing_warning(&gpt, None, true));
    let other = llm("other", LLMProvider::Anthropic, window(1000, 1_000_000, 500000));
    assert!(!should_show_long_context_pricing_warning(&other, Some(400000), true));

    let prefs = prefs_with(vec![gpt]);
    let mut p = AIExecutionProfile::with_default_permissions(&Vec::new());
    assert!(!p.should_warn_of_long_context_pricing(None, &prefs, true));
    p.context_window_limit = Some(300000);
    assert!(p.should_warn_of_long_context_pricing(None, &prefs, true));
    assert!(!p.should_warn_of_long_context_pricing(Some(100000), &prefs, true));
}

#[test]
fn effective_base_model_falls_back_to_default() {
    let prefs = prefs_with(vec![
        llm("a", LLMProvider::Unknown, LLMContextWindow::default()),
        llm("b", LLMProvider::Unknown, LLMContextWindow::default()),
    ]);
    let mut p = AIExecutionProfile::with_default_permissions(&Vec::new());
    assert_eq!(p.effective_base_model(&prefs).id, "a");
    p.base_model = Some("b".to_string());
    assert_eq!(p.effective_base_model(&prefs).id, "b");
    p.base_model = Some("gone".to_string());
    assert_eq!(p.effective_base_model(&prefs).id, "a");
}
