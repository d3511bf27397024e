use std::collections::HashMap;

use agent_core::custom_endpoints::{build_custom_llm_infos, CustomEndpoint, CustomEndpointModel};
use agent_core::execution_profiles::AIExecutionProfile;
use agent_core::llm_catalog::{
    default_computer_use_llms, dedupe_model_display_names, should_show_bedrock_icon_for_model, ApiKeyPresence,
    AvailableLLMs, LLMInfo, ModelsByFeature,
};
use agent_core::llm_preferences::{
    get_new_agent_mode_choices, new_choices_since_last_update, new_choices_to_announce, CustomModelRouter, LLMPreferences, NewChoicesPopup,
    PopupVisibility,
};
use agent_core::llms::{DisableReason, LLMContextWindow, LLMModelHost, LLMProvider, RoutingHostConfig};

fn endpoint(name: &str, url: &str, api_key: &str, models: Vec<CustomEndpointModel>) -> CustomEndpoint {
    CustomEndpoint {
        name: name.into(),
        url: url.into(),
        api_key: api_key.into(),
        models,
    }
}

fn model(name: &str, alias: Option<&str>, config_key: &str) -> CustomEndpointModel {
    CustomEndpointModel {
        name: name.into(),
        alias: alias.map(str::to_owned),
        config_key: config_key.into(),
    }
}

fn server_llm(id: &str, disable_reason: Option<DisableReason>) -> LLMInfo {
    LLMInfo {
        display_name: id.to_string(),
        base_model_name: id.to_string(),
        id: id.into(),
        reasoning_level: None,
        description: None,
        disable_reason,
        vision_supported: false,
        provider: LLMProvider::Unknown,
        host_configs: Vec::new(),
        context_window: LLMContextWindow::default(),
        is_custom_router: false,
    }
}

fn available(default_id: &str, choices: Vec<LLMInfo>) -> AvailableLLMs {
    AvailableLLMs::new(default_id.into(), choices, None).expect("choices are not empty")
}

fn no_keys() -> ApiKeyPresence {
    ApiKeyPresence { openai: false, anthropic: false, google: false }
}

fn preferences(models_by_feature: ModelsByFeature, custom_llms: Vec<LLMInfo>) -> LLMPreferences {
    LLMPreferences {
        models_by_feature,
        custom_llms,
        custom_model_routers: Vec::new(),
        custom_routers_enabled: false,
        default_computer_use: default_computer_use_llms(),
        base_llm_for_terminal_view: HashMap::new(),
    }
}

#[test]
fn custom_llm_infos_built_from_endpoints() {
    let endpoints = vec![endpoint(
        "My Endpoint",
        "https://x.io",
        "k",
        vec![model("gpt-4", Some("fast"), "uuid-1"), model("llama", None, "uuid-2")],
    )];

    let infos = build_custom_llm_infos(&endpoints);

    assert_eq!(infos.len(), 2);
    assert_eq!(infos[0].display_name, "fast");
    assert_eq!(infos[0].id.as_str(), "uuid-1");
    assert_eq!(infos[0].description.as_deref(), Some("Custom · My Endpoint"));
    assert!(infos[0]
        .host_configs
        .iter()
        .any(|c| c.model_routing_host == LLMModelHost::CustomEndpoint));
    assert_eq!(infos[1].display_name, "llama");
    assert_eq!(infos[1].id.as_str(), "uuid-2");
}

#[test]
fn custom_llm_display_name_uses_alias_or_model_name() {
    let endpoints = vec![endpoint(
        "ep",
        "https://a.io",
        "k",
        vec![model("raw-alias", Some("My Alias"), "uuid-a"), model("raw-name", None, "uuid-b")],
    )];

    let infos = build_custom_llm_infos(&endpoints);

    assert_eq!(infos[0].display_name, "My Alias");
    assert_eq!(infos[1].display_name, "raw-name");
}

#[test]
fn custom_endpoint_usage_display_label_resolves_model_and_fallback() {
    let endpoints = vec![endpoint(
        "ep",
        "https://a.io",
        "k",
        vec![model("raw-name", Some("Alias"), "uuid-alias")],
    )];
    let prefs = preferences(ModelsByFeature::default(), build_custom_llm_infos(&endpoints));

    assert_eq!(prefs.custom_endpoint_usage_display_label("uuid-alias"), "Alias");
    assert_eq!(prefs.custom_endpoint_usage_display_label("unknown"), "Custom endpoint");
    assert_eq!(prefs.custom_llm_choices().len(), 1);
}

#[test]
fn custom_llm_infos_skip_incomplete_endpoint_and_model_rows() {
    let endpoints = vec![
        endpoint("missing-key", "https://a.io", "", vec![model("m", None, "a")]),
        endpoint(
            "ready",
            "https://b.io",
            "k",
            vec![model("missing-id", None, ""), model("m", None, "ready-id")],
        ),
    ];

    let infos = build_custom_llm_infos(&endpoints);

    assert_eq!(infos.len(), 1);
    assert_eq!(infos[0].id.as_str(), "ready-id");
}

#[test]
fn rebuilding_custom_llms_removes_deleted_models_and_endpoints() {
    let before = vec![
        endpoint("keep", "https://a.io", "k", vec![model("a", None, "a")]),
        endpoint("remove", "https://b.io", "k", vec![model("b", None, "b"), model("c", None, "c")]),
    ];
    let after = vec![endpoint("keep", "https://a.io", "k", vec![model("a", None, "a")])];

    assert_eq!(build_custom_llm_infos(&before).len(), 3);
    let infos = build_custom_llm_infos(&after);
    assert_eq!(infos.len(), 1);
    assert_eq!(infos[0].id.as_str(), "a");
}

#[test]
fn rebuild_custom_llms_replaces_the_custom_models() {
    let mut prefs = preferences(ModelsByFeature::default(), Vec::new());
    prefs.rebuild_custom_llms(&[endpoint("ep", "https://a.io", "k", vec![model("m", None, "id-1")])]);
    assert_eq!(prefs.custom_llm_choices().len(), 1);
    prefs.rebuild_custom_llms(&[]);
    assert!(prefs.custom_llm_choices().is_empty());
}

#[test]
fn blank_url_or_model_name_is_skipped() {
    let endpoints = vec![
        endpoint("blank-url", "   ", "k", vec![model("m", None, "a")]),
        endpoint("ok", "https://c.io", "k", vec![model("  ", None, "b"), model("n", None, "c")]),
    ];
    let infos = build_custom_llm_infos(&endpoints);
    assert_eq!(infos.len(), 1);
    assert_eq!(infos[0].id.as_str(), "c");
    assert_eq!(infos[0].description.as_deref(), Some("Custom · ok"));
    assert!(infos[0].vision_supported);
}

#[test]
fn active_models_fall_back_to_usable_choice_or_custom_endpoint_when_default_disabled() {
    let custom = build_custom_llm_infos(&[endpoint(
        "local",
        "https://example.com/v1",
        "test-key",
        vec![model("custom-model", None, "custom-config-key")],
    )]);
    let models = ModelsByFeature {
        agent_mode: available(
            "auto",
            vec![server_llm("auto", Some(DisableReason::AdminDisabled)), server_llm("gpt-x", None)],
        ),
        coding: available(
            "auto",
            vec![server_llm("auto", Some(DisableReason::AdminDisabled)), server_llm("gpt-x", None)],
        ),
        cli_agent: Some(available(
            "cli-agent-auto",
            vec![server_llm("cli-agent-auto", Some(DisableReason::AdminDisabled))],
        )),
        computer_use: None,
    };
    let prefs = preferences(models, custom);
    let keys = no_keys();

    assert_eq!(prefs.get_active_base_model(&keys, None, "", None).id.as_str(), "gpt-x");
    assert_eq!(prefs.get_active_coding_model(&keys, None).id.as_str(), "gpt-x");
    assert_eq!(prefs.get_active_cli_agent_model(&keys, None).id.as_str(), "custom-config-key");
}

#[test]
fn active_models_use_default_when_usable() {
    let models = ModelsByFeature {
        agent_mode: available("auto", vec![server_llm("auto", None), server_llm("gpt-x", None)]),
        coding: available("auto", vec![server_llm("auto", None)]),
        cli_agent: Some(available("cli-agent-auto", vec![server_llm("cli-agent-auto", None)])),
        computer_use: None,
    };
    let prefs = preferences(models, Vec::new());
    let keys = no_keys();

    assert_eq!(prefs.get_active_base_model(&keys, None, "", None).id.as_str(), "auto");
    assert_eq!(prefs.get_active_cli_agent_model(&keys, None).id.as_str(), "cli-agent-auto");
}

#[test]
fn available_llms_refuses_empty_choices_and_fixes_missing_default() {
    match AvailableLLMs::new("x".into(), Vec::new(), None) {
        Err(err) => assert_eq!(err, "Tried to create AvailableLLMs with empty`choices`."),
        Ok(_) => panic!("an empty list must be refused"),
    }
    let a = available("missing", vec![server_llm("gpt-x", None), server_llm("gpt-y", None)]);
    assert_eq!(a.default_llm_info().id.as_str(), "gpt-x");
}

#[test]
fn default_models_by_feature_lists_auto_models() {
    let models = ModelsByFeature::default();
    assert_eq!(models.agent_mode.default_llm_info().display_name, "auto (cost-efficient)");
    assert_eq!(models.coding.default_llm_info().display_name, "auto (responsive)");
    let cli = models.cli_agent.as_ref().expect("cli models");
    assert_eq!(cli.default_llm_info().id.as_str(), "cli-agent-auto");
    let computer_use = models.computer_use.as_ref().expect("computer-use models");
    assert_eq!(computer_use.default_llm_info().id.as_str(), "computer-use-agent-auto");
    assert_eq!(computer_use.default_llm_info().display_name, "auto");
}

fn two_model_prefs() -> LLMPreferences {
    let models = ModelsByFeature {
        agent_mode: available("auto", vec![server_llm("auto", None), server_llm("gpt-x", None)]),
        coding: available("auto", vec![server_llm("auto", None)]),
        cli_agent: None,
        computer_use: None,
    };
    preferences(models, Vec::new())
}

#[test]
fn picker_override_is_dropped_for_the_profile_model() {
    let mut prefs = two_model_prefs();
    let keys = no_keys();
    assert!(prefs.update_preferred_agent_mode_llm("gpt-x", 7, &keys, None));
    assert_eq!(prefs.agent_mode_override(Some(7)), Some("gpt-x"));
    assert_eq!(prefs.get_active_base_model(&keys, Some(7), "", None).id.as_str(), "gpt-x");
    assert_eq!(prefs.get_active_base_model(&keys, Some(8), "", None).id.as_str(), "auto");
    // Picking the profile's own model drops the override.
    assert!(prefs.update_preferred_agent_mode_llm("auto", 7, &keys, None));
    assert_eq!(prefs.agent_mode_override(Some(7)), None);
    // Picking it again changes nothing.
    assert!(!prefs.update_preferred_agent_mode_llm("auto", 7, &keys, None));
}

#[test]
fn pinning_reports_stored_and_effective_changes() {
    let mut prefs = two_model_prefs();
    let keys = no_keys();
    let first = prefs.set_agent_mode_llm_override(3, "gpt-x", &keys, "", None);
    assert!(first.stored_changed);
    assert!(first.effective_changed);
    let again = prefs.set_agent_mode_llm_override(3, "gpt-x", &keys, "", None);
    assert!(!again.stored_changed);
    assert!(!again.effective_changed);
    // An unknown model is stored, but the view still resolves to the same model.
    let unknown = prefs.set_agent_mode_llm_override(4, "missing", &keys, "", None);
    assert!(unknown.stored_changed);
    assert!(!unknown.effective_changed);
    assert_eq!(prefs.agent_mode_override(Some(4)), Some("missing"));
}

#[test]
fn copying_a_selection_reproduces_it() {
    let mut prefs = two_model_prefs();
    let keys = no_keys();
    prefs.set_agent_mode_llm_override(1, "gpt-x", &keys, "", None);
    assert!(prefs.copy_agent_mode_selection(1, 2));
    assert_eq!(prefs.agent_mode_override(Some(2)), Some("gpt-x"));
    assert_eq!(prefs.get_active_base_model(&keys, Some(2), "", None).id.as_str(), "gpt-x");
    assert!(!prefs.copy_agent_mode_selection(1, 2));
    // A source without an override clears the destination's.
    assert!(prefs.copy_agent_mode_selection(5, 2));
    assert_eq!(prefs.agent_mode_override(Some(2)), None);
    assert!(!prefs.copy_agent_mode_selection(5, 2));
}

#[test]
fn last_used_model_comes_before_the_profile_model() {
    let prefs = two_model_prefs();
    let keys = no_keys();
    assert_eq!(prefs.get_active_base_model(&keys, None, "gpt-x", Some("auto")).id.as_str(), "gpt-x");
    assert_eq!(prefs.get_active_base_model(&keys, None, "gone", Some("auto")).id.as_str(), "auto");
    assert_eq!(prefs.get_active_base_model(&keys, None, "", Some("gpt-x")).id.as_str(), "gpt-x");
}

#[test]
fn feature_model_wins_when_listed() {
    let prefs = two_model_prefs();
    let keys = no_keys();
    assert_eq!(
        prefs.get_active_feature_model(&keys, Some("gpt-x"), None, "", None).id.as_str(),
        "gpt-x"
    );
    assert_eq!(
        prefs.get_active_feature_model(&keys, Some("missing"), None, "", None).id.as_str(),
        "auto"
    );
}

#[test]
fn picker_hides_admin_disabled_models() {
    let models = ModelsByFeature {
        agent_mode: available(
            "auto",
            vec![server_llm("auto", Some(DisableReason::AdminDisabled)), server_llm("gpt-x", None)],
        ),
        coding: available("auto", vec![server_llm("auto", None)]),
        cli_agent: None,
        computer_use: None,
    };
    let custom = build_custom_llm_infos(&[endpoint("ep", "https://a.io", "k", vec![model("m", None, "c-1")])]);
    let prefs = preferences(models, custom);
    let ids: Vec<String> = prefs
        .get_base_llm_choices_for_agent_mode()
        .iter()
        .map(|l| l.id.clone())
        .collect();
    assert_eq!(ids, vec!["gpt-x".to_string(), "c-1".to_string()]);
    let cli: Vec<String> = prefs.get_cli_agent_llm_choices().iter().map(|l| l.id.clone()).collect();
    assert_eq!(cli, vec!["auto".to_string(), "gpt-x".to_string(), "c-1".to_string()]);
}

#[test]
fn dedupe_sorts_and_removes_repeated_names() {
    let a = server_llm("gpt-b", None);
    let b = server_llm("gpt-a", None);
    let c = server_llm("gpt-b", None);
    let names = dedupe_model_display_names(&[&a, &b, &c]);
    assert_eq!(names, vec!["gpt-a".to_string(), "gpt-b".to_string()]);
}

#[test]
fn computer_use_falls_back_to_built_in_model() {
    let prefs = two_model_prefs();
    let keys = no_keys();
    assert_eq!(
        prefs.get_active_computer_use_model(&keys, None).id.as_str(),
        "computer-use-agent-auto"
    );
}

#[test]
fn feature_models_follow_the_profile_then_the_base_model() {
    let prefs = two_model_prefs();
    let keys = no_keys();
    let mut profile = AIExecutionProfile::with_default_permissions(&Vec::new());
    assert_eq!(prefs.get_active_title_model(&keys, &profile, None, "").id.as_str(), "auto");
    profile.title_model = Some("gpt-x".to_string());
    profile.active_ai_model = Some("missing".to_string());
    profile.base_model = Some("gpt-x".to_string());
    assert_eq!(prefs.get_active_title_model(&keys, &profile, None, "").id.as_str(), "gpt-x");
    assert_eq!(prefs.get_active_ai_model(&keys, &profile, None, "").id.as_str(), "gpt-x");
    profile.base_model = None;
    assert_eq!(prefs.get_active_ai_model(&keys, &profile, None, "").id.as_str(), "auto");
    profile.next_command_model = Some("gpt-x".to_string());
    assert_eq!(prefs.get_active_next_command_model(&keys, &profile, None, "").id.as_str(), "gpt-x");
}

#[test]
fn routers_are_offered_only_when_enabled() {
    let mut prefs = two_model_prefs();
    let mut router = server_llm("router-1", None);
    router.is_custom_router = true;
    prefs.custom_model_routers = vec![router];
    assert!(prefs.custom_router_choices().is_empty());
    assert!(prefs.get_llm_info("router-1").is_some());
    prefs.custom_routers_enabled = true;
    assert_eq!(prefs.custom_router_choices().len(), 1);
    assert_eq!(prefs.get_base_llm_choices_for_agent_mode().len(), 3);
}

#[test]
fn bedrock_icon_follows_the_last_bedrock_entry() {
    let mut info = server_llm("m", None);
    assert!(!should_show_bedrock_icon_for_model(&info));
    info.host_configs = vec![
        RoutingHostConfig { enabled: true, model_routing_host: LLMModelHost::AwsBedrock },
        RoutingHostConfig { enabled: false, model_routing_host: LLMModelHost::AwsBedrock },
    ];
    assert!(!should_show_bedrock_icon_for_model(&info));
    info.host_configs.push(RoutingHostConfig { enabled: true, model_routing_host: LLMModelHost::AwsBedrock });
    assert!(should_show_bedrock_icon_for_model(&info));
}

fn router(key: &str, targets: &[&str], file: Option<&str>) -> CustomModelRouter {
    let mut info = server_llm(key, None);
    info.display_name = format!("Router {key}");
    info.is_custom_router = true;
    CustomModelRouter {
        info,
        config_key: key.to_string(),
        targets: targets.iter().map(|t| t.to_string()).collect(),
        source_file_name: file.map(str::to_string),
        source_path: file.map(|f| format!("/cfg/{f}")).unwrap_or_default(),
    }
}

#[test]
fn rebuilding_routers_drops_duplicates_and_unknown_targets() {
    let mut prefs = two_model_prefs();
    let mut seeing = server_llm("vision-x", None);
    seeing.vision_supported = true;
    prefs.custom_llms = vec![seeing];
    let errors = prefs.rebuild_custom_model_routers(vec![
        router("r1", &["auto", "gpt-x"], Some("r1.toml")),
        router("r1", &["missing"], Some("dup.toml")),
        router("r2", &["auto", "nope", "gone"], None),
        router("r3", &["vision-x"], Some("r3.toml")),
    ]);
    let ids: Vec<&str> = prefs.custom_model_routers.iter().map(|r| r.id.as_str()).collect();
    assert_eq!(ids, vec!["r1", "r3"]);
    assert!(!prefs.custom_model_routers[0].vision_supported);
    assert!(prefs.custom_model_routers[1].vision_supported);
    assert_eq!(errors.len(), 1);
    assert_eq!(errors[0].file_name, "Router r2");
    assert_eq!(errors[0].file_path, "");
    assert_eq!(errors[0].error_message, "unknown target model(s): nope, gone");
}

#[test]
fn reconcile_preserves_custom_models_saved_on_execution_profile() {
    let custom_model_id = "custom-model-config-key";
    let custom = build_custom_llm_infos(&[endpoint(
        "local",
        "https://example.com/v1",
        "test-key",
        vec![model("custom-model", Some("Custom Model"), custom_model_id)],
    )]);
    let prefs = preferences(ModelsByFeature::default(), custom);
    let mut profile = AIExecutionProfile::with_default_permissions(&Vec::new());
    profile.base_model = Some(custom_model_id.to_string());
    profile.coding_model = Some(custom_model_id.to_string());
    profile.cli_agent_model = Some(custom_model_id.to_string());

    prefs.reconcile_disabled_model_preferences(&mut profile, &no_keys());

    assert_eq!(profile.base_model.as_deref(), Some(custom_model_id));
    assert_eq!(profile.coding_model.as_deref(), Some(custom_model_id));
    assert_eq!(profile.cli_agent_model.as_deref(), Some(custom_model_id));
}

#[test]
fn reconcile_preserves_custom_endpoint_models_not_configured_locally() {
    let prefs = preferences(ModelsByFeature::default(), Vec::new());
    let remote_custom_model_id = "a1b2c3d4-5e6f-7890-abcd-ef1234567890";
    let preserved_context_window_limit: u32 = 200_000;
    let mut profile = AIExecutionProfile::with_default_permissions(&Vec::new());
    profile.base_model = Some(remote_custom_model_id.to_string());
    profile.coding_model = Some(remote_custom_model_id.to_string());
    profile.cli_agent_model = Some(remote_custom_model_id.to_string());
    profile.context_window_limit = Some(preserved_context_window_limit);

    prefs.reconcile_disabled_model_preferences(&mut profile, &no_keys());

    assert_eq!(profile.base_model.as_deref(), Some(remote_custom_model_id));
    assert_eq!(profile.coding_model.as_deref(), Some(remote_custom_model_id));
    assert_eq!(profile.cli_agent_model.as_deref(), Some(remote_custom_model_id));
    assert_eq!(profile.context_window_limit, Some(preserved_context_window_limit));
}

#[test]
fn reconcile_clears_recognized_disabled_models() {
    let models = ModelsByFeature {
        agent_mode: available(
            "auto",
            vec![server_llm("auto", None), server_llm("old", Some(DisableReason::Unavailable))],
        ),
        coding: available("auto", vec![server_llm("auto", None), server_llm("old", Some(DisableReason::AdminDisabled))]),
        cli_agent: None,
        computer_use: None,
    };
    let prefs = preferences(models, Vec::new());
    let mut profile = AIExecutionProfile::with_default_permissions(&Vec::new());
    profile.base_model = Some("old".to_string());
    profile.coding_model = Some("old".to_string());
    profile.cli_agent_model = Some("auto".to_string());
    profile.computer_use_model = Some("gone".to_string());
    profile.context_window_limit = Some(1000);

    let r = prefs.reconcile_disabled_model_preferences(&mut profile, &no_keys());
    assert!(r.clear_base_model && r.clear_coding_model && r.clear_computer_use_model);
    assert!(r.clear_context_window_limit);
    assert!(!r.clear_cli_agent_model);
    assert_eq!(profile.base_model, None);
    assert_eq!(profile.coding_model, None);
    assert_eq!(profile.cli_agent_model.as_deref(), Some("auto"));
    assert_eq!(profile.computer_use_model, None);
    assert_eq!(profile.context_window_limit, None);
    // A second pass clears nothing more.
    let again = prefs.reconcile_disabled_model_preferences(&mut profile, &no_keys());
    assert!(!again.clear_base_model && !again.clear_context_window_limit && !again.clear_coding_model);
}

#[test]
fn removing_an_override_reports_whether_there_was_one() {
    let mut prefs = two_model_prefs();
    let keys = no_keys();
    prefs.set_agent_mode_llm_override(9, "gpt-x", &keys, "", None);
    assert_eq!(prefs.get_base_llm_override(9).as_deref(), Some("\"gpt-x\""));
    assert!(prefs.remove_llm_override(9));
    assert!(!prefs.remove_llm_override(9));
    assert_eq!(prefs.get_base_llm_override(9), None);
}

#[test]
fn vision_follows_the_active_base_model() {
    let mut prefs = two_model_prefs();
    let keys = no_keys();
    assert!(!prefs.vision_supported(&keys, None, "", None));
    let mut seeing = server_llm("seeing", None);
    seeing.vision_supported = true;
    prefs.custom_llms = vec![seeing];
    assert!(prefs.vision_supported(&keys, None, "seeing", None));
}

#[test]
fn coding_choice_of_the_default_clears_the_profile_setting() {
    let prefs = two_model_prefs();
    let mut profile = AIExecutionProfile::with_default_permissions(&Vec::new());
    assert!(!prefs.update_preferred_coding_llm("auto", &mut profile));
    assert!(prefs.update_preferred_coding_llm("other", &mut profile));
    assert_eq!(profile.coding_model.as_deref(), Some("other"));
    assert!(!prefs.update_preferred_coding_llm("other", &mut profile));
    assert!(prefs.update_preferred_coding_llm("auto", &mut profile));
    assert_eq!(profile.coding_model, None);
}

#[test]
fn new_models_popup_belongs_to_the_first_view_that_shows_it() {
    let mut popup = NewChoicesPopup::for_update(true);
    assert!(popup.should_show_new_choices_popup(1));
    assert!(popup.should_show_new_choices_popup(2));
    popup.mark_new_choices_popup_as_shown(1);
    assert_eq!(popup.visibility, PopupVisibility::Visible(1));
    assert!(!popup.should_show_new_choices_popup(2));
    popup.hide_llm_popup(2);
    assert_eq!(popup.visibility, PopupVisibility::Visible(1));
    popup.hide_llm_popup(1);
    assert_eq!(popup.visibility, PopupVisibility::Hidden);
    assert_eq!(NewChoicesPopup::for_update(false).visibility, PopupVisibility::Hidden);
}

#[test]
fn new_choices_are_those_with_new_ids_except_lite_models() {
    let old = available("auto", vec![server_llm("auto", None)]);
    let mut lite = server_llm("lite-1", None);
    lite.display_name = "lite fast".to_string();
    let new = available("auto", vec![server_llm("auto", None), server_llm("gpt-x", None), lite]);
    let added = get_new_agent_mode_choices(&old, &new);
    let ids: Vec<&str> = added.iter().map(|l| l.id.as_str()).collect();
    assert_eq!(ids, vec!["gpt-x", "lite-1"]);
    let shown = new_choices_to_announce(&added);
    assert_eq!(shown.len(), 1);
    assert_eq!(shown[0].id, "gpt-x");
    let since = new_choices_since_last_update(Some(&added)).expect("an update happened");
    assert_eq!(since.len(), 1);
    assert_eq!(since[0].id, "gpt-x");
    assert!(new_choices_since_last_update(None).is_none());
}

#[test]
fn default_title_ai_and_next_command_models_follow_the_agent_mode_model() {
    let mut prefs = two_model_prefs();
    let keys = no_keys();
    assert_eq!(prefs.get_default_title_model(&keys, None, "", None).id.as_str(), "auto");
    assert!(prefs.update_preferred_agent_mode_llm("gpt-x", 3, &keys, None));
    assert_eq!(prefs.get_default_title_model(&keys, Some(3), "", None).id.as_str(), "gpt-x");
    assert_eq!(prefs.get_default_active_ai_model(&keys, Some(3), "", None).id.as_str(), "gpt-x");
    assert_eq!(prefs.get_default_next_command_model(&keys, Some(3), "", None).id.as_str(), "gpt-x");
    assert_eq!(prefs.get_default_next_command_model(&keys, Some(4), "", None).id.as_str(), "auto");
}

#[test]
fn default_cli_agent_model_falls_back_to_agent_mode_models() {
    let prefs = two_model_prefs();
    let keys = no_keys();
    assert_eq!(prefs.get_default_cli_agent_model(&keys).id.as_str(), "auto");

    let models = ModelsByFeature {
        agent_mode: available("auto", vec![server_llm("auto", None)]),
        coding: available("auto", vec![server_llm("auto", None)]),
        cli_agent: Some(available("cli-x", vec![server_llm("cli-x", None)])),
        computer_use: None,
    };
    let prefs = preferences(models, Vec::new());
    assert_eq!(prefs.get_default_cli_agent_model(&keys).id.as_str(), "cli-x");
}

#[test]
fn computer_use_choices_come_from_the_server_or_the_built_in_list() {
    let prefs = two_model_prefs();
    let choices = prefs.get_computer_use_llm_choices();
    assert_eq!(choices.len(), 1);
    assert_eq!(choices[0].id.as_str(), "computer-use-agent-auto");

    let models = ModelsByFeature {
        agent_mode: available("auto", vec![server_llm("auto", None)]),
        coding: available("auto", vec![server_llm("auto", None)]),
        cli_agent: None,
        computer_use: Some(available("cu-a", vec![server_llm("cu-a", None), server_llm("cu-b", None)])),
    };
    let prefs = preferences(models, Vec::new());
    let ids: Vec<&str> = prefs.get_computer_use_llm_choices().iter().map(|m| m.id.as_str()).collect();
    assert_eq!(ids, vec!["cu-a", "cu-b"]);
}

#[test]
fn agent_mode_availability_checks_the_listed_ids() {
    let prefs = two_model_prefs();
    assert!(prefs.is_available_agent_mode_llm("gpt-x"));
    assert!(prefs.is_available_agent_mode_llm("auto"));
    assert!(!prefs.is_available_agent_mode_llm("gpt-missing"));
}

#[test]
fn key_icon_shows_for_own_keys_and_custom_endpoints() {
    let custom = build_custom_llm_infos(&[endpoint(
        "local",
        "https://example.com/v1",
        "k",
        vec![model("m", None, "custom-key")],
    )]);
    let prefs = preferences(ModelsByFeature::default(), custom.clone());
    let mut openai_model = server_llm("gpt-x", None);
    openai_model.provider = LLMProvider::OpenAI;

    assert!(!prefs.should_show_key_icon_for_model(&openai_model, &no_keys()));
    let keys = ApiKeyPresence { openai: true, anthropic: false, google: false };
    assert!(prefs.should_show_key_icon_for_model(&openai_model, &keys));
    assert!(prefs.should_show_key_icon_for_model(&custom[0], &no_keys()));
}

#[test]
fn router_lookup_by_id_ignores_the_enabled_switch() {
    let mut prefs = two_model_prefs();
    let mut info = server_llm("router-1", None);
    info.is_custom_router = true;
    prefs.custom_model_routers = vec![info];
    assert_eq!(prefs.custom_model_router_for_id("router-1").map(|r| r.id.as_str()), Some("router-1"));
    assert!(prefs.custom_model_router_for_id("router-2").is_none());
}

fn agent_llm(id: &str, display_name: &str) -> LLMInfo {
    let mut info = server_llm(id, None);
    info.display_name = display_name.to_owned();
    info.base_model_name = display_name.to_owned();
    info
}

fn preferences_for_tui_tests() -> LLMPreferences {
    let agent_mode = available(
        "auto",
        vec![agent_llm("auto", "auto (cost-efficient)"), agent_llm("opus-model", "Opus")],
    );
    preferences(ModelsByFeature { agent_mode, ..ModelsByFeature::default() }, Vec::new())
}

#[test]
fn tui_agent_model_auto_resolves_to_the_default_model() {
    let preferences = preferences_for_tui_tests();
    assert_eq!(preferences.tui_agent_model_info("auto").id.as_str(), "auto");
}

#[test]
fn tui_agent_model_known_id_resolves_to_that_model() {
    let preferences = preferences_for_tui_tests();
    let info = preferences.tui_agent_model_info("opus-model");
    assert_eq!(info.id.as_str(), "opus-model");
    assert_eq!(info.display_name, "Opus");
}

#[test]
fn tui_agent_model_unknown_id_falls_back_to_the_default_model() {
    let preferences = preferences_for_tui_tests();
    assert_eq!(preferences.tui_agent_model_info("not-a-model").id.as_str(), "auto");
}

#[test]
fn override_json_escapes_quotes_and_control_characters() {
    let mut prefs = two_model_prefs();
    prefs.custom_llms = vec![server_llm("odd\"id\u{1}\n", None)];
    let keys = no_keys();
    prefs.set_agent_mode_llm_override(4, "odd\"id\u{1}\n", &keys, "", None);
    assert_eq!(prefs.get_base_llm_override(4).as_deref(), Some("\"odd\\\"id\\u0001\\n\""));
}

#[test]
fn base_model_name_defaults_to_the_display_name() {
    assert_eq!(LLMInfo::base_model_name_or_display(Some("gpt-5".to_string()), "GPT 5"), "gpt-5");
    assert_eq!(LLMInfo::base_model_name_or_display(None, "GPT 5"), "GPT 5");
}

#[test]
fn deserialized_available_llms_with_missing_default_does_not_panic() {
    let stored = AvailableLLMs::from_stored(
        "missing-default".to_string(),
        vec![server_llm("gpt-x", None), server_llm("gpt-y", None)],
        None,
    )
    .expect("choices are not empty");
    assert_eq!(stored.default_id(), "missing-default");
    assert_eq!(stored.default_llm_info().id.as_str(), "gpt-x");
}
