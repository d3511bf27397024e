use agent_core::llms::{is_usable_llm, ByoKeySource, DisableReason, LLMProvider};

#[test]
fn should_clear_preference_admin_disabled() {
    assert!(DisableReason::AdminDisabled.should_clear_preference(false));
    assert!(DisableReason::AdminDisabled.should_clear_preference(true));
}

#[test]
fn should_clear_preference_unavailable() {
    assert!(DisableReason::Unavailable.should_clear_preference(false));
    assert!(DisableReason::Unavailable.should_clear_preference(true));
}

#[test]
fn should_not_clear_preference_out_of_requests() {
    assert!(!DisableReason::OutOfRequests.should_clear_preference(false));
    assert!(!DisableReason::OutOfRequests.should_clear_preference(true));
}

#[test]
fn should_not_clear_preference_provider_outage() {
    assert!(!DisableReason::ProviderOutage.should_clear_preference(false));
    assert!(!DisableReason::ProviderOutage.should_clear_preference(true));
}

#[test]
fn should_clear_preference_requires_upgrade_without_byok() {
    assert!(DisableReason::RequiresUpgrade.should_clear_preference(false));
}

#[test]
fn should_not_clear_preference_requires_upgrade_with_byok() {
    assert!(!DisableReason::RequiresUpgrade.should_clear_preference(true));
}

#[test]
fn usable_llm_follows_the_disable_reason() {
    assert!(is_usable_llm(None, false));
    assert!(is_usable_llm(Some(DisableReason::OutOfRequests), false));
    assert!(!is_usable_llm(Some(DisableReason::RequiresUpgrade), false));
    assert!(is_usable_llm(Some(DisableReason::RequiresUpgrade), true));
    assert!(!is_usable_llm(Some(DisableReason::AdminDisabled), true));
}

#[test]
fn provider_and_reason_texts() {
    assert_eq!(LLMProvider::Xai.display_name(), "xAI");
    assert_eq!(LLMProvider::Unknown.display_name(), "this provider");
    assert_eq!(
        DisableReason::Unavailable.tooltip_text(),
        "This model is unavailable."
    );
    assert_eq!(
        ByoKeySource::UserProvided.inference_label(),
        "Inference via User-provided API key"
    );
}
