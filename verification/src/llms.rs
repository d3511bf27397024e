//! Model metadata: providers, hosts, context windows and why a model may be disabled.
use vstd::prelude::*;
use vstd::string::*;

verus! {

/// Where the API key used for inference comes from.
#[derive(Debug, Clone, Copy, PartialEq, Eq, Structural)]
pub enum ByoKeySource {
    UserProvided,
}

impl ByoKeySource {
    pub fn inference_label(self) -> (r: &'static str)
        ensures
            r@ == "Inference via User-provided API key"@,
    {
        match self {
            ByoKeySource::UserProvided => "Inference via User-provided API key",
        }
    }
}

/// Why a model cannot currently be used.
#[derive(Debug, Clone, Copy, PartialEq, Eq, Hash, Structural)]
pub enum DisableReason {
    AdminDisabled,
    OutOfRequests,
    ProviderOutage,
    RequiresUpgrade,
    Unavailable,
}

pub open spec fn tooltip_spec(r: DisableReason) -> Seq<char> {
    match r {
        DisableReason::AdminDisabled => "This model has been disabled by local configuration."@,
        DisableReason::OutOfRequests => "The provider's request limit has been reached. Check your provider account."@,
        DisableReason::ProviderOutage => "This model is temporarily unavailable due to a provider outage."@,
        DisableReason::RequiresUpgrade => "This model is unavailable with the configured provider credentials."@,
        DisableReason::Unavailable => "This model is unavailable."@,
    }
}

/// Whether a stored preference for a model disabled for `r` should be cleared: always for
/// an administrative or permanent block, unless the user has their own key when an upgrade
/// is required, and never for transient causes.
pub open spec fn should_clear_spec(r: DisableReason, has_byok_key: bool) -> bool {
    match r {
        DisableReason::AdminDisabled | DisableReason::Unavailable => true,
        DisableReason::RequiresUpgrade => !has_byok_key,
        DisableReason::OutOfRequests | DisableReason::ProviderOutage => false,
    }
}

impl DisableReason {
    /// The tooltip explaining why the model is disabled.
    pub fn tooltip_text(&self) -> (r: &'static str)
        ensures
            r@ == tooltip_spec(*self),
    {
        match self {
            DisableReason::AdminDisabled => "This model has been disabled by local configuration.",
            DisableReason::OutOfRequests => "The provider's request limit has been reached. Check your provider account.",
            DisableReason::ProviderOutage => "This model is temporarily unavailable due to a provider outage.",
            DisableReason::RequiresUpgrade => "This model is unavailable with the configured provider credentials.",
            DisableReason::Unavailable => "This model is unavailable.",
        }
    }

    /// Whether the user's stored preference for the model should be cleared.
    pub fn should_clear_preference(&self, has_byok_key: bool) -> (r: bool)
        ensures
            r == should_clear_spec(*self, has_byok_key),
    {
        match self {
            DisableReason::AdminDisabled | DisableReason::Unavailable => true,
            DisableReason::RequiresUpgrade => !has_byok_key,
            DisableReason::OutOfRequests | DisableReason::ProviderOutage => false,
        }
    }
}

/// Whether a model is usable: it is not disabled, or disabled for a reason that keeps the
/// preference.
pub open spec fn is_usable_spec(reason: Option<DisableReason>, has_byok_key: bool) -> bool {
    match reason {
        None => true,
        Some(r) => !should_clear_spec(r, has_byok_key),
    }
}

/// Whether a model with the given disable reason is usable for the user.
pub fn is_usable_llm(disable_reason: Option<DisableReason>, has_byok_key: bool) -> (r: bool)
    ensures
        r == is_usable_spec(disable_reason, has_byok_key),
{
    match disable_reason {
        None => true,
        Some(reason) => !reason.should_clear_preference(has_byok_key),
    }
}

/// A user key can only make a model more usable: whatever is usable without one is usable
/// with one.
pub proof fn lemma_byok_only_helps(reason: Option<DisableReason>)
    ensures
        is_usable_spec(reason, false) ==> is_usable_spec(reason, true),
{
}

/// Transient causes never clear a preference, whatever the key.
pub proof fn lemma_transient_keeps_preference(has_byok_key: bool)
    ensures
        !should_clear_spec(DisableReason::OutOfRequests, has_byok_key),
        !should_clear_spec(DisableReason::ProviderOutage, has_byok_key),
{
}

/// The company that serves a model.
#[derive(Debug, Clone, Copy, PartialEq, Eq, Structural)]
pub enum LLMProvider {
    OpenAI,
    Anthropic,
    Google,
    Xai,
    Unknown,
}

pub open spec fn provider_display_name(p: LLMProvider) -> Seq<char> {
    match p {
        LLMProvider::OpenAI => "OpenAI"@,
        LLMProvider::Anthropic => "Anthropic"@,
        LLMProvider::Google => "Google"@,
        LLMProvider::Xai => "xAI"@,
        LLMProvider::Unknown => "this provider"@,
    }
}

impl LLMProvider {
    /// The provider's name for user-facing text.
    pub fn display_name(&self) -> (r: &'static str)
        ensures
            r@ == provider_display_name(*self),
    {
        match self {
            LLMProvider::OpenAI => "OpenAI",
            LLMProvider::Anthropic => "Anthropic",
            LLMProvider::Google => "Google",
            LLMProvider::Xai => "xAI",
            LLMProvider::Unknown => "this provider",
        }
    }
}

/// Where a model's requests can be routed.
#[derive(Debug, Clone, Copy, PartialEq, Eq, Hash, Structural)]
pub enum LLMModelHost {
    DirectApi,
    AwsBedrock,
    CustomEndpoint,
    Unknown,
}

/// Whether routing to a host is enabled.
#[derive(Debug, Clone, Copy, PartialEq, Eq, Structural)]
pub struct RoutingHostConfig {
    pub enabled: bool,
    pub model_routing_host: LLMModelHost,
}

/// A model's context window, in tokens.
#[derive(Debug, Clone, Copy, Default, PartialEq, Eq, Structural)]
pub struct LLMContextWindow {
    pub is_configurable: bool,
    pub min: u32,
    pub max: u32,
    pub default_max: u32,
}

/// Events of the model preferences.
#[derive(Debug, Clone, Copy, PartialEq, Eq, Structural)]
pub enum LLMPreferencesEvent {
    UpdatedAvailableLLMs,
    UpdatedActiveAgentModeLLM,
    UpdatedActiveCodingLLM,
    /// The reasoning effort of the current terminal view changed.
    UpdatedReasoningEffort,
}

} // verus!
