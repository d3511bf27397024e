//! The model preferences: the catalogue that choices resolve against, which model each
//! feature and terminal view uses (an explicit choice when the catalogue has it, otherwise a
//! fallback that avoids models the user cannot use), the custom routers, how profiles are
//! reconciled with the catalogue, and the announcement of new models.
use std::collections::HashMap;
use vstd::prelude::*;
use vstd::string::*;

use crate::custom_endpoints::{build_custom_llm_infos, custom_entries, lists_entries, CustomEndpoint};
use crate::execution_profiles::{opt_string_view, AIExecutionProfile};
use crate::llm_catalog::{
    default_info, deref_opt, derefs, find_by_id, first_party_key_source_for_provider, has_key_spec,
    lemma_first_usable_exists, lookup, names_of, offered, opt_as_str, opt_str_view, or_else, push_all,
    usable_default, usable_lookup, usable_spec, ApiKeyPresence, AvailableLLMs, LLMInfo, ModelsByFeature,
};
use crate::llms::{ByoKeySource, DisableReason};
use crate::text::str_eq;

verus! {

/// The model catalogue that preferences resolve against: the server's models per feature,
/// the user's custom-endpoint models, and the custom model routers (offered only when that
/// feature is on).
pub struct LLMPreferences {
    pub models_by_feature: ModelsByFeature,
    pub custom_llms: Vec<LLMInfo>,
    pub custom_model_routers: Vec<LLMInfo>,
    pub custom_routers_enabled: bool,
    /// The computer-use models when the server lists none.
    pub default_computer_use: AvailableLLMs,
    /// The agent-mode model chosen for a terminal view, by view, where it differs from the
    /// profile's.
    pub base_llm_for_terminal_view: HashMap<u64, String>,
}

impl LLMPreferences {
    /// A custom-endpoint model by id.
    pub open spec fn custom_lookup(&self, id: Seq<char>) -> Option<LLMInfo> {
        lookup(self.custom_llms@, id)
    }

    /// A custom model router by id, when routers are on.
    pub open spec fn router_lookup(&self, id: Seq<char>) -> Option<LLMInfo> {
        if self.custom_routers_enabled {
            lookup(self.custom_model_routers@, id)
        } else {
            None
        }
    }

    /// A model by id: among the feature's models, then the custom-endpoint models, then the
    /// custom routers.
    pub open spec fn model_lookup(&self, available: AvailableLLMs, id: Seq<char>) -> Option<LLMInfo> {
        or_else(lookup(available.choices_spec(), id), or_else(self.custom_lookup(id), self.router_lookup(id)))
    }

    /// The model used when the user chose none (or chose one that is gone): the feature's
    /// default when usable, else its first usable model, else the first custom-endpoint
    /// model, else the feature's default anyway.
    pub open spec fn fallback(&self, available: AvailableLLMs, keys: ApiKeyPresence) -> LLMInfo {
        match usable_default(available.choices_spec(), available.default_id_spec(), keys) {
            Some(x) => x,
            None => if self.custom_llms@.len() > 0 {
                self.custom_llms@[0]
            } else {
                default_info(available.choices_spec(), available.default_id_spec())
            },
        }
    }

    /// The agent-mode model that the profile names, or the fallback.
    pub open spec fn profile_base(&self, keys: ApiKeyPresence, profile_base_model: Option<Seq<char>>) -> LLMInfo {
        match profile_base_model {
            Some(id) => match self.model_lookup(self.models_by_feature.agent_mode, id) {
                Some(x) => x,
                None => self.fallback(self.models_by_feature.agent_mode, keys),
            },
            None => self.fallback(self.models_by_feature.agent_mode, keys),
        }
    }

    /// The terminal-view overrides, by view.
    pub open spec fn overrides_view(&self) -> Map<u64, Seq<char>> {
        self.base_llm_for_terminal_view@.map_values(|s: String| s@)
    }

    /// The override of a terminal view, if it has one.
    pub open spec fn override_spec(&self, terminal_view_id: Option<u64>) -> Option<Seq<char>> {
        override_in(self.overrides_view(), terminal_view_id)
    }

    /// The agent-mode model: the terminal's override when the catalogue has it; else the
    /// model last used in the picker, if any, when the agent-mode or custom-endpoint models
    /// have it; else [`LLMPreferences::profile_base`].
    pub open spec fn preferred_base(
        &self,
        keys: ApiKeyPresence,
        override_id: Option<Seq<char>>,
        last_used: Seq<char>,
        profile_base_model: Option<Seq<char>>,
    ) -> LLMInfo {
        let from_override = match override_id {
            Some(id) => self.model_lookup(self.models_by_feature.agent_mode, id),
            None => None,
        };
        let from_last = if last_used.len() > 0 {
            or_else(lookup(self.models_by_feature.agent_mode.choices_spec(), last_used), self.custom_lookup(last_used))
        } else {
            None
        };
        match or_else(from_override, from_last) {
            Some(x) => x,
            None => self.profile_base(keys, profile_base_model),
        }
    }

    /// A model by id anywhere in the catalogue: the agent-mode models, then the
    /// custom-endpoint models, then the custom routers (whether or not routers are on).
    pub open spec fn any_lookup(&self, id: Seq<char>) -> Option<LLMInfo> {
        or_else(
            lookup(self.models_by_feature.agent_mode.choices_spec(), id),
            or_else(self.custom_lookup(id), lookup(self.custom_model_routers@, id)),
        )
    }

    /// A model by id anywhere in the catalogue; see [`LLMPreferences::any_lookup`].
    pub fn get_llm_info(&self, id: &str) -> (r: Option<&LLMInfo>)
        ensures
            deref_opt(r) == self.any_lookup(id@),
    {
        match self.models_by_feature.info_for_id(id) {
            Some(x) => Some(x),
            None => match self.custom_llm_info_for_id(id) {
                Some(x) => Some(x),
                None => find_by_id(&self.custom_model_routers, id),
            },
        }
    }

    /// The agent-mode default model.
    pub fn get_default_base_model(&self) -> (r: &LLMInfo)
        ensures
            *r == default_info(
                self.models_by_feature.agent_mode.choices_spec(),
                self.models_by_feature.agent_mode.default_id_spec(),
            ),
    {
        self.models_by_feature.agent_mode.default_llm_info()
    }

    /// The coding model used when none was chosen; see [`LLMPreferences::fallback`].
    pub fn get_default_coding_model(&self, keys: &ApiKeyPresence) -> (r: &LLMInfo)
        ensures
            *r == self.fallback(self.models_by_feature.coding, *keys),
    {
        self.fallback_llm_info(&self.models_by_feature.coding, keys)
    }

    /// The preferred Codex model among the agent-mode models, if the server set one.
    pub fn get_preferred_codex_model(&self) -> (r: Option<&LLMInfo>)
        ensures
            deref_opt(r) == match self.models_by_feature.agent_mode.preferred_codex_spec() {
                Some(p) => lookup(self.models_by_feature.agent_mode.choices_spec(), p),
                None => None,
            },
    {
        self.models_by_feature.agent_mode.preferred_codex_model()
    }

    /// The model with this id for a feature or among the custom-endpoint models, when this
    /// device knows the id at all.
    pub open spec fn recognizes(&self, available: AvailableLLMs, id: Seq<char>) -> bool {
        lookup(available.choices_spec(), id) is Some || self.custom_lookup(id) is Some
    }

    /// A chosen model that the user can use: a usable model of the feature, else a
    /// custom-endpoint model.
    pub open spec fn usable_choice(&self, available: AvailableLLMs, id: Seq<char>, keys: ApiKeyPresence) -> Option<
        LLMInfo,
    > {
        or_else(usable_lookup(available.choices_spec(), id, keys), self.custom_lookup(id))
    }

    /// The model whose window the profile's limit applies to: its base model, else the
    /// agent-mode default.
    pub open spec fn effective_base_id(&self, profile: AIExecutionProfile) -> Seq<char> {
        match profile.base_model {
            Some(b) => b@,
            None => self.models_by_feature.agent_mode.default_id_spec(),
        }
    }

    /// The profile names no base model, or one this device recognizes.
    pub open spec fn base_recognized(&self, profile: AIExecutionProfile) -> bool {
        profile.base_model is None || self.recognizes(self.models_by_feature.agent_mode, self.effective_base_id(profile))
    }

    /// The usable model that the profile's base model (or the default) resolves to.
    pub open spec fn usable_base(&self, profile: AIExecutionProfile, keys: ApiKeyPresence) -> Option<LLMInfo> {
        self.usable_choice(self.models_by_feature.agent_mode, self.effective_base_id(profile), keys)
    }

    /// A recognized chosen model of a feature that the user cannot use.
    pub open spec fn stale_choice(&self, available: AvailableLLMs, choice: Option<String>, keys: ApiKeyPresence) -> bool {
        match choice {
            Some(id) => self.recognizes(available, id@) && self.usable_choice(available, id@, keys) is None,
            None => false,
        }
    }

    /// The CLI agent's models.
    pub open spec fn cli_available(&self) -> AvailableLLMs {
        match self.models_by_feature.cli_agent {
            Some(a) => a,
            None => self.models_by_feature.agent_mode,
        }
    }

    /// The computer-use models.
    pub open spec fn computer_use_available(&self) -> AvailableLLMs {
        match self.models_by_feature.computer_use {
            Some(a) => a,
            None => self.default_computer_use,
        }
    }

    /// What reconciling `profile` with the catalogue clears. A model id that this device does
    /// not recognize (it may name a custom endpoint set up on another device) is kept. The
    /// base model is cleared when it is recognized and unusable; the context-window limit
    /// when the base model (or the default) is recognized and is unusable or has no
    /// adjustable window; the coding and CLI models when recognized and unusable; the
    /// computer-use model when it is not a usable computer-use model.
    pub open spec fn reconciliation(&self, profile: AIExecutionProfile, keys: ApiKeyPresence) -> ProfileReconciliation {
        ProfileReconciliation {
            clear_base_model: profile.base_model is Some && self.base_recognized(profile) && self.usable_base(
                profile,
                keys,
            ) is None,
            clear_context_window_limit: profile.context_window_limit is Some && self.base_recognized(profile) && !(
            self.usable_base(profile, keys) matches Some(i) && i.context_window.is_configurable),
            clear_coding_model: self.stale_choice(self.models_by_feature.coding, profile.coding_model, keys),
            clear_cli_agent_model: self.stale_choice(self.cli_available(), profile.cli_agent_model, keys),
            clear_computer_use_model: match profile.computer_use_model {
                Some(id) => usable_lookup(self.computer_use_available().choices_spec(), id@, keys) is None,
                None => false,
            },
        }
    }

    fn base_flags(&self, profile: &AIExecutionProfile, keys: &ApiKeyPresence) -> (r: (bool, bool))
        ensures
            r.0 == (profile.base_model is Some && self.base_recognized(*profile) && self.usable_base(*profile, *keys) is None),
            r.1 == (profile.context_window_limit is Some && self.base_recognized(*profile) && !(self.usable_base(
                *profile,
                *keys,
            ) matches Some(i) && i.context_window.is_configurable)),
    {
        let agent = &self.models_by_feature.agent_mode;
        let effective: &str = match &profile.base_model {
            Some(b) => b.as_str(),
            None => agent.default_id(),
        };
        let recognized = profile.base_model.is_none() || self.recognizes_id(agent, effective);
        let usable = self.usable_choice_for(agent, effective, keys);
        let configurable = match usable {
            Some(i) => i.context_window.is_configurable,
            None => false,
        };
        (
            profile.base_model.is_some() && recognized && usable.is_none(),
            profile.context_window_limit.is_some() && recognized && !configurable,
        )
    }

    fn stale_choice_flag(&self, available: &AvailableLLMs, choice: &Option<String>, keys: &ApiKeyPresence) -> (r: bool)
        ensures
            r == self.stale_choice(*available, *choice, *keys),
    {
        match choice {
            Some(id) => self.recognizes_id(available, id.as_str()) && self.usable_choice_for(
                available,
                id.as_str(),
                keys,
            ).is_none(),
            None => false,
        }
    }

    fn usable_choice_for<'a>(&'a self, available: &'a AvailableLLMs, id: &str, keys: &ApiKeyPresence) -> (r: Option<
        &'a LLMInfo,
    >)
        ensures
            deref_opt(r) == self.usable_choice(*available, id@, *keys),
    {
        match available.usable_info_for_id(id, keys) {
            Some(x) => Some(x),
            None => self.custom_llm_info_for_id(id),
        }
    }

    fn recognizes_id(&self, available: &AvailableLLMs, id: &str) -> (r: bool)
        ensures
            r == self.recognizes(*available, id@),
    {
        available.info_for_id(id).is_some() || self.custom_llm_info_for_id(id).is_some()
    }

    /// Clears from `profile` the model choices and context-window limit that the catalogue
    /// no longer supports; see [`LLMPreferences::reconciliation`]. Returns what was cleared.
    pub fn reconcile_disabled_model_preferences(&self, profile: &mut AIExecutionProfile, keys: &ApiKeyPresence) -> (r:
        ProfileReconciliation)
        ensures
            r == self.reconciliation(*old(profile), *keys),
            *final(profile) == apply_reconciliation(*old(profile), r),
    {
        let (clear_base_model, clear_context_window_limit) = self.base_flags(profile, keys);
        let clear_coding_model = self.stale_choice_flag(&self.models_by_feature.coding, &profile.coding_model, keys);
        let clear_cli_agent_model = self.stale_choice_flag(self.get_cli_agent_available(), &profile.cli_agent_model, keys);
        let computer_use = self.get_computer_use_available();
        let clear_computer_use_model = match &profile.computer_use_model {
            Some(id) => computer_use.usable_info_for_id(id.as_str(), keys).is_none(),
            None => false,
        };
        if clear_base_model {
            profile.base_model = None;
        }
        if clear_context_window_limit {
            profile.context_window_limit = None;
        }
        if clear_coding_model {
            profile.coding_model = None;
        }
        if clear_cli_agent_model {
            profile.cli_agent_model = None;
        }
        if clear_computer_use_model {
            profile.computer_use_model = None;
        }
        ProfileReconciliation {
            clear_base_model,
            clear_context_window_limit,
            clear_coding_model,
            clear_cli_agent_model,
            clear_computer_use_model,
        }
    }

    /// Drops the override of a terminal view, so that its profile's model applies. Returns
    /// whether it had one.
    pub fn remove_llm_override(&mut self, terminal_view_id: u64) -> (changed: bool)
        ensures
            final(self).same_catalogue(old(self)),
            final(self).overrides_view() == old(self).overrides_view().remove(terminal_view_id),
            changed == old(self).overrides_view().contains_key(terminal_view_id),
    {
        broadcast use vstd::std_specs::hash::group_hash_axioms;

        let ghost before = self.base_llm_for_terminal_view@;
        let removed = self.base_llm_for_terminal_view.remove(&terminal_view_id);
        proof {
            assert(self.base_llm_for_terminal_view@.map_values(|s: String| s@) =~= before.map_values(|s: String| s@).remove(
                terminal_view_id,
            ));
        }
        removed.is_some()
    }

    /// The override of a terminal view as JSON text, if it has one.
    pub fn get_base_llm_override(&self, terminal_view_id: u64) -> (r: Option<String>)
        ensures
            match self.override_spec(Some(terminal_view_id)) {
                Some(id) => r matches Some(t) && t@ == json_string_text(id),
                None => r is None,
            },
    {
        match self.agent_mode_override(Some(terminal_view_id)) {
            Some(id) => json_string(id),
            None => None,
        }
    }

    /// Whether the agent-mode model for a request reads images.
    pub fn vision_supported(
        &self,
        keys: &ApiKeyPresence,
        terminal_view_id: Option<u64>,
        last_used: &str,
        profile_base_model: Option<&str>,
    ) -> (r: bool)
        ensures
            r == self.preferred_base(
                *keys,
                self.override_spec(terminal_view_id),
                last_used@,
                opt_str_view(profile_base_model),
            ).vision_supported,
    {
        self.get_active_base_model(keys, terminal_view_id, last_used, profile_base_model).vision_supported
    }

    /// The picker sets the coding model of `profile`: none when it is the coding default,
    /// else the model. Returns whether the profile changed.
    pub fn update_preferred_coding_llm(&self, preferred_llm_id: &str, profile: &mut AIExecutionProfile) -> (changed:
        bool)
        ensures
            opt_string_view(final(profile).coding_model) == if preferred_llm_id@
                == self.models_by_feature.coding.default_id_spec() {
                None
            } else {
                Some(preferred_llm_id@)
            },
            changed == (opt_string_view(old(profile).coding_model) != opt_string_view(final(profile).coding_model)),
            *final(profile) == (AIExecutionProfile { coding_model: final(profile).coding_model, ..*old(profile) }),
    {
        let is_default = str_eq(preferred_llm_id, self.models_by_feature.coding.default_id());
        let same = match &profile.coding_model {
            Some(current) => !is_default && str_eq(current.as_str(), preferred_llm_id),
            None => is_default,
        };
        if same {
            return false;
        }
        profile.coding_model = if is_default {
            None
        } else {
            Some(String::from_str(preferred_llm_id))
        };
        true
    }

    /// The title model when the profile names none: the agent-mode model for a request.
    pub fn get_default_title_model(
        &self,
        keys: &ApiKeyPresence,
        terminal_view_id: Option<u64>,
        last_used: &str,
        profile_base_model: Option<&str>,
    ) -> (r: &LLMInfo)
        ensures
            *r == self.preferred_base(
                *keys,
                self.override_spec(terminal_view_id),
                last_used@,
                opt_str_view(profile_base_model),
            ),
    {
        self.get_active_base_model(keys, terminal_view_id, last_used, profile_base_model)
    }

    /// The proactive-suggestion model when the profile names none: the agent-mode model for
    /// a request.
    pub fn get_default_active_ai_model(
        &self,
        keys: &ApiKeyPresence,
        terminal_view_id: Option<u64>,
        last_used: &str,
        profile_base_model: Option<&str>,
    ) -> (r: &LLMInfo)
        ensures
            *r == self.preferred_base(
                *keys,
                self.override_spec(terminal_view_id),
                last_used@,
                opt_str_view(profile_base_model),
            ),
    {
        self.get_active_base_model(keys, terminal_view_id, last_used, profile_base_model)
    }

    /// The next-command model when the profile names none: the agent-mode model for a
    /// request.
    pub fn get_default_next_command_model(
        &self,
        keys: &ApiKeyPresence,
        terminal_view_id: Option<u64>,
        last_used: &str,
        profile_base_model: Option<&str>,
    ) -> (r: &LLMInfo)
        ensures
            *r == self.preferred_base(
                *keys,
                self.override_spec(terminal_view_id),
                last_used@,
                opt_str_view(profile_base_model),
            ),
    {
        self.get_active_base_model(keys, terminal_view_id, last_used, profile_base_model)
    }

    /// The CLI agent's model when none was chosen; see [`LLMPreferences::fallback`].
    pub fn get_default_cli_agent_model(&self, keys: &ApiKeyPresence) -> (r: &LLMInfo)
        ensures
            *r == self.fallback(self.cli_available(), *keys),
    {
        self.fallback_llm_info(self.get_cli_agent_available(), keys)
    }

    /// The computer-use models, in order.
    pub fn get_computer_use_llm_choices(&self) -> (r: &Vec<LLMInfo>)
        ensures
            r@ == self.computer_use_available().choices_spec(),
    {
        self.get_computer_use_available().choices()
    }

    /// Whether the agent-mode models list this id.
    pub fn is_available_agent_mode_llm(&self, id: &str) -> (r: bool)
        ensures
            r == (lookup(self.models_by_feature.agent_mode.choices_spec(), id@) is Some),
    {
        self.models_by_feature.agent_mode.info_for_id(id).is_some()
    }

    /// The agent-mode model that a terminal agent names by id: that model when the agent-mode
    /// models list it, else their default.
    pub fn tui_agent_model_info(&self, id: &str) -> (r: &LLMInfo)
        ensures
            *r == match lookup(self.models_by_feature.agent_mode.choices_spec(), id@) {
                Some(m) => m,
                None => default_info(
                    self.models_by_feature.agent_mode.choices_spec(),
                    self.models_by_feature.agent_mode.default_id_spec(),
                ),
            },
    {
        match self.models_by_feature.agent_mode.info_for_id(id) {
            Some(m) => m,
            None => self.models_by_feature.agent_mode.default_llm_info(),
        }
    }

    /// Whether a model is shown with the key mark: its key is the user's own; see
    /// [`LLMPreferences::byo_key_source_for_model`].
    pub fn should_show_key_icon_for_model(&self, llm: &LLMInfo, keys: &ApiKeyPresence) -> (r: bool)
        ensures
            r == (self.custom_lookup(llm.id@) is Some || has_key_spec(llm.provider, *keys)),
    {
        self.byo_key_source_for_model(llm, keys).is_some()
    }

    /// The custom-endpoint models, in order.
    pub fn custom_llm_choices(&self) -> (r: &Vec<LLMInfo>)
        ensures
            r@ == self.custom_llms@,
    {
        &self.custom_llms
    }

    /// Rebuilds the custom-endpoint models from the user's endpoints; see
    /// [`build_custom_llm_infos`].
    pub fn rebuild_custom_llms(&mut self, endpoints: &[CustomEndpoint])
        ensures
            lists_entries(final(self).custom_llms@, custom_entries(endpoints@)),
            final(self).models_by_feature == old(self).models_by_feature,
            final(self).custom_model_routers@ == old(self).custom_model_routers@,
            final(self).custom_routers_enabled == old(self).custom_routers_enabled,
            final(self).default_computer_use == old(self).default_computer_use,
            final(self).overrides_view() == old(self).overrides_view(),
    {
        self.custom_llms = build_custom_llm_infos(endpoints);
    }

    /// A custom-endpoint model by id; see [`LLMPreferences::custom_lookup`].
    pub fn custom_llm_info_for_id(&self, id: &str) -> (r: Option<&LLMInfo>)
        ensures
            deref_opt(r) == self.custom_lookup(id@),
    {
        find_by_id(&self.custom_llms, id)
    }

    /// A custom model router's entry by id, whether or not routers are on.
    pub fn custom_model_router_for_id(&self, id: &str) -> (r: Option<&LLMInfo>)
        ensures
            deref_opt(r) == lookup(self.custom_model_routers@, id@),
    {
        find_by_id(&self.custom_model_routers, id)
    }

    fn custom_router_llm_info_for_id_if_enabled(&self, id: &str) -> (r: Option<&LLMInfo>)
        ensures
            deref_opt(r) == self.router_lookup(id@),
    {
        if self.custom_routers_enabled {
            find_by_id(&self.custom_model_routers, id)
        } else {
            None
        }
    }

    /// A model by id for a feature; see [`LLMPreferences::model_lookup`].
    pub fn model_info_for_id<'a>(&'a self, available: &'a AvailableLLMs, id: &str) -> (r: Option<&'a LLMInfo>)
        ensures
            deref_opt(r) == self.model_lookup(*available, id@),
    {
        match available.info_for_id(id) {
            Some(x) => Some(x),
            None => match self.custom_llm_info_for_id(id) {
                Some(x) => Some(x),
                None => self.custom_router_llm_info_for_id_if_enabled(id),
            },
        }
    }

    /// The fallback model for a feature; see [`LLMPreferences::fallback`].
    pub fn fallback_llm_info<'a>(&'a self, available: &'a AvailableLLMs, keys: &ApiKeyPresence) -> (r: &'a LLMInfo)
        ensures
            *r == self.fallback(*available, *keys),
    {
        match available.usable_default_llm_info(keys) {
            Some(x) => x,
            None => {
                if self.custom_llms.len() > 0 {
                    &self.custom_llms[0]
                } else {
                    available.default_llm_info()
                }
            },
        }
    }

    /// The agent-mode model of the active profile; see [`LLMPreferences::profile_base`].
    pub fn get_active_profile_base_model(&self, keys: &ApiKeyPresence, profile_base_model: Option<&str>) -> (r:
        &LLMInfo)
        ensures
            *r == self.profile_base(*keys, opt_str_view(profile_base_model)),
    {
        match profile_base_model {
            Some(id) => match self.model_info_for_id(&self.models_by_feature.agent_mode, id) {
                Some(x) => x,
                None => self.fallback_llm_info(&self.models_by_feature.agent_mode, keys),
            },
            None => self.fallback_llm_info(&self.models_by_feature.agent_mode, keys),
        }
    }

    /// The override of a terminal view, if it has one.
    pub fn agent_mode_override(&self, terminal_view_id: Option<u64>) -> (r: Option<&str>)
        ensures
            opt_str_view(r) == self.override_spec(terminal_view_id),
    {
        broadcast use vstd::std_specs::hash::group_hash_axioms;

        match terminal_view_id {
            Some(v) => match self.base_llm_for_terminal_view.get(&v) {
                Some(s) => Some(s.as_str()),
                None => None,
            },
            None => None,
        }
    }

    /// The agent-mode model for a request from a terminal view; see
    /// [`LLMPreferences::preferred_base`]. `last_used` is the model last picked in any picker
    /// (empty when none was).
    pub fn get_active_base_model(
        &self,
        keys: &ApiKeyPresence,
        terminal_view_id: Option<u64>,
        last_used: &str,
        profile_base_model: Option<&str>,
    ) -> (r: &LLMInfo)
        ensures
            *r == self.preferred_base(
                *keys,
                self.override_spec(terminal_view_id),
                last_used@,
                opt_str_view(profile_base_model),
            ),
    {
        if let Some(id) = self.agent_mode_override(terminal_view_id) {
            if let Some(x) = self.model_info_for_id(&self.models_by_feature.agent_mode, id) {
                return x;
            }
        }
        if last_used.unicode_len() > 0 {
            match self.models_by_feature.agent_mode.info_for_id(last_used) {
                Some(x) => {
                    return x;
                },
                None => {
                    if let Some(x) = self.custom_llm_info_for_id(last_used) {
                        return x;
                    }
                },
            }
        }
        self.get_active_profile_base_model(keys, profile_base_model)
    }

    /// The model of a feature that may name its own: that model when listed among the
    /// agent-mode models, else the agent-mode model for a request.
    pub open spec fn feature_model(
        &self,
        keys: ApiKeyPresence,
        feature_model: Option<Seq<char>>,
        terminal_view_id: Option<u64>,
        last_used: Seq<char>,
        profile_base_model: Option<Seq<char>>,
    ) -> LLMInfo {
        match feature_model {
            Some(id) => match lookup(self.models_by_feature.agent_mode.choices_spec(), id) {
                Some(x) => x,
                None => self.preferred_base(keys, self.override_spec(terminal_view_id), last_used, profile_base_model),
            },
            None => self.preferred_base(keys, self.override_spec(terminal_view_id), last_used, profile_base_model),
        }
    }

    /// The model that titles conversations: the profile's title model when listed, else the
    /// agent-mode model.
    pub fn get_active_title_model(
        &self,
        keys: &ApiKeyPresence,
        profile: &AIExecutionProfile,
        terminal_view_id: Option<u64>,
        last_used: &str,
    ) -> (r: &LLMInfo)
        ensures
            *r == self.feature_model(
                *keys,
                opt_string_view(profile.title_model),
                terminal_view_id,
                last_used@,
                opt_string_view(profile.base_model),
            ),
    {
        self.get_active_feature_model(
            keys,
            opt_as_str(&profile.title_model),
            terminal_view_id,
            last_used,
            opt_as_str(&profile.base_model),
        )
    }

    /// The model of proactive suggestions: the profile's when listed, else the agent-mode
    /// model.
    pub fn get_active_ai_model(
        &self,
        keys: &ApiKeyPresence,
        profile: &AIExecutionProfile,
        terminal_view_id: Option<u64>,
        last_used: &str,
    ) -> (r: &LLMInfo)
        ensures
            *r == self.feature_model(
                *keys,
                opt_string_view(profile.active_ai_model),
                terminal_view_id,
                last_used@,
                opt_string_view(profile.base_model),
            ),
    {
        self.get_active_feature_model(
            keys,
            opt_as_str(&profile.active_ai_model),
            terminal_view_id,
            last_used,
            opt_as_str(&profile.base_model),
        )
    }

    /// The model of next-command suggestions: the profile's when listed, else the
    /// agent-mode model.
    pub fn get_active_next_command_model(
        &self,
        keys: &ApiKeyPresence,
        profile: &AIExecutionProfile,
        terminal_view_id: Option<u64>,
        last_used: &str,
    ) -> (r: &LLMInfo)
        ensures
            *r == self.feature_model(
                *keys,
                opt_string_view(profile.next_command_model),
                terminal_view_id,
                last_used@,
                opt_string_view(profile.base_model),
            ),
    {
        self.get_active_feature_model(
            keys,
            opt_as_str(&profile.next_command_model),
            terminal_view_id,
            last_used,
            opt_as_str(&profile.base_model),
        )
    }

    /// The custom routers offered in the picker: all of them when routers are on, else none.
    pub fn custom_router_choices(&self) -> (r: Vec<&LLMInfo>)
        ensures
            derefs(r@) == if self.custom_routers_enabled {
                self.custom_model_routers@
            } else {
                Seq::empty()
            },
    {
        let mut out: Vec<&LLMInfo> = Vec::new();
        if self.custom_routers_enabled {
            push_all(&mut out, &self.custom_model_routers);
        }
        proof {
            assert(derefs(Seq::<&LLMInfo>::empty()) =~= Seq::<LLMInfo>::empty());
        }
        out
    }

    /// A feature that may name its own agent-mode model (title generation, proactive AI,
    /// next-command suggestions): that model when listed among the agent-mode models, else
    /// the agent-mode model for a request.
    pub fn get_active_feature_model(
        &self,
        keys: &ApiKeyPresence,
        feature_model: Option<&str>,
        terminal_view_id: Option<u64>,
        last_used: &str,
        profile_base_model: Option<&str>,
    ) -> (r: &LLMInfo)
        ensures
            *r == self.feature_model(
                *keys,
                opt_str_view(feature_model),
                terminal_view_id,
                last_used@,
                opt_str_view(profile_base_model),
            ),
    {
        if let Some(id) = feature_model {
            if let Some(x) = self.models_by_feature.agent_mode.info_for_id(id) {
                return x;
            }
        }
        self.get_active_base_model(keys, terminal_view_id, last_used, profile_base_model)
    }

    /// The coding model: the profile's, when the catalogue has it, else the coding fallback.
    pub fn get_active_coding_model(&self, keys: &ApiKeyPresence, profile_coding_model: Option<&str>) -> (r:
        &LLMInfo)
        ensures
            *r == match opt_str_view(profile_coding_model) {
                Some(id) => match self.model_lookup(self.models_by_feature.coding, id) {
                    Some(x) => x,
                    None => self.fallback(self.models_by_feature.coding, *keys),
                },
                None => self.fallback(self.models_by_feature.coding, *keys),
            },
    {
        if let Some(id) = profile_coding_model {
            if let Some(x) = self.model_info_for_id(&self.models_by_feature.coding, id) {
                return x;
            }
        }
        self.fallback_llm_info(&self.models_by_feature.coding, keys)
    }

    /// The models of the CLI agent: its own, else the agent-mode models.
    pub fn get_cli_agent_available(&self) -> (r: &AvailableLLMs)
        ensures
            *r == match self.models_by_feature.cli_agent {
                Some(a) => a,
                None => self.models_by_feature.agent_mode,
            },
    {
        match &self.models_by_feature.cli_agent {
            Some(a) => a,
            None => &self.models_by_feature.agent_mode,
        }
    }

    /// The CLI agent's model: the profile's, when the CLI models or the custom-endpoint
    /// models have it, else the CLI fallback.
    pub fn get_active_cli_agent_model(&self, keys: &ApiKeyPresence, profile_cli_model: Option<&str>) -> (r:
        &LLMInfo)
        ensures
            ({
                let available = match self.models_by_feature.cli_agent {
                    Some(a) => a,
                    None => self.models_by_feature.agent_mode,
                };
                *r == match opt_str_view(profile_cli_model) {
                    Some(id) => match or_else(lookup(available.choices_spec(), id), self.custom_lookup(id)) {
                        Some(x) => x,
                        None => self.fallback(available, *keys),
                    },
                    None => self.fallback(available, *keys),
                }
            }),
    {
        let available = self.get_cli_agent_available();
        if let Some(id) = profile_cli_model {
            match available.info_for_id(id) {
                Some(x) => {
                    return x;
                },
                None => {
                    if let Some(x) = self.custom_llm_info_for_id(id) {
                        return x;
                    }
                },
            }
        }
        self.fallback_llm_info(available, keys)
    }

    /// The models of the computer-use agent: the server's, else the built-in default.
    pub fn get_computer_use_available(&self) -> (r: &AvailableLLMs)
        ensures
            *r == match self.models_by_feature.computer_use {
                Some(a) => a,
                None => self.default_computer_use,
            },
    {
        match &self.models_by_feature.computer_use {
            Some(a) => a,
            None => &self.default_computer_use,
        }
    }

    /// The default computer-use model: the usable default, else the default anyway (custom
    /// endpoints are not offered for computer use).
    pub fn get_default_computer_use_model(&self, keys: &ApiKeyPresence) -> (r: &LLMInfo)
        ensures
            ({
                let available = match self.models_by_feature.computer_use {
                    Some(a) => a,
                    None => self.default_computer_use,
                };
                *r == match usable_default(available.choices_spec(), available.default_id_spec(), *keys) {
                    Some(x) => x,
                    None => default_info(available.choices_spec(), available.default_id_spec()),
                }
            }),
    {
        let available = self.get_computer_use_available();
        match available.usable_default_llm_info(keys) {
            Some(x) => x,
            None => available.default_llm_info(),
        }
    }

    /// The computer-use model: the profile's, when listed, else the default computer-use
    /// model.
    pub fn get_active_computer_use_model(&self, keys: &ApiKeyPresence, profile_model: Option<&str>) -> (r:
        &LLMInfo)
        ensures
            ({
                let available = match self.models_by_feature.computer_use {
                    Some(a) => a,
                    None => self.default_computer_use,
                };
                let default_model = match usable_default(available.choices_spec(), available.default_id_spec(), *keys) {
                    Some(x) => x,
                    None => default_info(available.choices_spec(), available.default_id_spec()),
                };
                *r == match opt_str_view(profile_model) {
                    Some(id) => match lookup(available.choices_spec(), id) {
                        Some(x) => x,
                        None => default_model,
                    },
                    None => default_model,
                }
            }),
    {
        let available = self.get_computer_use_available();
        if let Some(id) = profile_model {
            if let Some(x) = available.info_for_id(id) {
                return x;
            }
        }
        self.get_default_computer_use_model(keys)
    }

    /// The label under which a custom endpoint's usage is shown: its model's display name, or
    /// "Custom endpoint".
    pub fn custom_endpoint_usage_display_label(&self, config_key: &str) -> (r: String)
        ensures
            r@ == match self.custom_lookup(config_key@) {
                Some(x) => x.display_name@,
                None => "Custom endpoint"@,
            },
    {
        match self.custom_llm_info_for_id(config_key) {
            Some(x) => x.display_name.clone(),
            None => String::from_str("Custom endpoint"),
        }
    }

    /// Where the key used for a model comes from: the user's own for a custom-endpoint model,
    /// else the user's key for its provider, if any.
    pub fn byo_key_source_for_model(&self, llm: &LLMInfo, keys: &ApiKeyPresence) -> (r: Option<ByoKeySource>)
        ensures
            r == if self.custom_lookup(llm.id@) is Some || has_key_spec(llm.provider, *keys) {
                Some(ByoKeySource::UserProvided)
            } else {
                None
            },
    {
        if self.custom_llm_info_for_id(llm.id.as_str()).is_some() {
            return Some(ByoKeySource::UserProvided);
        }
        first_party_key_source_for_provider(&llm.provider, keys)
    }
}

/// A custom model router as its configuration file defines it.
#[derive(Debug, Clone, PartialEq, Eq)]
pub struct CustomModelRouter {
    /// The router's entry in the catalogue.
    pub info: LLMInfo,
    /// The key that identifies the router's configuration.
    pub config_key: String,
    /// The ids of the models the router may route to.
    pub targets: Vec<String>,
    /// The name of the file that defines the router, if it came from one.
    pub source_file_name: Option<String>,
    /// The path of that file (empty when there is none).
    pub source_path: String,
}

/// A problem with a model configuration file, to be reported to the user.
#[derive(Debug, Clone, PartialEq, Eq)]
pub struct ModelConfigError {
    pub file_name: String,
    pub file_path: String,
    pub error_message: String,
}

/// No router before index `i` has the configuration key of router `i`.
pub open spec fn is_first_key(routers: Seq<CustomModelRouter>, i: int) -> bool {
    forall|j: int| 0 <= j < i ==> (#[trigger] routers[j]).config_key@ != routers[i].config_key@
}

/// Some strings joined with ", ".
pub open spec fn join_comma(parts: Seq<Seq<char>>) -> Seq<char>
    decreases parts.len(),
{
    if parts.len() == 0 {
        Seq::empty()
    } else if parts.len() == 1 {
        parts[0]
    } else {
        join_comma(parts.drop_last()) + ", "@ + parts.last()
    }
}

/// The name under which a router's problems are reported: its file's name, else its display
/// name.
pub open spec fn router_file_name(r: CustomModelRouter) -> Seq<char> {
    match r.source_file_name {
        Some(n) => n@,
        None => r.info.display_name@,
    }
}

impl LLMPreferences {
    /// The targets, in order, that the catalogue does not have.
    pub open spec fn missing_targets(&self, targets: Seq<String>) -> Seq<Seq<char>>
        decreases targets.len(),
    {
        if targets.len() == 0 {
            Seq::empty()
        } else {
            let rest = self.missing_targets(targets.drop_last());
            if self.any_lookup(targets.last()@) is None {
                rest.push(targets.last()@)
            } else {
                rest
            }
        }
    }

    /// Every target is in the catalogue and supports images.
    pub open spec fn targets_see(&self, targets: Seq<String>) -> bool {
        forall|i: int| 0 <= i < targets.len() ==> (self.any_lookup((#[trigger] targets[i])@) matches Some(x)
            && x.vision_supported)
    }

    /// The routers kept from `routers`: the first of each configuration key whose targets are
    /// all in the catalogue, each supporting images when all its targets do.
    pub open spec fn kept_routers(&self, routers: Seq<CustomModelRouter>) -> Seq<LLMInfo>
        decreases routers.len(),
    {
        if routers.len() == 0 {
            Seq::empty()
        } else {
            let rest = self.kept_routers(routers.drop_last());
            let r = routers.last();
            if is_first_key(routers, routers.len() - 1) && self.missing_targets(r.targets@).len() == 0 {
                rest.push(LLMInfo { vision_supported: self.targets_see(r.targets@), ..r.info })
            } else {
                rest
            }
        }
    }

    /// The problems reported for `routers`: for the first of each configuration key with
    /// targets that the catalogue lacks, its file and the list of those targets.
    pub open spec fn router_errors(&self, routers: Seq<CustomModelRouter>) -> Seq<(Seq<char>, Seq<char>, Seq<char>)>
        decreases routers.len(),
    {
        if routers.len() == 0 {
            Seq::empty()
        } else {
            let rest = self.router_errors(routers.drop_last());
            let r = routers.last();
            let missing = self.missing_targets(r.targets@);
            if is_first_key(routers, routers.len() - 1) && missing.len() > 0 {
                rest.push(
                    (router_file_name(r), r.source_path@, "unknown target model(s): "@ + join_comma(missing)),
                )
            } else {
                rest
            }
        }
    }

    fn check_targets(&self, targets: &Vec<String>) -> (r: (Vec<String>, bool))
        ensures
            names_of(r.0@) == self.missing_targets(targets@),
            r.1 == self.targets_see(targets@),
    {
        let mut missing: Vec<String> = Vec::new();
        let mut sees = true;
        let mut i: usize = 0;
        while i < targets.len()
            invariant
                i <= targets@.len(),
                names_of(missing@) == self.missing_targets(targets@.take(i as int)),
                sees == self.targets_see(targets@.take(i as int)),
            decreases targets@.len() - i,
        {
            proof {
                assert(targets@.take(i + 1).drop_last() =~= targets@.take(i as int));
            }
            let t = &targets[i];
            match self.get_llm_info(t.as_str()) {
                Some(x) => {
                    if !x.vision_supported {
                        sees = false;
                    }
                },
                None => {
                    missing.push(t.clone());
                    sees = false;
                    proof {
                        assert(names_of(missing@) =~= self.missing_targets(targets@.take(i as int)).push(t@));
                    }
                },
            }
            proof {
                let prev = targets@.take(i as int);
                let next = targets@.take(i + 1);
                assert(next.last() == *t);
                if sees {
                    assert forall|k: int| 0 <= k < next.len() implies (self.any_lookup((#[trigger] next[k])@) matches Some(
                        x,
                    ) && x.vision_supported) by {
                        if k < prev.len() {
                            assert(next[k] == prev[k]);
                        }
                    }
                } else {
                    if self.targets_see(next) {
                        if !self.targets_see(prev) {
                            let k = choose|k: int| 0 <= k < prev.len() && !(self.any_lookup((#[trigger] prev[k])@) matches Some(
                                x,
                            ) && x.vision_supported);
                            assert(next[k] == prev[k]);
                        }
                        assert(self.any_lookup(next[i as int]@) matches Some(x) && x.vision_supported);
                    }
                }
            }
            i = i + 1;
        }
        proof {
            assert(targets@.take(targets@.len() as int) =~= targets@);
        }
        (missing, sees)
    }

    /// Rebuilds the custom routers from their definitions: keeps the first definition of each
    /// configuration key whose targets are all in the catalogue (a router supports images when
    /// all its targets do), and returns the problems to report for the others. The catalogue
    /// is the one before the rebuild.
    pub fn rebuild_custom_model_routers(&mut self, routers: Vec<CustomModelRouter>) -> (errors: Vec<ModelConfigError>)
        ensures
            final(self).custom_model_routers@ == old(self).kept_routers(routers@),
            errors@.len() == old(self).router_errors(routers@).len(),
            forall|i: int| 0 <= i < errors@.len() ==> {
                let e = old(self).router_errors(routers@)[i];
                &&& (#[trigger] errors@[i]).file_name@ == e.0
                &&& errors@[i].file_path@ == e.1
                &&& errors@[i].error_message@ == e.2
            },
            final(self).models_by_feature == old(self).models_by_feature,
            final(self).custom_llms@ == old(self).custom_llms@,
            final(self).custom_routers_enabled == old(self).custom_routers_enabled,
            final(self).overrides_view() == old(self).overrides_view(),
    {
        let ghost all = routers@;
        let mut rest = routers;
        let mut seen: Vec<String> = Vec::new();
        let mut kept: Vec<LLMInfo> = Vec::new();
        let mut errors: Vec<ModelConfigError> = Vec::new();
        let n = rest.len();
        let mut k: usize = 0;
        while k < n
            invariant
                n == all.len(),
                k <= n,
                rest@ == all.skip(k as int),
                forall|j: int| 0 <= j < k ==> names_of(seen@).contains((#[trigger] all[j]).config_key@),
                forall|m: int| 0 <= m < seen@.len() ==> exists|j: int| 0 <= j < k && (#[trigger] seen@[m])@ == (#[trigger] all[j]).config_key@,
                kept@ == self.kept_routers(all.take(k as int)),
                errors@.len() == self.router_errors(all.take(k as int)).len(),
                forall|i: int| 0 <= i < errors@.len() ==> {
                    let e = self.router_errors(all.take(k as int))[i];
                    &&& (#[trigger] errors@[i]).file_name@ == e.0
                    &&& errors@[i].file_path@ == e.1
                    &&& errors@[i].error_message@ == e.2
                },
            decreases n - k,
        {
            let r = rest.remove(0);
            let ghost pre = all.take(k as int);
            let ghost post = all.take(k + 1);
            proof {
                assert(r == all[k as int]);
                assert(rest@ =~= all.skip(k + 1));
                assert(post.drop_last() =~= pre);
                assert(post.last() == r);
            }
            let first = !crate::execution_profiles::contains_string(&seen, r.config_key.as_str());
            proof {
                if first {
                    assert forall|j: int| 0 <= j < k implies (#[trigger] post[j]).config_key@ != post[k as int].config_key@ by {
                        assert(post[j] == all[j]);
                        assert(names_of(seen@).contains(all[j].config_key@));
                    }
                    assert(is_first_key(post, k as int));
                } else {
                    let m = choose|m: int| 0 <= m < names_of(seen@).len() && names_of(seen@)[m] == r.config_key@;
                    assert(seen@[m]@ == r.config_key@);
                    let j = choose|j: int| 0 <= j < k && (#[trigger] seen@[m])@ == (#[trigger] all[j]).config_key@;
                    assert(post[j] == all[j]);
                    assert(!is_first_key(post, k as int));
                }
            }
            let ghost seen_before = seen@;
            seen.push(r.config_key.clone());
            proof {
                assert forall|j: int| 0 <= j < k + 1 implies names_of(seen@).contains((#[trigger] all[j]).config_key@) by {
                    if j < k {
                        let m = choose|m: int| 0 <= m < names_of(seen_before).len() && names_of(seen_before)[m] == all[j].config_key@;
                        assert(names_of(seen@)[m] == all[j].config_key@);
                    } else {
                        assert(names_of(seen@)[seen@.len() - 1] == all[j].config_key@);
                    }
                }
                assert forall|m: int| 0 <= m < seen@.len() implies exists|j: int| 0 <= j < k + 1 && (#[trigger] seen@[m])@ == (#[trigger] all[j]).config_key@ by {
                    if m < seen_before.len() {
                        assert(seen@[m] == seen_before[m]);
                    } else {
                        assert(seen@[m]@ == all[k as int].config_key@);
                    }
                }
            }
            if first {
                let (missing, sees) = self.check_targets(&r.targets);
                if missing.len() == 0 {
                    let CustomModelRouter { info, config_key: _, targets: _, source_file_name: _, source_path: _ } = r;
                    let mut info = info;
                    info.vision_supported = sees;
                    kept.push(info);
                } else {
                    let file_name = match &r.source_file_name {
                        Some(f) => f.clone(),
                        None => r.info.display_name.clone(),
                    };
                    let mut message = String::from_str("unknown target model(s): ");
                    let mut t: usize = 0;
                    proof {
                        assert(names_of(missing@).take(0) =~= Seq::<Seq<char>>::empty());
                        reveal_strlit("unknown target model(s): ");
                    }
                    while t < missing.len()
                        invariant
                            t <= missing@.len(),
                            message@ == "unknown target model(s): "@ + join_comma(names_of(missing@).take(t as int)),
                        decreases missing@.len() - t,
                    {
                        let ghost before = message@;
                        if t > 0 {
                            message.append(", ");
                        }
                        message.append(missing[t].as_str());
                        proof {
                            let parts = names_of(missing@).take(t + 1);
                            assert(parts.drop_last() =~= names_of(missing@).take(t as int));
                            assert(parts.last() == missing@[t as int]@);
                            if t == 0 {
                                assert(join_comma(names_of(missing@).take(0)) =~= Seq::<char>::empty());
                                assert(message@ =~= "unknown target model(s): "@ + join_comma(parts));
                            } else {
                                assert(message@ =~= "unknown target model(s): "@ + join_comma(parts));
                            }
                        }
                        t = t + 1;
                    }
                    proof {
                        assert(names_of(missing@).take(missing@.len() as int) =~= names_of(missing@));
                    }
                    errors.push(ModelConfigError { file_name, file_path: r.source_path.clone(), error_message: message });
                }
            }
            proof {
                assert(kept@ =~= self.kept_routers(post));
                assert(errors@.len() == self.router_errors(post).len());
            }
            k = k + 1;
        }
        proof {
            assert(all.take(n as int) =~= all);
        }
        self.custom_model_routers = kept;
        errors
    }
}

/// What reconciling a profile with the catalogue clears.
#[derive(Debug, Clone, Copy, PartialEq, Eq, Structural)]
pub struct ProfileReconciliation {
    pub clear_base_model: bool,
    pub clear_context_window_limit: bool,
    pub clear_coding_model: bool,
    pub clear_cli_agent_model: bool,
    pub clear_computer_use_model: bool,
}

/// `profile` with what `r` clears set to none.
pub open spec fn apply_reconciliation(profile: AIExecutionProfile, r: ProfileReconciliation) -> AIExecutionProfile {
    AIExecutionProfile {
        base_model: if r.clear_base_model {
            None
        } else {
            profile.base_model
        },
        context_window_limit: if r.clear_context_window_limit {
            None
        } else {
            profile.context_window_limit
        },
        coding_model: if r.clear_coding_model {
            None
        } else {
            profile.coding_model
        },
        cli_agent_model: if r.clear_cli_agent_model {
            None
        } else {
            profile.cli_agent_model
        },
        computer_use_model: if r.clear_computer_use_model {
            None
        } else {
            profile.computer_use_model
        },
        ..profile
    }
}

/// A hexadecimal digit, lower case.
pub open spec fn hex_digit(d: int) -> char {
    if d < 10 {
        (('0' as int) + d) as char
    } else {
        (('a' as int) + d - 10) as char
    }
}

/// How a character stands in a JSON string: quote and backslash behind a backslash, the
/// usual short escapes for backspace, tab, line feed, form feed and carriage return, other
/// control characters (below 0x20) as `\u00` and two hex digits, anything else as itself.
pub open spec fn json_char_escape(c: char) -> Seq<char> {
    if c == '"' {
        seq!['\\', '"']
    } else if c == '\\' {
        seq!['\\', '\\']
    } else if c == '\u{8}' {
        seq!['\\', 'b']
    } else if c == '\t' {
        seq!['\\', 't']
    } else if c == '\n' {
        seq!['\\', 'n']
    } else if c == '\u{c}' {
        seq!['\\', 'f']
    } else if c == '\r' {
        seq!['\\', 'r']
    } else if (c as int) < 0x20 {
        seq!['\\', 'u', '0', '0', hex_digit((c as int) / 16), hex_digit((c as int) % 16)]
    } else {
        seq![c]
    }
}

/// The characters of a string, each as it stands in a JSON string.
pub open spec fn json_escaped(s: Seq<char>) -> Seq<char>
    decreases s.len(),
{
    if s.len() == 0 {
        Seq::empty()
    } else {
        json_escaped(s.drop_last()) + json_char_escape(s.last())
    }
}

/// The JSON text that `serde_json::to_string` writes for a string: the escaped characters
/// between double quotes.
pub open spec fn json_string_text(s: Seq<char>) -> Seq<char> {
    seq!['"'] + json_escaped(s) + seq!['"']
}

/// Calls `serde_json::to_string` on a string, which writes it as [`json_string_text`] says:
/// `format_escaped_str` puts the escaped characters (its `ESCAPE` table and
/// `write_char_escape`) between double quotes. For a string it always succeeds: the
/// serializer writes the escaped string into a `Vec<u8>`, whose `io::Write` never fails, and
/// that is the only error `serialize_str` can report.
#[verifier::external_body]
fn json_string(s: &str) -> (r: Option<String>)
    ensures
        r is Some,
        r matches Some(t) ==> t@ == json_string_text(s@),
{
    serde_json::to_string(s).ok()
}

/// Whether the popup that announces new models is to be shown.
#[derive(Debug, Clone, Copy, PartialEq, Eq, Structural)]
pub enum PopupVisibility {
    /// Not shown yet; the first view that shows it claims it.
    WaitingToBeShown,
    /// Shown in this view.
    Visible(u64),
    Hidden,
}

/// The popup that announces the models that the last update added.
#[derive(Debug, Clone, Copy, PartialEq, Eq, Structural)]
pub struct NewChoicesPopup {
    pub visibility: PopupVisibility,
}

impl NewChoicesPopup {
    /// The popup of an update: waiting to be shown when models were known before the update,
    /// hidden for the first list of models.
    pub fn for_update(has_existing_persisted_config: bool) -> (r: Self)
        ensures
            r.visibility == if has_existing_persisted_config {
                PopupVisibility::WaitingToBeShown
            } else {
                PopupVisibility::Hidden
            },
    {
        NewChoicesPopup {
            visibility: if has_existing_persisted_config {
                PopupVisibility::WaitingToBeShown
            } else {
                PopupVisibility::Hidden
            },
        }
    }

    /// Whether view `view_id` shows the popup: it is waiting, or shown in that view.
    pub fn should_show_new_choices_popup(&self, view_id: u64) -> (r: bool)
        ensures
            r == (self.visibility == PopupVisibility::WaitingToBeShown || self.visibility == PopupVisibility::Visible(
                view_id,
            )),
    {
        match self.visibility {
            PopupVisibility::WaitingToBeShown => true,
            PopupVisibility::Visible(v) => v == view_id,
            PopupVisibility::Hidden => false,
        }
    }

    /// View `view_id` shows the popup: a waiting popup now belongs to that view.
    pub fn mark_new_choices_popup_as_shown(&mut self, view_id: u64)
        ensures
            *final(self) == shown_in(*old(self), view_id),
    {
        if self.visibility == PopupVisibility::WaitingToBeShown {
            self.visibility = PopupVisibility::Visible(view_id);
        }
    }

    /// View `view_id` closes the popup: hidden for good, when that view may show it.
    pub fn hide_llm_popup(&mut self, view_id: u64)
        ensures
            final(self).visibility == if old(self).should_show_spec(view_id) {
                PopupVisibility::Hidden
            } else {
                old(self).visibility
            },
    {
        if self.should_show_new_choices_popup(view_id) {
            self.visibility = PopupVisibility::Hidden;
        }
    }

    pub open spec fn should_show_spec(&self, view_id: u64) -> bool {
        self.visibility == PopupVisibility::WaitingToBeShown || self.visibility == PopupVisibility::Visible(view_id)
    }
}

/// The popup after view `view_id` showed it; see
/// [`NewChoicesPopup::mark_new_choices_popup_as_shown`].
pub open spec fn shown_in(p: NewChoicesPopup, view_id: u64) -> NewChoicesPopup {
    if p.visibility == PopupVisibility::WaitingToBeShown {
        NewChoicesPopup { visibility: PopupVisibility::Visible(view_id) }
    } else {
        p
    }
}

/// Once a view has shown the popup, at most one view shows it.
pub proof fn lemma_popup_belongs_to_one_view(p: NewChoicesPopup, shown: u64, a: u64, b: u64)
    ensures
        shown_in(p, shown).should_show_spec(a) && shown_in(p, shown).should_show_spec(b) ==> a == b,
{
}

/// The models of `new` whose ids `old` lacks, in order.
pub open spec fn added_choices(old: Seq<LLMInfo>, new: Seq<LLMInfo>) -> Seq<LLMInfo>
    decreases new.len(),
{
    if new.len() == 0 {
        Seq::empty()
    } else {
        let rest = added_choices(old, new.drop_last());
        if lookup(old, new.last().id@) is None {
            rest.push(new.last())
        } else {
            rest
        }
    }
}

/// The agent-mode models that an update added; see [`added_choices`].
pub fn get_new_agent_mode_choices<'a>(old_config: &AvailableLLMs, new_config: &'a AvailableLLMs) -> (r: Vec<
    &'a LLMInfo,
>)
    ensures
        derefs(r@) == added_choices(old_config.choices_spec(), new_config.choices_spec()),
{
    let choices = new_config.choices();
    let mut out: Vec<&LLMInfo> = Vec::new();
    let mut i: usize = 0;
    while i < choices.len()
        invariant
            i <= choices@.len(),
            choices@ == new_config.choices_spec(),
            derefs(out@) == added_choices(old_config.choices_spec(), choices@.take(i as int)),
        decreases choices@.len() - i,
    {
        proof {
            assert(choices@.take(i + 1).drop_last() =~= choices@.take(i as int));
        }
        let info = &choices[i];
        if old_config.info_for_id(info.id.as_str()).is_none() {
            out.push(info);
            proof {
                assert(derefs(out@) =~= added_choices(old_config.choices_spec(), choices@.take(i as int)).push(*info));
            }
        }
        i = i + 1;
    }
    proof {
        assert(choices@.take(choices@.len() as int) =~= choices@);
    }
    out
}

/// The models of `choices` whose display name does not start with "lite", in order.
pub open spec fn announced(choices: Seq<LLMInfo>) -> Seq<LLMInfo>
    decreases choices.len(),
{
    if choices.len() == 0 {
        Seq::empty()
    } else {
        let rest = announced(choices.drop_last());
        let n = choices.last().display_name@;
        if n.len() >= 4 && n.take(4) == "lite"@ {
            rest
        } else {
            rest.push(choices.last())
        }
    }
}

fn starts_with_lite(s: &str) -> (r: bool)
    ensures
        r == (s@.len() >= 4 && s@.take(4) == "lite"@),
{
    proof {
        reveal_strlit("lite");
    }
    if s.unicode_len() < 4 {
        return false;
    }
    let r = s.get_char(0) == 'l' && s.get_char(1) == 'i' && s.get_char(2) == 't' && s.get_char(3) == 'e';
    proof {
        if r {
            assert(s@.take(4) =~= "lite"@);
        } else {
            if s@.take(4) == "lite"@ {
                assert(s@.take(4)[0] == 'l');
                assert(s@.take(4)[1] == 'i');
                assert(s@.take(4)[2] == 't');
                assert(s@.take(4)[3] == 'e');
            }
        }
    }
    r
}

/// The new models worth announcing: those whose name does not start with "lite".
pub fn new_choices_to_announce<'a>(new_choices: &Vec<&'a LLMInfo>) -> (r: Vec<&'a LLMInfo>)
    ensures
        derefs(r@) == announced(derefs(new_choices@)),
{
    let mut out: Vec<&LLMInfo> = Vec::new();
    let mut i: usize = 0;
    while i < new_choices.len()
        invariant
            i <= new_choices@.len(),
            derefs(out@) == announced(derefs(new_choices@.take(i as int))),
        decreases new_choices@.len() - i,
    {
        proof {
            assert(derefs(new_choices@.take(i + 1)).drop_last() =~= derefs(new_choices@.take(i as int)));
            assert(derefs(new_choices@.take(i + 1)).last() == *new_choices@[i as int]);
        }
        let info = new_choices[i];
        if !starts_with_lite(info.display_name.as_str()) {
            out.push(info);
            proof {
                assert(derefs(out@) =~= announced(derefs(new_choices@.take(i as int))).push(*info));
            }
        }
        i = i + 1;
    }
    proof {
        assert(new_choices@.take(new_choices@.len() as int) =~= new_choices@);
    }
    out
}

/// The models to announce after the last update, if there was one; see
/// [`new_choices_to_announce`].
pub fn new_choices_since_last_update<'a>(last_update: Option<&Vec<&'a LLMInfo>>) -> (r: Option<Vec<&'a LLMInfo>>)
    ensures
        match last_update {
            Some(new_choices) => r matches Some(v) && derefs(v@) == announced(derefs(new_choices@)),
            None => r is None,
        },
{
    match last_update {
        Some(new_choices) => Some(new_choices_to_announce(new_choices)),
        None => None,
    }
}

/// What setting a terminal view's override changed.
#[derive(Debug, Clone, Copy, PartialEq, Eq, Structural)]
pub struct OverrideUpdate {
    /// The stored override changed, so the selection is saved.
    pub stored_changed: bool,
    /// The model the terminal view resolves to changed, so its subscribers are told.
    pub effective_changed: bool,
}

/// The overrides after the picker selects `id` for a view whose profile's model is
/// `profile_id`: no override when the two agree, else `id`.
pub open spec fn picked_overrides(
    overrides: Map<u64, Seq<char>>,
    terminal_view_id: u64,
    id: Seq<char>,
    profile_id: Seq<char>,
) -> Map<u64, Seq<char>> {
    if id == profile_id {
        overrides.remove(terminal_view_id)
    } else {
        overrides.insert(terminal_view_id, id)
    }
}

/// The overrides after the override of view `source` is copied onto view `new`: the same
/// override, or none when `source` has none.
pub open spec fn copied_overrides(overrides: Map<u64, Seq<char>>, source: u64, new: u64) -> Map<u64, Seq<char>> {
    if overrides.contains_key(source) {
        overrides.insert(new, overrides[source])
    } else {
        overrides.remove(new)
    }
}

/// The override of a terminal view in `overrides`, if it has one.
pub open spec fn override_in(overrides: Map<u64, Seq<char>>, terminal_view_id: Option<u64>) -> Option<Seq<char>> {
    match terminal_view_id {
        Some(v) => if overrides.contains_key(v) {
            Some(overrides[v])
        } else {
            None
        },
        None => None,
    }
}

impl LLMPreferences {
    /// The catalogue, everything but the terminal-view overrides, is the same in both.
    pub open spec fn same_catalogue(&self, other: &Self) -> bool {
        &&& self.models_by_feature == other.models_by_feature
        &&& self.custom_llms@ == other.custom_llms@
        &&& self.custom_model_routers@ == other.custom_model_routers@
        &&& self.custom_routers_enabled == other.custom_routers_enabled
        &&& self.default_computer_use == other.default_computer_use
    }

    /// The picker selects a model for a terminal view: the override is dropped when the model
    /// is the profile's own, else set. Returns whether the stored overrides changed. (The
    /// caller also records the model as the one last used.)
    pub fn update_preferred_agent_mode_llm(
        &mut self,
        preferred_llm_id: &str,
        terminal_view_id: u64,
        keys: &ApiKeyPresence,
        profile_base_model: Option<&str>,
    ) -> (changed: bool)
        ensures
            final(self).same_catalogue(old(self)),
            final(self).overrides_view() == picked_overrides(
                old(self).overrides_view(),
                terminal_view_id,
                preferred_llm_id@,
                old(self).profile_base(*keys, opt_str_view(profile_base_model)).id@,
            ),
            changed == (preferred_llm_id@ != old(self).profile_base(*keys, opt_str_view(profile_base_model)).id@
                || old(self).overrides_view().contains_key(terminal_view_id)),
    {
        broadcast use vstd::std_specs::hash::group_hash_axioms;

        let is_profile_default = {
            let default_model = self.get_active_profile_base_model(keys, profile_base_model);
            str_eq(preferred_llm_id, default_model.id.as_str())
        };
        let ghost before = self.base_llm_for_terminal_view@;
        if is_profile_default {
            let removed = self.base_llm_for_terminal_view.remove(&terminal_view_id);
            proof {
                assert(self.base_llm_for_terminal_view@.map_values(|s: String| s@) =~= before.map_values(
                    |s: String| s@,
                ).remove(terminal_view_id));
            }
            removed.is_some()
        } else {
            let id = String::from_str(preferred_llm_id);
            let ghost idv = id;
            self.base_llm_for_terminal_view.insert(terminal_view_id, id);
            proof {
                assert(self.base_llm_for_terminal_view@ == before.insert(terminal_view_id, idv));
                assert(self.base_llm_for_terminal_view@.map_values(|s: String| s@) =~= before.map_values(
                    |s: String| s@,
                ).insert(terminal_view_id, preferred_llm_id@));
            }
            true
        }
    }

    /// Pins a model for a terminal view, whatever the profile's model is. Returns whether
    /// the stored override changed and whether the model the view resolves to changed.
    pub fn set_agent_mode_llm_override(
        &mut self,
        terminal_view_id: u64,
        model_id: &str,
        keys: &ApiKeyPresence,
        last_used: &str,
        profile_base_model: Option<&str>,
    ) -> (r: OverrideUpdate)
        ensures
            final(self).same_catalogue(old(self)),
            final(self).overrides_view() == old(self).overrides_view().insert(terminal_view_id, model_id@),
            r.stored_changed == (old(self).override_spec(Some(terminal_view_id)) != Some(model_id@)),
            r.effective_changed == (r.stored_changed && old(self).preferred_base(
                *keys,
                old(self).override_spec(Some(terminal_view_id)),
                last_used@,
                opt_str_view(profile_base_model),
            ).id@ != old(self).preferred_base(
                *keys,
                Some(model_id@),
                last_used@,
                opt_str_view(profile_base_model),
            ).id@),
    {
        broadcast use vstd::std_specs::hash::group_hash_axioms;

        let previous = self.get_active_base_model(keys, Some(terminal_view_id), last_used, profile_base_model).id.clone();
        let stored_changed = match self.agent_mode_override(Some(terminal_view_id)) {
            Some(current) => !str_eq(current, model_id),
            None => true,
        };
        let ghost before = self.base_llm_for_terminal_view@;
        let id = String::from_str(model_id);
        let ghost idv = id;
        self.base_llm_for_terminal_view.insert(terminal_view_id, id);
        proof {
            assert(self.base_llm_for_terminal_view@ == before.insert(terminal_view_id, idv));
            assert(self.base_llm_for_terminal_view@.map_values(|s: String| s@) =~= before.map_values(
                |s: String| s@,
            ).insert(terminal_view_id, model_id@));
            assert(self.override_spec(Some(terminal_view_id)) == Some(model_id@));
        }
        let effective_changed = if stored_changed {
            let now = self.get_active_base_model(keys, Some(terminal_view_id), last_used, profile_base_model);
            !str_eq(now.id.as_str(), previous.as_str())
        } else {
            false
        };
        OverrideUpdate { stored_changed, effective_changed }
    }

    /// Copies the override of view `source` onto view `new`, or drops the override of `new`
    /// when `source` has none. Returns whether the stored overrides changed.
    pub fn copy_agent_mode_selection(&mut self, source_terminal_view_id: u64, new_terminal_view_id: u64) -> (changed:
        bool)
        ensures
            final(self).same_catalogue(old(self)),
            final(self).overrides_view() == copied_overrides(
                old(self).overrides_view(),
                source_terminal_view_id,
                new_terminal_view_id,
            ),
            changed == if old(self).overrides_view().contains_key(source_terminal_view_id) {
                old(self).override_spec(Some(new_terminal_view_id)) != Some(
                    old(self).overrides_view()[source_terminal_view_id],
                )
            } else {
                old(self).overrides_view().contains_key(new_terminal_view_id)
            },
    {
        broadcast use vstd::std_specs::hash::group_hash_axioms;

        let ghost before = self.base_llm_for_terminal_view@;
        let source = match self.base_llm_for_terminal_view.get(&source_terminal_view_id) {
            Some(id) => Some(id.clone()),
            None => None,
        };
        match source {
            Some(id) => {
                let copy = id.clone();
                let previous = self.base_llm_for_terminal_view.insert(new_terminal_view_id, copy);
                proof {
                    assert(self.base_llm_for_terminal_view@ == before.insert(new_terminal_view_id, id));
                    assert(self.base_llm_for_terminal_view@.map_values(|s: String| s@) =~= before.map_values(
                        |s: String| s@,
                    ).insert(new_terminal_view_id, id@));
                }
                match previous {
                    Some(p) => !str_eq(p.as_str(), id.as_str()),
                    None => true,
                }
            },
            None => {
                let removed = self.base_llm_for_terminal_view.remove(&new_terminal_view_id);
                proof {
                    assert(self.base_llm_for_terminal_view@.map_values(|s: String| s@) =~= before.map_values(
                        |s: String| s@,
                    ).remove(new_terminal_view_id));
                }
                removed.is_some()
            },
        }
    }
}

impl LLMPreferences {
    /// The models offered in a feature's picker: the feature's models that local
    /// configuration did not disable, then the custom-endpoint models, then the custom
    /// routers when they are on.
    pub open spec fn picker_choices(&self, available: AvailableLLMs) -> Seq<LLMInfo> {
        offered(available.choices_spec()) + self.custom_llms@ + if self.custom_routers_enabled {
            self.custom_model_routers@
        } else {
            Seq::empty()
        }
    }

    fn picker_choices_for<'a>(&'a self, available: &'a AvailableLLMs) -> (r: Vec<&'a LLMInfo>)
        ensures
            derefs(r@) == self.picker_choices(*available),
    {
        let choices = available.choices();
        let mut out: Vec<&LLMInfo> = Vec::new();
        let mut i: usize = 0;
        while i < choices.len()
            invariant
                i <= choices@.len(),
                derefs(out@) == offered(choices@.take(i as int)),
            decreases choices@.len() - i,
        {
            proof {
                assert(choices@.take(i + 1).drop_last() =~= choices@.take(i as int));
            }
            let info = &choices[i];
            match info.disable_reason {
                Some(DisableReason::AdminDisabled) => {},
                _ => {
                    out.push(info);
                    proof {
                        assert(derefs(out@) =~= offered(choices@.take(i as int)).push(*info));
                    }
                },
            }
            i = i + 1;
        }
        proof {
            assert(choices@.take(choices@.len() as int) =~= choices@);
        }
        push_all(&mut out, &self.custom_llms);
        if self.custom_routers_enabled {
            push_all(&mut out, &self.custom_model_routers);
        } else {
            proof {
                assert(derefs(out@) =~= derefs(out@) + Seq::<LLMInfo>::empty());
            }
        }
        out
    }

    /// The models offered for agent mode; see [`LLMPreferences::picker_choices`].
    pub fn get_base_llm_choices_for_agent_mode(&self) -> (r: Vec<&LLMInfo>)
        ensures
            derefs(r@) == self.picker_choices(self.models_by_feature.agent_mode),
    {
        self.picker_choices_for(&self.models_by_feature.agent_mode)
    }

    /// The models offered for coding; see [`LLMPreferences::picker_choices`].
    pub fn get_coding_llm_choices(&self) -> (r: Vec<&LLMInfo>)
        ensures
            derefs(r@) == self.picker_choices(self.models_by_feature.coding),
    {
        self.picker_choices_for(&self.models_by_feature.coding)
    }

    /// The models offered to the CLI agent: all of its models, then the custom-endpoint
    /// models.
    pub fn get_cli_agent_llm_choices(&self) -> (r: Vec<&LLMInfo>)
        ensures
            derefs(r@) == (match self.models_by_feature.cli_agent {
                Some(a) => a,
                None => self.models_by_feature.agent_mode,
            }).choices_spec() + self.custom_llms@,
    {
        let mut out: Vec<&LLMInfo> = Vec::new();
        push_all(&mut out, self.get_cli_agent_available().choices());
        push_all(&mut out, &self.custom_llms);
        proof {
            assert(derefs(Seq::<&LLMInfo>::empty()) =~= Seq::<LLMInfo>::empty());
        }
        out
    }
}

/// The fallback never settles on a model that the user cannot use while the feature lists
/// one they can use.
pub proof fn lemma_fallback_prefers_usable(prefs: LLMPreferences, available: AvailableLLMs, keys: ApiKeyPresence, i: int)
    requires
        0 <= i < available.choices_spec().len(),
        usable_spec(available.choices_spec()[i], keys),
    ensures
        usable_spec(prefs.fallback(available, keys), keys),
{
    lemma_first_usable_exists(available.choices_spec(), keys, i);
}

/// The agent-mode model follows the documented priority: the terminal's override when the
/// catalogue has it, then the model last used in the picker when listed, then the profile's.
pub proof fn lemma_base_model_priority(
    prefs: LLMPreferences,
    keys: ApiKeyPresence,
    override_id: Option<Seq<char>>,
    last_used: Seq<char>,
    profile_base_model: Option<Seq<char>>,
)
    ensures
        (override_id matches Some(id) ==> (prefs.model_lookup(prefs.models_by_feature.agent_mode, id) matches Some(x)
            ==> prefs.preferred_base(keys, override_id, last_used, profile_base_model) == x)),
        (lookup(prefs.models_by_feature.agent_mode.choices_spec(), last_used) matches Some(x)
            ==> (override_id is None && last_used.len() > 0 ==> prefs.preferred_base(
            keys,
            override_id,
            last_used,
            profile_base_model,
        ) == x)),
        override_id is None && last_used.len() == 0 ==> prefs.preferred_base(keys, override_id, last_used, profile_base_model)
            == prefs.profile_base(keys, profile_base_model),
{
}

/// Copying a terminal view's selection onto another makes the two resolve to the same
/// agent-mode model.
pub proof fn lemma_copy_reproduces_selection(
    prefs: LLMPreferences,
    overrides: Map<u64, Seq<char>>,
    source: u64,
    new: u64,
    keys: ApiKeyPresence,
    last_used: Seq<char>,
    profile_base_model: Option<Seq<char>>,
)
    ensures
        ({
            let copied = copied_overrides(overrides, source, new);
            &&& override_in(copied, Some(new)) == override_in(copied, Some(source))
            &&& prefs.preferred_base(keys, override_in(copied, Some(new)), last_used, profile_base_model)
                == prefs.preferred_base(keys, override_in(copied, Some(source)), last_used, profile_base_model)
        }),
{
}

/// A model listed among the agent-mode models that the picker selects for a terminal view,
/// once recorded as the model last used, is the model that the view resolves to.
pub proof fn lemma_picker_choice_takes_effect(
    prefs: LLMPreferences,
    keys: ApiKeyPresence,
    terminal_view_id: u64,
    id: Seq<char>,
    profile_base_model: Option<Seq<char>>,
)
    requires
        id.len() > 0,
        lookup(prefs.models_by_feature.agent_mode.choices_spec(), id) is Some,
    ensures
        ({
            let picked = picked_overrides(
                prefs.overrides_view(),
                terminal_view_id,
                id,
                prefs.profile_base(keys, profile_base_model).id@,
            );
            prefs.preferred_base(keys, override_in(picked, Some(terminal_view_id)), id, profile_base_model)
                == lookup(prefs.models_by_feature.agent_mode.choices_spec(), id)->0
        }),
{
}

/// Selecting the same model again for the same terminal view changes nothing.
pub proof fn lemma_picking_again_changes_nothing(
    overrides: Map<u64, Seq<char>>,
    terminal_view_id: u64,
    id: Seq<char>,
    profile_id: Seq<char>,
)
    ensures
        picked_overrides(picked_overrides(overrides, terminal_view_id, id, profile_id), terminal_view_id, id, profile_id)
            == picked_overrides(overrides, terminal_view_id, id, profile_id),
{
    assert(overrides.remove(terminal_view_id).remove(terminal_view_id) =~= overrides.remove(terminal_view_id));
    assert(overrides.insert(terminal_view_id, id).insert(terminal_view_id, id) =~= overrides.insert(terminal_view_id, id));
}

/// Reconciling never clears a model id that this device does not recognize (it may name a
/// custom endpoint set up on another device), nor the context-window limit that goes with
/// such a base model.
pub proof fn lemma_unrecognized_choices_are_kept(prefs: LLMPreferences, profile: AIExecutionProfile, keys: ApiKeyPresence)
    ensures
        ({
            let r = prefs.reconciliation(profile, keys);
            &&& (profile.base_model matches Some(b) && !prefs.recognizes(prefs.models_by_feature.agent_mode, b@))
                ==> !r.clear_base_model && !r.clear_context_window_limit
            &&& (profile.coding_model matches Some(c) && !prefs.recognizes(prefs.models_by_feature.coding, c@))
                ==> !r.clear_coding_model
            &&& (profile.cli_agent_model matches Some(c) && !prefs.recognizes(prefs.cli_available(), c@))
                ==> !r.clear_cli_agent_model
        }),
{
}

/// Reconciling keeps a base, coding or CLI model that the user can use.
pub proof fn lemma_usable_choices_are_kept(prefs: LLMPreferences, profile: AIExecutionProfile, keys: ApiKeyPresence)
    ensures
        ({
            let r = prefs.reconciliation(profile, keys);
            &&& prefs.usable_base(profile, keys) is Some ==> !r.clear_base_model
            &&& (profile.coding_model matches Some(c) && prefs.usable_choice(prefs.models_by_feature.coding, c@, keys) is Some)
                ==> !r.clear_coding_model
            &&& (profile.cli_agent_model matches Some(c) && prefs.usable_choice(prefs.cli_available(), c@, keys) is Some)
                ==> !r.clear_cli_agent_model
        }),
{
}

/// Reconciling a reconciled profile clears nothing more.
pub proof fn lemma_reconciling_is_idempotent(prefs: LLMPreferences, profile: AIExecutionProfile, keys: ApiKeyPresence)
    ensures
        ({
            let once = apply_reconciliation(profile, prefs.reconciliation(profile, keys));
            prefs.reconciliation(once, keys) == ProfileReconciliation {
                clear_base_model: false,
                clear_context_window_limit: false,
                clear_coding_model: false,
                clear_cli_agent_model: false,
                clear_computer_use_model: false,
            }
        }),
{
}

} // verus!
