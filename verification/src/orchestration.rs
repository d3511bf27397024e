//! Run-wide orchestration settings shared by the confirmation card and the plan card.
use vstd::prelude::*;
use vstd::string::*;

use crate::start_agent::HarnessLookup;
use crate::text::{eq_ignore_ascii_case, eq_ignore_ascii_case_spec};

verus! {

/// Actions that the shared orchestration pickers produce.
pub trait OrchestrationControlAction: Sized {
    fn execution_mode_toggled(is_remote: bool) -> Self;

    fn model_changed(model_id: String) -> Self;

    fn harness_changed(harness_type: String) -> Self;

    fn environment_changed(environment_id: String) -> Self;

    fn create_environment_requested() -> Self;

    fn auth_secret_changed(name: Option<String>) -> Self;

    fn create_new_auth_secret_requested() -> Self;
}

/// Actions of the run-agents confirmation card.
#[derive(Debug, Clone, PartialEq, Eq)]
pub enum RunAgentsCardViewAction {
    Accept,
    AcceptWithoutOrchestration,
    ToggleAcceptMenu,
    Reject,
    ModelChanged { model_id: String },
    HarnessChanged { harness_type: String },
    UnsupportedAction,
}

/// Events of the run-agents confirmation card.
#[derive(Debug, Clone, Copy, PartialEq, Eq)]
pub enum RunAgentsCardViewEvent {
    RejectRequested,
}

impl OrchestrationControlAction for RunAgentsCardViewAction {
    /// The card runs children locally only.
    fn execution_mode_toggled(is_remote: bool) -> (r: Self)
        ensures
            r == RunAgentsCardViewAction::UnsupportedAction,
    {
        RunAgentsCardViewAction::UnsupportedAction
    }

    fn model_changed(model_id: String) -> (r: Self)
        ensures
            r == (RunAgentsCardViewAction::ModelChanged { model_id }),
    {
        RunAgentsCardViewAction::ModelChanged { model_id }
    }

    fn harness_changed(harness_type: String) -> (r: Self)
        ensures
            r == (RunAgentsCardViewAction::HarnessChanged { harness_type }),
    {
        RunAgentsCardViewAction::HarnessChanged { harness_type }
    }

    fn environment_changed(environment_id: String) -> (r: Self)
        ensures
            r == RunAgentsCardViewAction::UnsupportedAction,
    {
        RunAgentsCardViewAction::UnsupportedAction
    }

    fn create_environment_requested() -> (r: Self)
        ensures
            r == RunAgentsCardViewAction::UnsupportedAction,
    {
        RunAgentsCardViewAction::UnsupportedAction
    }

    fn auth_secret_changed(name: Option<String>) -> (r: Self)
        ensures
            r == RunAgentsCardViewAction::UnsupportedAction,
    {
        RunAgentsCardViewAction::UnsupportedAction
    }

    fn create_new_auth_secret_requested() -> (r: Self)
        ensures
            r == RunAgentsCardViewAction::UnsupportedAction,
    {
        RunAgentsCardViewAction::UnsupportedAction
    }
}

/// Where children run: locally, or remotely in an environment on a worker host.
#[derive(Debug, Clone, PartialEq, Eq)]
pub enum OrchestrationExecutionMode {
    Local,
    Remote { environment_id: String, worker_host: String },
}

/// An approved orchestration configuration.
#[derive(Debug, Clone, PartialEq, Eq)]
pub struct OrchestrationConfig {
    pub model_id: String,
    pub harness_type: String,
    pub execution_mode: OrchestrationExecutionMode,
}

/// Where a plan's orchestration configuration stands with the user.
#[derive(Debug, Clone, Copy, PartialEq, Eq, Structural)]
pub enum OrchestrationConfigStatus {
    Pending,
    Approved,
    Disapproved,
}

impl OrchestrationConfigStatus {
    pub fn is_approved(&self) -> (r: bool)
        ensures
            r == (*self == OrchestrationConfigStatus::Approved),
    {
        matches!(self, OrchestrationConfigStatus::Approved)
    }

    pub fn is_disapproved(&self) -> (r: bool)
        ensures
            r == (*self == OrchestrationConfigStatus::Disapproved),
    {
        matches!(self, OrchestrationConfigStatus::Disapproved)
    }
}

/// The editable run-wide settings.
#[derive(Debug, Clone, PartialEq, Eq)]
pub struct OrchestrationEditState {
    pub model_id: String,
    pub harness_type: String,
    pub execution_mode: OrchestrationExecutionMode,
    pub auth_secret_name: Option<String>,
}

/// The mode with its environment replaced, when it is remote.
pub open spec fn with_environment(mode: OrchestrationExecutionMode, environment_id: String) -> OrchestrationExecutionMode {
    match mode {
        OrchestrationExecutionMode::Remote { worker_host, .. } => OrchestrationExecutionMode::Remote { environment_id, worker_host },
        OrchestrationExecutionMode::Local => OrchestrationExecutionMode::Local,
    }
}

/// The mode with its worker host replaced, when it is remote.
pub open spec fn with_worker_host(mode: OrchestrationExecutionMode, worker_host: String) -> OrchestrationExecutionMode {
    match mode {
        OrchestrationExecutionMode::Remote { environment_id, .. } => OrchestrationExecutionMode::Remote { environment_id, worker_host },
        OrchestrationExecutionMode::Local => OrchestrationExecutionMode::Local,
    }
}

impl OrchestrationEditState {
    /// The settings of a run-agents request, with no auth secret chosen.
    pub fn from_run_agents_fields(
        model_id: &str,
        harness_type: &str,
        execution_mode: &OrchestrationExecutionMode,
    ) -> (r: Self)
        ensures
            r.model_id@ == model_id@,
            r.harness_type@ == harness_type@,
            r.execution_mode == *execution_mode,
            r.auth_secret_name is None,
    {
        OrchestrationEditState {
            model_id: String::from_str(model_id),
            harness_type: String::from_str(harness_type),
            execution_mode: copy_mode(execution_mode),
            auth_secret_name: None,
        }
    }

    /// Makes the settings fit a local run: a harness that this build switched off (`lookup`
    /// is the registry's answer for the harness) is replaced by the built-in `oz`, and the
    /// model is cleared; otherwise nothing changes.
    pub fn sanitize_for_local_execution(&mut self, lookup: &HarnessLookup)
        ensures
            lookup is Disabled ==> final(self).harness_type@ == "oz"@ && final(self).model_id@.len() == 0,
            !(lookup is Disabled) ==> final(self).harness_type == old(self).harness_type
                && final(self).model_id == old(self).model_id,
            final(self).execution_mode == old(self).execution_mode,
            final(self).auth_secret_name == old(self).auth_secret_name,
    {
        if let HarnessLookup::Disabled(_) = lookup {
            self.harness_type = String::from_str("oz");
            self.model_id = String::new();
        }
    }

    /// The settings of a configuration, with no auth secret chosen; a local configuration is
    /// made to fit a local run (see [`OrchestrationEditState::sanitize_for_local_execution`]).
    pub fn from_orchestration_config(config: &OrchestrationConfig, lookup: &HarnessLookup) -> (r: Self)
        ensures
            r.execution_mode == config.execution_mode,
            r.auth_secret_name is None,
            config.execution_mode is Local && lookup is Disabled ==> r.harness_type@ == "oz"@
                && r.model_id@.len() == 0,
            !(config.execution_mode is Local && lookup is Disabled) ==> r.harness_type
                == config.harness_type && r.model_id == config.model_id,
    {
        let mut state = OrchestrationEditState {
            model_id: config.model_id.clone(),
            harness_type: config.harness_type.clone(),
            execution_mode: copy_mode(&config.execution_mode),
            auth_secret_name: None,
        };
        if let OrchestrationExecutionMode::Local = state.execution_mode {
            state.sanitize_for_local_execution(lookup);
        }
        state
    }

    /// Switches between a local and a remote run. Going remote, `opencode` (in any case)
    /// becomes `oz`, which is the only harness change, and a local mode becomes a remote one
    /// with no environment on the `warp` host (a remote mode stays as it is). Going local, the
    /// mode becomes local and the settings are made to fit a local run.
    pub fn toggle_execution_mode_to_remote(&mut self, is_remote: bool, lookup: &HarnessLookup)
        ensures
            final(self).auth_secret_name == old(self).auth_secret_name,
            is_remote ==> {
                &&& final(self).harness_type@ == if eq_ignore_ascii_case_spec(old(self).harness_type@, "opencode"@) {
                    "oz"@
                } else {
                    old(self).harness_type@
                }
                &&& final(self).model_id == old(self).model_id
                &&& old(self).execution_mode is Remote ==> final(self).execution_mode == old(self).execution_mode
                &&& old(self).execution_mode is Local ==> (final(self).execution_mode matches OrchestrationExecutionMode::Remote {
                    environment_id,
                    worker_host,
                } && environment_id@.len() == 0 && worker_host@ == "warp"@)
            },
            !is_remote ==> {
                &&& final(self).execution_mode == OrchestrationExecutionMode::Local
                &&& lookup is Disabled ==> final(self).harness_type@ == "oz"@ && final(self).model_id@.len() == 0
                &&& !(lookup is Disabled) ==> final(self).harness_type == old(self).harness_type
                    && final(self).model_id == old(self).model_id
            },
    {
        if is_remote {
            let opencode = "opencode";
            proof {
                reveal_strlit("opencode");
            }
            if eq_ignore_ascii_case(self.harness_type.as_str(), opencode) {
                self.harness_type = String::from_str("oz");
            }
            if let OrchestrationExecutionMode::Local = self.execution_mode {
                self.execution_mode = OrchestrationExecutionMode::Remote {
                    environment_id: String::new(),
                    worker_host: String::from_str("warp"),
                };
            }
        } else {
            self.execution_mode = OrchestrationExecutionMode::Local;
            self.sanitize_for_local_execution(lookup);
        }
    }

    /// Why Accept must stay disabled, if it must; see
    /// [`OrchestrationEditState::accept_disabled_reason`].
    pub open spec fn accept_disabled_reason_spec(&self, lookup: HarnessLookup) -> Option<Seq<char>> {
        match self.execution_mode {
            OrchestrationExecutionMode::Local => match lookup {
                HarnessLookup::Disabled(m) => Some(m@),
                _ => None,
            },
            OrchestrationExecutionMode::Remote { .. } => if eq_ignore_ascii_case_spec(self.harness_type@, "opencode"@) {
                Some("OpenCode is not supported on Cloud yet. Switch to Local or pick a different harness."@)
            } else {
                None
            },
        }
    }

    /// Why Accept must stay disabled, if it must: a local run of a harness that this build
    /// switched off (`lookup` is the registry's answer for the harness) gives the registry's
    /// message; a remote run of `opencode` (in any case) is not supported.
    pub fn accept_disabled_reason(&self, lookup: &HarnessLookup) -> (r: Option<String>)
        ensures
            match r {
                Some(x) => self.accept_disabled_reason_spec(*lookup) == Some(x@),
                None => self.accept_disabled_reason_spec(*lookup) is None,
            },
            match self.execution_mode {
                OrchestrationExecutionMode::Local => match lookup {
                    HarnessLookup::Disabled(m) => r matches Some(x) && x@ == m@,
                    _ => r is None,
                },
                OrchestrationExecutionMode::Remote { .. } => if eq_ignore_ascii_case_spec(self.harness_type@, "opencode"@) {
                    r matches Some(x) && x@
                        == "OpenCode is not supported on Cloud yet. Switch to Local or pick a different harness."@
                } else {
                    r is None
                },
            },
    {
        match &self.execution_mode {
            OrchestrationExecutionMode::Local => match lookup {
                HarnessLookup::Disabled(message) => Some(message.clone()),
                _ => None,
            },
            OrchestrationExecutionMode::Remote { .. } => {
                let opencode = "opencode";
                proof {
                    reveal_strlit("opencode");
                }
                if eq_ignore_ascii_case(self.harness_type.as_str(), opencode) {
                    Some(
                        String::from_str(
                            "OpenCode is not supported on Cloud yet. Switch to Local or pick a different harness.",
                        ),
                    )
                } else {
                    None
                }
            },
        }
    }

    /// Fills in what the request left empty from the approved configuration: an empty harness
    /// or model takes the configuration's (when that is not empty), and a local mode becomes
    /// the configuration's remote one; a run that is still local is then made to fit a local
    /// run (`lookup` is the registry's answer for the resulting harness).
    pub fn resolve_from_config(&mut self, config: &OrchestrationConfig, lookup: &HarnessLookup)
        ensures
            final(self).auth_secret_name == old(self).auth_secret_name,
            final(self).execution_mode == if old(self).execution_mode is Local && config.execution_mode is Remote {
                config.execution_mode
            } else {
                old(self).execution_mode
            },
            ({
                let h = if old(self).harness_type@.len() == 0 && config.harness_type@.len() != 0 {
                    config.harness_type@
                } else {
                    old(self).harness_type@
                };
                let m = if old(self).model_id@.len() == 0 && config.model_id@.len() != 0 {
                    config.model_id@
                } else {
                    old(self).model_id@
                };
                if final(self).execution_mode is Local && lookup is Disabled {
                    final(self).harness_type@ == "oz"@ && final(self).model_id@.len() == 0
                } else {
                    final(self).harness_type@ == h && final(self).model_id@ == m
                }
            }),
    {
        if self.harness_type.unicode_len() == 0 && config.harness_type.unicode_len() != 0 {
            self.harness_type = config.harness_type.clone();
        }
        if self.model_id.unicode_len() == 0 && config.model_id.unicode_len() != 0 {
            self.model_id = config.model_id.clone();
        }
        if let OrchestrationExecutionMode::Local = self.execution_mode {
            if let OrchestrationExecutionMode::Remote { .. } = config.execution_mode {
                self.execution_mode = copy_mode(&config.execution_mode);
            }
        }
        if let OrchestrationExecutionMode::Local = self.execution_mode {
            self.sanitize_for_local_execution(lookup);
        }
    }

    /// Sets the environment of a remote mode; a local mode is unchanged.
    pub fn set_environment_id(&mut self, environment_id: String)
        ensures
            final(self).execution_mode == with_environment(old(self).execution_mode, environment_id),
            final(self).model_id == old(self).model_id,
            final(self).harness_type == old(self).harness_type,
            final(self).auth_secret_name == old(self).auth_secret_name,
    {
        let mode = match &self.execution_mode {
            OrchestrationExecutionMode::Remote { worker_host, .. } => OrchestrationExecutionMode::Remote {
                environment_id,
                worker_host: worker_host.clone(),
            },
            OrchestrationExecutionMode::Local => OrchestrationExecutionMode::Local,
        };
        self.execution_mode = mode;
    }

    /// Sets the worker host of a remote mode; a local mode is unchanged.
    pub fn set_worker_host(&mut self, worker_host: String)
        ensures
            final(self).execution_mode == with_worker_host(old(self).execution_mode, worker_host),
            final(self).model_id == old(self).model_id,
            final(self).harness_type == old(self).harness_type,
            final(self).auth_secret_name == old(self).auth_secret_name,
    {
        let mode = match &self.execution_mode {
            OrchestrationExecutionMode::Remote { environment_id, .. } => OrchestrationExecutionMode::Remote {
                environment_id: environment_id.clone(),
                worker_host,
            },
            OrchestrationExecutionMode::Local => OrchestrationExecutionMode::Local,
        };
        self.execution_mode = mode;
    }

    /// Takes model, harness and mode from the approved configuration; the auth secret stays.
    pub fn override_from_approved_config(&mut self, config: &OrchestrationConfig)
        ensures
            final(self).model_id == config.model_id,
            final(self).harness_type == config.harness_type,
            final(self).execution_mode == config.execution_mode,
            final(self).auth_secret_name == old(self).auth_secret_name,
    {
        self.model_id = config.model_id.clone();
        self.harness_type = config.harness_type.clone();
        self.execution_mode = copy_mode(&config.execution_mode);
    }

    /// The configuration these settings describe.
    pub fn to_orchestration_config(&self) -> (r: OrchestrationConfig)
        ensures
            r.model_id == self.model_id,
            r.harness_type == self.harness_type,
            r.execution_mode == self.execution_mode,
    {
        OrchestrationConfig {
            model_id: self.model_id.clone(),
            harness_type: self.harness_type.clone(),
            execution_mode: copy_mode(&self.execution_mode),
        }
    }
}

/// A copy of an execution mode.
fn copy_mode(mode: &OrchestrationExecutionMode) -> (r: OrchestrationExecutionMode)
    ensures
        r == *mode,
{
    match mode {
        OrchestrationExecutionMode::Local => OrchestrationExecutionMode::Local,
        OrchestrationExecutionMode::Remote { environment_id, worker_host } => OrchestrationExecutionMode::Remote {
            environment_id: environment_id.clone(),
            worker_host: worker_host.clone(),
        },
    }
}

/// Overriding from a configuration and converting back gives that configuration.
pub proof fn lemma_override_then_convert(before: OrchestrationEditState, after: OrchestrationEditState, config: OrchestrationConfig)
    requires
        after.model_id == config.model_id,
        after.harness_type == config.harness_type,
        after.execution_mode == config.execution_mode,
    ensures
        (OrchestrationConfig {
            model_id: after.model_id,
            harness_type: after.harness_type,
            execution_mode: after.execution_mode,
        }) == config,
{
}

/// The key under which a harness's chosen model is remembered: the empty harness name, which
/// stands for the built-in harness, is stored as `oz`.
pub fn harness_save_key(harness_type: &str) -> (r: &str)
    ensures
        r@ == if harness_type@.len() == 0 {
            "oz"@
        } else {
            harness_type@
        },
{
    if harness_type.unicode_len() == 0 {
        "oz"
    } else {
        harness_type
    }
}

} // verus!
