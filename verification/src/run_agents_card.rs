//! The run-agents confirmation card: the editable request behind it, the status line it
//! shows once a batch has ended, and when it is left without an action to follow.
use vstd::prelude::*;
use vstd::string::*;

use crate::orchestration::{
    OrchestrationConfig, OrchestrationConfigStatus, OrchestrationEditState, OrchestrationExecutionMode,
};
use crate::orchestration_pickers::{HarnessKind, SavedModelPerHarness};
use crate::run_agents::{
    RunAgentsAgentOutcome, RunAgentsAgentOutcomeKind, RunAgentsAgentRunConfig,
    RunAgentsExecutionMode, RunAgentsRequest, RunAgentsResult, RunAgentsSpawningSnapshot,
};
use crate::start_agent::HarnessLookup;
use crate::text::{decimal, push_decimal, str_eq};

verus! {

/// The kind of status line a card shows.
#[derive(Debug, Clone, Copy, PartialEq, Eq, Structural)]
pub enum StatusKind {
    Spawning,
    Success,
    Mixed,
    Failure,
    Cancelled,
}

/// How many children among `agents` launched.
pub open spec fn launched_count(agents: Seq<RunAgentsAgentOutcome>) -> nat
    decreases agents.len(),
{
    if agents.len() == 0 {
        0
    } else {
        launched_count(agents.drop_last()) + if agents.last().kind is Launched {
            1nat
        } else {
            0nat
        }
    }
}

/// The lead of the message shown for a refused batch.
pub open spec fn orchestration_disabled_text() -> Seq<char> {
    "Orchestration is currently disabled. Re-enable on the plan card to launch."@
}

/// The status line of an ended batch and its kind.
/// - All children launched: "Spawned 1 agent" or "Spawned N agents", a success.
/// - None launched: "Failed to spawn agent" or "Failed to spawn N agents", a failure.
/// - Some launched: "Spawned K of N agents", mixed.
/// - Refused: the orchestration-disabled text, with the reason in brackets when there is one.
/// - Failed: "Failed to start orchestration", with ": " and the error when there is one.
/// - Cancelled: "Spawn agents cancelled".
pub open spec fn terminal_state_spec(result: RunAgentsResult) -> (Seq<char>, StatusKind) {
    match result {
        RunAgentsResult::Launched { agents, .. } => {
            let total = agents@.len();
            let launched = launched_count(agents@);
            if launched == total {
                (
                    if total == 1 {
                        "Spawned 1 agent"@
                    } else {
                        "Spawned "@ + decimal(total) + " agents"@
                    },
                    StatusKind::Success,
                )
            } else if launched == 0 {
                (
                    if total == 1 {
                        "Failed to spawn agent"@
                    } else {
                        "Failed to spawn "@ + decimal(total) + " agents"@
                    },
                    StatusKind::Failure,
                )
            } else {
                ("Spawned "@ + decimal(launched) + " of "@ + decimal(total) + " agents"@, StatusKind::Mixed)
            }
        },
        RunAgentsResult::Denied { reason } => (
            if reason@.len() == 0 {
                orchestration_disabled_text()
            } else {
                orchestration_disabled_text() + " ("@ + reason@ + ")"@
            },
            StatusKind::Cancelled,
        ),
        RunAgentsResult::Failure { error } => (
            if error@.len() == 0 {
                "Failed to start orchestration"@
            } else {
                "Failed to start orchestration: "@ + error@
            },
            StatusKind::Failure,
        ),
        RunAgentsResult::Cancelled => ("Spawn agents cancelled"@, StatusKind::Cancelled),
    }
}

fn count_launched(agents: &Vec<RunAgentsAgentOutcome>) -> (r: usize)
    ensures
        r == launched_count(agents@),
        r <= agents@.len(),
{
    let mut count: usize = 0;
    let mut i: usize = 0;
    while i < agents.len()
        invariant
            i <= agents@.len(),
            count == launched_count(agents@.take(i as int)),
            count <= i,
        decreases agents@.len() - i,
    {
        proof {
            assert(agents@.take(i + 1).drop_last() =~= agents@.take(i as int));
        }
        if let RunAgentsAgentOutcomeKind::Launched { .. } = &agents[i].kind {
            count = count + 1;
        }
        i = i + 1;
    }
    proof {
        assert(agents@.take(agents@.len() as int) =~= agents@);
    }
    count
}

/// The status line of an ended batch; see [`terminal_state_spec`].
pub fn format_terminal_state(result: &RunAgentsResult) -> (r: (String, StatusKind))
    ensures
        (r.0@, r.1) == terminal_state_spec(*result),
{
    match result {
        RunAgentsResult::Launched { agents, .. } => {
            let total = agents.len();
            let launched = count_launched(agents);
            if launched == total {
                if total == 1 {
                    (String::from_str("Spawned 1 agent"), StatusKind::Success)
                } else {
                    let mut label = String::from_str("Spawned ");
                    push_decimal(&mut label, total);
                    label.append(" agents");
                    (label, StatusKind::Success)
                }
            } else if launched == 0 {
                if total == 1 {
                    (String::from_str("Failed to spawn agent"), StatusKind::Failure)
                } else {
                    let mut label = String::from_str("Failed to spawn ");
                    push_decimal(&mut label, total);
                    label.append(" agents");
                    (label, StatusKind::Failure)
                }
            } else {
                let mut label = String::from_str("Spawned ");
                push_decimal(&mut label, launched);
                label.append(" of ");
                push_decimal(&mut label, total);
                label.append(" agents");
                (label, StatusKind::Mixed)
            }
        },
        RunAgentsResult::Denied { reason } => {
            let mut body = String::from_str(
                "Orchestration is currently disabled. Re-enable on the plan card to launch.",
            );
            if reason.unicode_len() != 0 {
                body.append(" (");
                body.append(reason.as_str());
                body.append(")");
            }
            (body, StatusKind::Cancelled)
        },
        RunAgentsResult::Failure { error } => {
            if error.unicode_len() == 0 {
                (String::from_str("Failed to start orchestration"), StatusKind::Failure)
            } else {
                let mut label = String::from_str("Failed to start orchestration: ");
                label.append(error.as_str());
                (label, StatusKind::Failure)
            }
        },
        RunAgentsResult::Cancelled => (String::from_str("Spawn agents cancelled"), StatusKind::Cancelled),
    }
}

/// The status line while a batch spawns: "Spawning 1 agent…" or "Spawning N agents…".
pub fn spawning_label(snapshot: &RunAgentsSpawningSnapshot) -> (r: String)
    ensures
        r@ == if snapshot.agent_count == 1 {
            "Spawning 1 agent\u{2026}"@
        } else {
            "Spawning "@ + decimal(snapshot.agent_count as nat) + " agents\u{2026}"@
        },
{
    if snapshot.agent_count == 1 {
        String::from_str("Spawning 1 agent\u{2026}")
    } else {
        let mut label = String::from_str("Spawning ");
        push_decimal(&mut label, snapshot.agent_count);
        label.append(" agents\u{2026}");
        label
    }
}

/// A batch ends in success exactly when every child launched, and in failure exactly when it
/// has children and none launched; the counts shown never exceed the batch.
pub proof fn lemma_launched_count_bounded(agents: Seq<RunAgentsAgentOutcome>)
    ensures
        launched_count(agents) <= agents.len(),
        launched_count(agents) == agents.len() <==> forall|i: int|
            0 <= i < agents.len() ==> (#[trigger] agents[i]).kind is Launched,
    decreases agents.len(),
{
    if agents.len() > 0 {
        let rest = agents.drop_last();
        lemma_launched_count_bounded(rest);
        if launched_count(agents) == agents.len() {
            assert forall|i: int| 0 <= i < agents.len() implies (#[trigger] agents[i]).kind is Launched by {
                if i < rest.len() {
                    assert(rest[i] == agents[i]);
                }
            }
        }
        if forall|i: int| 0 <= i < agents.len() ==> (#[trigger] agents[i]).kind is Launched {
            assert forall|i: int| 0 <= i < rest.len() implies (#[trigger] rest[i]).kind is Launched by {
                assert(rest[i] == agents[i]);
            }
            assert(agents[agents.len() - 1].kind is Launched);
        }
    }
}

/// The status of an action in the queue, once it has one.
#[derive(Debug, Clone, Copy, PartialEq, Eq, Structural)]
pub enum AIActionStatus {
    Preprocessing,
    Queued,
    Blocked,
    RunningAsync,
}

/// How the output of an agent block stands.
#[derive(Debug, Clone, PartialEq, Eq)]
pub enum AIBlockOutputStatus {
    Pending,
    PartiallyReceived,
    Complete,
    Cancelled,
    Failed { error: String },
}

/// Whether a card is left without an action to follow: its action never reached the queue
/// (it has no status) and the block's output was cancelled or failed, so no result will come.
pub fn is_orphaned_by_finished_output(
    action_status: Option<&AIActionStatus>,
    block_status: &AIBlockOutputStatus,
) -> (r: bool)
    ensures
        r == (action_status is None && (block_status is Cancelled || block_status is Failed)),
{
    match action_status {
        Some(_) => false,
        None => match block_status {
            AIBlockOutputStatus::Cancelled => true,
            AIBlockOutputStatus::Failed { .. } => true,
            _ => false,
        },
    }
}

/// The editable state behind a confirmation card: the run-wide settings and the rest of the
/// request.
#[derive(Debug, Clone, PartialEq, Eq)]
pub struct RunAgentsEditState {
    pub orch: OrchestrationEditState,
    pub agent_run_configs: Vec<RunAgentsAgentRunConfig>,
    pub base_prompt: String,
    pub summary: String,
    /// The plan that this batch carries out.
    pub plan_id: String,
}

impl RunAgentsEditState {
    /// The editable state of a request: its settings run locally, with a harness that this
    /// build switched off replaced by the built-in one (see
    /// `OrchestrationEditState::sanitize_for_local_execution`, with `lookup` the registry's
    /// answer for the request's harness).
    pub fn from_request(req: &RunAgentsRequest, lookup: &HarnessLookup) -> (r: Self)
        ensures
            r.orch.execution_mode == OrchestrationExecutionMode::Local,
            r.orch.auth_secret_name == req.harness_auth_secret_name,
            lookup is Disabled ==> r.orch.harness_type@ == "oz"@ && r.orch.model_id@.len() == 0,
            !(lookup is Disabled) ==> r.orch.harness_type == req.harness_type && r.orch.model_id
                == req.model_id,
            r.agent_run_configs@ == req.agent_run_configs@,
            r.base_prompt == req.base_prompt,
            r.summary == req.summary,
            r.plan_id == req.plan_id,
    {
        let mut orch = OrchestrationEditState {
            model_id: req.model_id.clone(),
            harness_type: req.harness_type.clone(),
            execution_mode: OrchestrationExecutionMode::Local,
            auth_secret_name: req.harness_auth_secret_name.clone(),
        };
        orch.sanitize_for_local_execution(lookup);
        RunAgentsEditState {
            orch,
            agent_run_configs: clone_configs(&req.agent_run_configs),
            base_prompt: req.base_prompt.clone(),
            summary: req.summary.clone(),
            plan_id: req.plan_id.clone(),
        }
    }

    /// The request that the card's state describes; it runs locally.
    pub fn to_request(&self) -> (r: RunAgentsRequest)
        ensures
            r.summary == self.summary,
            r.base_prompt == self.base_prompt,
            r.model_id == self.orch.model_id,
            r.harness_type == self.orch.harness_type,
            r.execution_mode == RunAgentsExecutionMode::Local,
            r.agent_run_configs@ == self.agent_run_configs@,
            r.plan_id == self.plan_id,
            r.harness_auth_secret_name == self.orch.auth_secret_name,
    {
        RunAgentsRequest {
            summary: self.summary.clone(),
            base_prompt: self.base_prompt.clone(),
            model_id: self.orch.model_id.clone(),
            harness_type: self.orch.harness_type.clone(),
            execution_mode: RunAgentsExecutionMode::Local,
            agent_run_configs: clone_configs(&self.agent_run_configs),
            plan_id: self.plan_id.clone(),
            harness_auth_secret_name: self.orch.auth_secret_name.clone(),
        }
    }
}

fn clone_config(c: &RunAgentsAgentRunConfig) -> (r: RunAgentsAgentRunConfig)
    ensures
        r == *c,
{
    RunAgentsAgentRunConfig {
        name: c.name.clone(),
        prompt: c.prompt.clone(),
        title: c.title.clone(),
        model_id: c.model_id.clone(),
    }
}

fn clone_configs(configs: &Vec<RunAgentsAgentRunConfig>) -> (r: Vec<RunAgentsAgentRunConfig>)
    ensures
        r@ == configs@,
{
    let mut out: Vec<RunAgentsAgentRunConfig> = Vec::new();
    let mut i: usize = 0;
    while i < configs.len()
        invariant
            i <= configs@.len(),
            out@ == configs@.take(i as int),
        decreases configs@.len() - i,
    {
        out.push(clone_config(&configs[i]));
        proof {
            assert(out@ =~= configs@.take(i + 1));
        }
        i = i + 1;
    }
    proof {
        assert(configs@.take(configs@.len() as int) =~= configs@);
    }
    out
}

/// A card's state turned into a request and back keeps everything a local run uses, when the
/// harness is not one that the build switched off.
pub proof fn lemma_edit_state_round_trip(state: RunAgentsEditState, req: RunAgentsRequest, back: RunAgentsEditState, lookup: HarnessLookup)
    requires
        req.summary == state.summary,
        req.base_prompt == state.base_prompt,
        req.model_id == state.orch.model_id,
        req.harness_type == state.orch.harness_type,
        req.agent_run_configs@ == state.agent_run_configs@,
        req.plan_id == state.plan_id,
        req.harness_auth_secret_name == state.orch.auth_secret_name,
        !(lookup is Disabled),
        back.orch.execution_mode == OrchestrationExecutionMode::Local,
        back.orch.auth_secret_name == req.harness_auth_secret_name,
        back.orch.harness_type == req.harness_type,
        back.orch.model_id == req.model_id,
        back.agent_run_configs@ == req.agent_run_configs@,
        back.base_prompt == req.base_prompt,
        back.summary == req.summary,
        back.plan_id == req.plan_id,
        state.orch.execution_mode == OrchestrationExecutionMode::Local,
    ensures
        back.orch == state.orch,
        back.agent_run_configs@ == state.agent_run_configs@,
        back.base_prompt == state.base_prompt,
        back.summary == state.summary,
        back.plan_id == state.plan_id,
{
}

/// The views of an optional string.
pub open spec fn opt_str(o: Option<String>) -> Option<Seq<char>> {
    match o {
        Some(s) => Some(s@),
        None => None,
    }
}

/// The views of an execution mode.
pub open spec fn mode_view(m: OrchestrationExecutionMode) -> Option<(Seq<char>, Seq<char>)> {
    match m {
        OrchestrationExecutionMode::Local => None,
        OrchestrationExecutionMode::Remote { environment_id, worker_host } => Some((environment_id@, worker_host@)),
    }
}

/// The views of a child's configuration.
pub open spec fn config_view(c: RunAgentsAgentRunConfig) -> (Seq<char>, Seq<char>, Seq<char>, Seq<char>) {
    (c.name@, c.prompt@, c.title@, c.model_id@)
}

/// Two edit states hold the same text everywhere.
pub open spec fn same_edit_state(a: RunAgentsEditState, b: RunAgentsEditState) -> bool {
    &&& a.orch.model_id@ == b.orch.model_id@
    &&& a.orch.harness_type@ == b.orch.harness_type@
    &&& mode_view(a.orch.execution_mode) == mode_view(b.orch.execution_mode)
    &&& opt_str(a.orch.auth_secret_name) == opt_str(b.orch.auth_secret_name)
    &&& a.agent_run_configs@.map_values(|c: RunAgentsAgentRunConfig| config_view(c)) == b.agent_run_configs@.map_values(
        |c: RunAgentsAgentRunConfig| config_view(c),
    )
    &&& a.base_prompt@ == b.base_prompt@
    &&& a.summary@ == b.summary@
    &&& a.plan_id@ == b.plan_id@
}

fn same_opt(a: &Option<String>, b: &Option<String>) -> (r: bool)
    ensures
        r == (opt_str(*a) == opt_str(*b)),
{
    match (a, b) {
        (Some(x), Some(y)) => str_eq(x.as_str(), y.as_str()),
        (None, None) => true,
        _ => false,
    }
}

fn same_mode(a: &OrchestrationExecutionMode, b: &OrchestrationExecutionMode) -> (r: bool)
    ensures
        r == (mode_view(*a) == mode_view(*b)),
{
    match (a, b) {
        (OrchestrationExecutionMode::Local, OrchestrationExecutionMode::Local) => true,
        (
            OrchestrationExecutionMode::Remote { environment_id: e1, worker_host: w1 },
            OrchestrationExecutionMode::Remote { environment_id: e2, worker_host: w2 },
        ) => str_eq(e1.as_str(), e2.as_str()) && str_eq(w1.as_str(), w2.as_str()),
        _ => false,
    }
}

fn same_configs(a: &Vec<RunAgentsAgentRunConfig>, b: &Vec<RunAgentsAgentRunConfig>) -> (r: bool)
    ensures
        r == (a@.map_values(|c: RunAgentsAgentRunConfig| config_view(c)) == b@.map_values(
            |c: RunAgentsAgentRunConfig| config_view(c),
        )),
{
    let ghost va = a@.map_values(|c: RunAgentsAgentRunConfig| config_view(c));
    let ghost vb = b@.map_values(|c: RunAgentsAgentRunConfig| config_view(c));
    if a.len() != b.len() {
        proof {
            assert(va.len() != vb.len());
        }
        return false;
    }
    let mut i: usize = 0;
    while i < a.len()
        invariant
            a@.len() == b@.len(),
            i <= a@.len(),
            va == a@.map_values(|c: RunAgentsAgentRunConfig| config_view(c)),
            vb == b@.map_values(|c: RunAgentsAgentRunConfig| config_view(c)),
            forall|j: int| 0 <= j < i ==> va[j] == vb[j],
        decreases a@.len() - i,
    {
        let x = &a[i];
        let y = &b[i];
        if !(str_eq(x.name.as_str(), y.name.as_str()) && str_eq(x.prompt.as_str(), y.prompt.as_str()) && str_eq(
            x.title.as_str(),
            y.title.as_str(),
        ) && str_eq(x.model_id.as_str(), y.model_id.as_str())) {
            proof {
                assert(va[i as int] != vb[i as int]);
            }
            return false;
        }
        i = i + 1;
    }
    proof {
        assert(va =~= vb);
    }
    true
}

fn same_state(a: &RunAgentsEditState, b: &RunAgentsEditState) -> (r: bool)
    ensures
        r == same_edit_state(*a, *b),
{
    str_eq(a.orch.model_id.as_str(), b.orch.model_id.as_str()) && str_eq(
        a.orch.harness_type.as_str(),
        b.orch.harness_type.as_str(),
    ) && same_mode(&a.orch.execution_mode, &b.orch.execution_mode) && same_opt(
        &a.orch.auth_secret_name,
        &b.orch.auth_secret_name,
    ) && same_configs(&a.agent_run_configs, &b.agent_run_configs) && str_eq(
        a.base_prompt.as_str(),
        b.base_prompt.as_str(),
    ) && str_eq(a.summary.as_str(), b.summary.as_str()) && str_eq(a.plan_id.as_str(), b.plan_id.as_str())
}

/// What an update of the card's request changed.
#[derive(Debug, Clone, Copy, PartialEq, Eq, Structural)]
pub struct CardRefresh {
    /// The state changed, so the card is redrawn.
    pub changed: bool,
    /// Harness, model or mode changed, so the pickers are filled again.
    pub repopulate: bool,
}

/// What a click on Accept leads to.
#[derive(Debug, Clone, PartialEq, Eq)]
pub enum AcceptOutcome {
    /// The batch is already spawning; nothing happens.
    Ignored,
    /// Accept is disabled, for this reason.
    Refused(String),
    /// The request to run.
    Execute(RunAgentsRequest),
}

/// A confirmation card: its editable state, whether its batch is spawning, whether the
/// accept menu is open, and the model each harness last had.
pub struct RunAgentsCard {
    pub state: RunAgentsEditState,
    pub spawning: Option<RunAgentsSpawningSnapshot>,
    pub is_accept_menu_open: bool,
    pub saved_model_per_harness: SavedModelPerHarness,
}

/// An empty model is filled with the conversation's base model, for the built-in harness
/// (or a harness name that stands for none).
pub open spec fn with_default_model(model: Seq<char>, kind: Option<HarnessKind>, base_model: Option<Seq<char>>) -> Seq<
    char,
> {
    if model.len() == 0 && kind != Some(HarnessKind::Other) && base_model is Some {
        base_model->0
    } else {
        model
    }
}

impl RunAgentsCard {
    /// The card of a request; see [`RunAgentsEditState::from_request`].
    pub fn new(request: &RunAgentsRequest, lookup: &HarnessLookup) -> (r: Self)
        ensures
            r.spawning is None,
            !r.is_accept_menu_open,
            r.saved_model_per_harness@ == Map::<Seq<char>, Seq<char>>::empty(),
            r.state.orch.execution_mode == OrchestrationExecutionMode::Local,
            lookup is Disabled ==> r.state.orch.harness_type@ == "oz"@ && r.state.orch.model_id@.len() == 0,
            !(lookup is Disabled) ==> r.state.orch.harness_type == request.harness_type && r.state.orch.model_id
                == request.model_id,
            r.state.agent_run_configs@ == request.agent_run_configs@,
            r.state.plan_id == request.plan_id,
    {
        RunAgentsCard {
            state: RunAgentsEditState::from_request(request, lookup),
            spawning: None,
            is_accept_menu_open: false,
            saved_model_per_harness: SavedModelPerHarness::new(),
        }
    }

    /// Fills an empty model with the conversation's base model; see [`with_default_model`].
    /// `kind` is what the harness name stands for.
    pub fn resolve_interactive_defaults(&mut self, kind: Option<HarnessKind>, base_model: Option<String>)
        ensures
            final(self).state.orch.model_id@ == with_default_model(old(self).state.orch.model_id@, kind, opt_str(base_model)),
            final(self).state.orch.harness_type == old(self).state.orch.harness_type,
            final(self).state.orch.execution_mode == old(self).state.orch.execution_mode,
            final(self).spawning == old(self).spawning,
    {
        if self.state.orch.model_id.as_str().unicode_len() == 0 {
            match kind {
                Some(HarnessKind::Other) => {},
                _ => {
                    if let Some(base) = base_model {
                        self.state.orch.model_id = base;
                    }
                },
            }
        }
    }

    /// The streamed request changed. While the batch spawns nothing changes. Otherwise the
    /// state becomes that of the request (see [`RunAgentsEditState::from_request`]), with
    /// what it left empty taken from an approved local configuration (see
    /// [`OrchestrationEditState::resolve_from_config`]) and an empty model filled in (see
    /// [`with_default_model`]). `lookup` is the registry's answer for the request's harness,
    /// `config_lookup` for the harness after the configuration applied, and `kind` what that
    /// harness stands for.
    pub fn update_request(
        &mut self,
        request: &RunAgentsRequest,
        lookup: &HarnessLookup,
        active_config: Option<(&OrchestrationConfig, OrchestrationConfigStatus)>,
        config_lookup: &HarnessLookup,
        kind: Option<HarnessKind>,
        base_model: Option<String>,
    ) -> (r: CardRefresh)
        ensures
            old(self).spawning is Some ==> r == (CardRefresh { changed: false, repopulate: false }) && final(self).state
                == old(self).state,
            old(self).spawning is None ==> {
                &&& r.changed == !same_edit_state(old(self).state, final(self).state)
                &&& r.repopulate == (r.changed && (old(self).state.orch.harness_type@ != final(self).state.orch.harness_type@
                    || old(self).state.orch.model_id@ != final(self).state.orch.model_id@ || mode_view(
                    old(self).state.orch.execution_mode,
                ) != mode_view(final(self).state.orch.execution_mode)))
                &&& final(self).state.agent_run_configs@ == request.agent_run_configs@
                &&& final(self).state.plan_id == request.plan_id
            },
            final(self).spawning == old(self).spawning,
    {
        if self.spawning.is_some() {
            return CardRefresh { changed: false, repopulate: false };
        }
        let mut new_state = RunAgentsEditState::from_request(request, lookup);
        if let Some((config, status)) = active_config {
            if status.is_approved() {
                if let OrchestrationExecutionMode::Local = config.execution_mode {
                    new_state.orch.resolve_from_config(config, config_lookup);
                }
            }
        }
        if new_state.orch.model_id.as_str().unicode_len() == 0 {
            match kind {
                Some(HarnessKind::Other) => {},
                _ => {
                    if let Some(base) = base_model {
                        new_state.orch.model_id = base;
                    }
                },
            }
        }
        if same_state(&self.state, &new_state) {
            // The same text everywhere: taking the new state changes nothing that shows.
            self.state = new_state;
            return CardRefresh { changed: false, repopulate: false };
        }
        let repopulate = !str_eq(self.state.orch.harness_type.as_str(), new_state.orch.harness_type.as_str()) || !str_eq(
            self.state.orch.model_id.as_str(),
            new_state.orch.model_id.as_str(),
        ) || !same_mode(&self.state.orch.execution_mode, &new_state.orch.execution_mode);
        self.state = new_state;
        CardRefresh { changed: true, repopulate }
    }

    /// What Accept does: nothing while the batch spawns, a refusal while Accept is disabled
    /// (see [`OrchestrationEditState::accept_disabled_reason`]), else the card's request.
    pub fn accept(&self, lookup: &HarnessLookup) -> (r: AcceptOutcome)
        ensures
            self.spawning is Some ==> r is Ignored,
            self.spawning is None ==> match r {
                AcceptOutcome::Refused(reason) => self.state.orch.accept_disabled_reason_spec(*lookup) == Some(reason@),
                AcceptOutcome::Execute(req) => {
                    &&& self.state.orch.accept_disabled_reason_spec(*lookup) is None
                    &&& req.model_id == self.state.orch.model_id
                    &&& req.harness_type == self.state.orch.harness_type
                    &&& req.agent_run_configs@ == self.state.agent_run_configs@
                    &&& req.plan_id == self.state.plan_id
                    &&& req.execution_mode == RunAgentsExecutionMode::Local
                },
                AcceptOutcome::Ignored => false,
            },
    {
        if self.spawning.is_some() {
            return AcceptOutcome::Ignored;
        }
        match self.state.orch.accept_disabled_reason(lookup) {
            Some(reason) => AcceptOutcome::Refused(reason),
            None => AcceptOutcome::Execute(self.state.to_request()),
        }
    }

    /// The Accept button: disabled, with the reason as its tooltip, while Accept is
    /// disabled; else enabled, with the tooltip "Accept".
    pub fn accept_button_state(&self, lookup: &HarnessLookup) -> (r: (bool, String))
        ensures
            r.0 == self.state.orch.accept_disabled_reason_spec(*lookup) is Some,
            r.1@ == match self.state.orch.accept_disabled_reason_spec(*lookup) {
                Some(reason) => reason,
                None => "Accept"@,
            },
    {
        match self.state.orch.accept_disabled_reason(lookup) {
            Some(reason) => (true, reason),
            None => (false, String::from_str("Accept")),
        }
    }

    /// Opens the accept menu when closed, closes it when open. Returns whether it is open.
    pub fn toggle_accept_menu(&mut self) -> (open: bool)
        ensures
            final(self).is_accept_menu_open == !old(self).is_accept_menu_open,
            open == final(self).is_accept_menu_open,
            final(self).state == old(self).state,
    {
        self.is_accept_menu_open = !self.is_accept_menu_open;
        self.is_accept_menu_open
    }

    /// The batch of this card began spawning.
    pub fn spawning_started(&mut self, snapshot: RunAgentsSpawningSnapshot)
        ensures
            final(self).spawning == Some(snapshot),
            final(self).state == old(self).state,
    {
        self.spawning = Some(snapshot);
    }

    /// The batch of this card finished spawning.
    pub fn spawning_finished(&mut self)
        ensures
            final(self).spawning is None,
            final(self).state == old(self).state,
    {
        self.spawning = None;
    }
}

} // verus!
