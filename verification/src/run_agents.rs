//! Batches of child agents: the prompt each child receives, the names by which
//! launched children are recognised, and the outcome reported for each.
use vstd::prelude::*;
use vstd::string::*;

use crate::execution_profiles::RunAgentsPermission;
use crate::orchestration::{OrchestrationConfig, OrchestrationConfigStatus, OrchestrationExecutionMode};
use crate::start_agent::{opt_view, HarnessLookup, StartAgentExecutionMode, StartAgentLaunch, StartAgentOutcome};
use crate::text::{
    all_ws, ascii_lower_seq, eq_ignore_ascii_case, eq_ignore_ascii_case_spec, is_blank, str_eq,
    to_ascii_lowercase, trim, trim_str,
};

verus! {

/// How many children a batch is spawning.
#[derive(Debug, Clone, Copy, PartialEq, Eq)]
pub struct RunAgentsSpawningSnapshot {
    pub agent_count: usize,
}

/// Events of the batch executor, for the action with id `action_id`.
#[derive(Debug, Clone, PartialEq, Eq)]
pub enum RunAgentsExecutorEvent {
    SpawningStarted { action_id: String, snapshot: RunAgentsSpawningSnapshot },
    SpawningFinished { action_id: String },
}

/// One child of a batch: its name, its own prompt, its title and an optional model override
/// (empty or blank for none).
#[derive(Debug, Clone, PartialEq, Eq)]
pub struct RunAgentsAgentRunConfig {
    pub name: String,
    pub prompt: String,
    pub title: String,
    pub model_id: String,
}

/// How the launch of one child went.
#[derive(Debug, Clone, PartialEq, Eq)]
pub enum RunAgentsAgentOutcomeKind {
    Launched { agent_id: String },
    Failed { error: String },
}

/// The reported outcome of one child, with the model it ran on.
#[derive(Debug, Clone, PartialEq, Eq)]
pub struct RunAgentsAgentOutcome {
    pub name: String,
    pub kind: RunAgentsAgentOutcomeKind,
    pub resolved_model_id: String,
}

/// The prompt of one child: the shared and the specialised prompt joined by a blank line,
/// or whichever of them is not blank, or nothing.
pub open spec fn child_prompt_spec(base: Seq<char>, per_agent: Seq<char>) -> Seq<char> {
    if !all_ws(base) && !all_ws(per_agent) {
        base + "\n\n"@ + per_agent
    } else if !all_ws(base) {
        base
    } else if !all_ws(per_agent) {
        per_agent
    } else {
        Seq::empty()
    }
}

/// Composes the prompt of one child; see [`child_prompt_spec`].
pub fn compose_run_agents_child_prompt(base_prompt: &str, per_agent_prompt: &str) -> (r: String)
    ensures
        r@ == child_prompt_spec(base_prompt@, per_agent_prompt@),
{
    let base_blank = is_blank(base_prompt);
    let per_blank = is_blank(per_agent_prompt);
    if !base_blank && !per_blank {
        let mut out = String::from_str(base_prompt);
        out.append("\n\n");
        out.append(per_agent_prompt);
        out
    } else if !base_blank {
        String::from_str(base_prompt)
    } else if !per_blank {
        String::from_str(per_agent_prompt)
    } else {
        String::new()
    }
}

/// The key by which a child name is recognised: trimmed and ASCII lower-cased; a blank
/// name has none.
pub open spec fn normalized_name_spec(name: Seq<char>) -> Option<Seq<char>> {
    if trim(name).len() == 0 {
        None
    } else {
        Some(ascii_lower_seq(trim(name)))
    }
}

/// Normalises a child name; see [`normalized_name_spec`].
pub fn normalize_agent_name(name: &str) -> (r: Option<String>)
    ensures
        match r {
            Some(s) => normalized_name_spec(name@) == Some(s@),
            None => normalized_name_spec(name@) is None,
        },
{
    let trimmed = trim_str(name);
    if trimmed.unicode_len() == 0 {
        None
    } else {
        Some(to_ascii_lowercase(trimmed))
    }
}

/// The outcome reported for a child: its name and launch outcome, and the model it ran on,
/// which is its own override when it has one and the batch model otherwise.
pub open spec fn outcome_matches(
    config: RunAgentsAgentRunConfig,
    kind: RunAgentsAgentOutcomeKind,
    batch_model_id: Seq<char>,
    o: RunAgentsAgentOutcome,
) -> bool {
    &&& o.name@ == config.name@
    &&& o.kind == kind
    &&& o.resolved_model_id@ == if all_ws(config.model_id@) {
        batch_model_id
    } else {
        config.model_id@
    }
}

/// Pairs each child with its launch outcome, in order; extra entries of the longer list
/// are dropped.
pub fn build_agent_outcomes(
    configs: &[RunAgentsAgentRunConfig],
    outcomes: Vec<RunAgentsAgentOutcomeKind>,
    batch_model_id: &str,
) -> (r: Vec<RunAgentsAgentOutcome>)
    ensures
        r@.len() == if configs@.len() < outcomes@.len() {
            configs@.len()
        } else {
            outcomes@.len()
        },
        forall|i: int|
            0 <= i < r@.len() ==> outcome_matches(
                configs@[i],
                outcomes@[i],
                batch_model_id@,
                #[trigger] r@[i],
            ),
{
    let ghost kinds = outcomes@;
    let mut rest = outcomes;
    let n = if configs.len() < rest.len() {
        configs.len()
    } else {
        rest.len()
    };
    let mut out: Vec<RunAgentsAgentOutcome> = Vec::new();
    let mut i: usize = 0;
    while i < n
        invariant
            n <= configs@.len(),
            n <= kinds.len(),
            i <= n,
            rest@ == kinds.skip(i as int),
            out@.len() == i,
            forall|j: int|
                0 <= j < i ==> outcome_matches(configs@[j], kinds[j], batch_model_id@, #[trigger] out@[j]),
        decreases n - i,
    {
        let kind = rest.remove(0);
        let config = &configs[i];
        let resolved_model_id = if is_blank(config.model_id.as_str()) {
            String::from_str(batch_model_id)
        } else {
            config.model_id.clone()
        };
        out.push(RunAgentsAgentOutcome { name: config.name.clone(), kind, resolved_model_id });
        i = i + 1;
    }
    out
}

/// Where the children of a batch run.
#[derive(Debug, Clone, Copy, PartialEq, Eq, Structural)]
pub enum RunAgentsExecutionMode {
    Local,
}

/// A request to run a batch of child agents.
#[derive(Debug, Clone, PartialEq, Eq)]
pub struct RunAgentsRequest {
    pub summary: String,
    /// The prompt shared by every child.
    pub base_prompt: String,
    /// The model of the batch (empty or blank for the default).
    pub model_id: String,
    /// The harness of the batch (empty, blank or `oz` for the built-in one).
    pub harness_type: String,
    pub execution_mode: RunAgentsExecutionMode,
    pub agent_run_configs: Vec<RunAgentsAgentRunConfig>,
    /// The plan whose orchestration configuration applies, if any.
    pub plan_id: String,
    pub harness_auth_secret_name: Option<String>,
}

/// Where the children of a launched batch ran.
#[derive(Debug, Clone, Copy, PartialEq, Eq, Structural)]
pub enum RunAgentsLaunchedExecutionMode {
    Local,
}

/// The agent's result for a batch.
#[derive(Debug, Clone, PartialEq, Eq)]
pub enum RunAgentsResult {
    Launched {
        model_id: String,
        harness_type: String,
        execution_mode: RunAgentsLaunchedExecutionMode,
        agents: Vec<RunAgentsAgentOutcome>,
    },
    Denied { reason: String },
    Failure { error: String },
    Cancelled,
}

/// A launch mode by its views: the harness and the model, each optional.
pub open spec fn mode_view(mode: StartAgentExecutionMode) -> (Option<Seq<char>>, Option<Seq<char>>) {
    match mode {
        StartAgentExecutionMode::Local { harness_type, model_id } => (opt_view(harness_type), opt_view(model_id)),
    }
}

/// The launch mode of each child of a batch. The model is the trimmed batch model, if not
/// blank. A blank harness or `oz` (in any case) is the built-in harness; any other (trimmed)
/// name must be available in the registry (`lookup` is the registry's answer for it), and a
/// name the registry does not know, or has switched off, is an error.
pub open spec fn start_mode_spec(harness_type: Seq<char>, model_id: Seq<char>, lookup: HarnessLookup) -> Result<
    (Option<Seq<char>>, Option<Seq<char>>),
    Seq<char>,
> {
    let model = if trim(model_id).len() == 0 {
        None
    } else {
        Some(trim(model_id))
    };
    let h = trim(harness_type);
    if h.len() == 0 || eq_ignore_ascii_case_spec(h, "oz"@) {
        Ok((None, model))
    } else {
        match lookup {
            HarnessLookup::Unsupported => Err("Unsupported local child harness '"@ + h + "'."@),
            HarnessLookup::Disabled(m) => Err(m@),
            HarnessLookup::Available(name) => Ok((Some(name@), model)),
        }
    }
}

/// The launch mode of the children of a batch; see [`start_mode_spec`].
pub fn run_agents_to_start_agent_mode(
    execution_mode: &RunAgentsExecutionMode,
    harness_type: &str,
    model_id: &str,
    lookup: &HarnessLookup,
) -> (r: Result<StartAgentExecutionMode, String>)
    ensures
        match r {
            Ok(m) => start_mode_spec(harness_type@, model_id@, *lookup) == Ok::<
                (Option<Seq<char>>, Option<Seq<char>>),
                Seq<char>,
            >(mode_view(m)),
            Err(e) => start_mode_spec(harness_type@, model_id@, *lookup) == Err::<
                (Option<Seq<char>>, Option<Seq<char>>),
                Seq<char>,
            >(e@),
        },
{
    match execution_mode {
        RunAgentsExecutionMode::Local => {
            let trimmed_model = trim_str(model_id);
            let model = if trimmed_model.unicode_len() == 0 {
                None
            } else {
                Some(String::from_str(trimmed_model))
            };
            let harness = trim_str(harness_type);
            let oz = "oz";
            proof {
                reveal_strlit("oz");
            }
            if harness.unicode_len() == 0 || eq_ignore_ascii_case(harness, oz) {
                return Ok(StartAgentExecutionMode::Local { harness_type: None, model_id: model });
            }
            match lookup {
                HarnessLookup::Unsupported => {
                    let mut message = String::from_str("Unsupported local child harness '");
                    message.append(harness);
                    message.append("'.");
                    Err(message)
                },
                HarnessLookup::Disabled(message) => Err(message.clone()),
                HarnessLookup::Available(name) => Ok(
                    StartAgentExecutionMode::Local { harness_type: Some(name.clone()), model_id: model },
                ),
            }
        },
    }
}

/// Whether a batch can be dispatched: it needs at least one child, and a launch mode.
pub open spec fn validate_spec(request: RunAgentsRequest, lookup: HarnessLookup) -> Result<
    (Option<Seq<char>>, Option<Seq<char>>),
    Seq<char>,
> {
    if request.agent_run_configs@.len() == 0 {
        Err("orchestrate: empty agent_run_configs"@)
    } else {
        start_mode_spec(request.harness_type@, request.model_id@, lookup)
    }
}

/// Checks a batch before dispatch; see [`validate_spec`].
pub fn validate_request(request: &RunAgentsRequest, lookup: &HarnessLookup) -> (r: Result<(), String>)
    ensures
        r is Ok <==> validate_spec(*request, *lookup) is Ok,
        r matches Err(e) ==> validate_spec(*request, *lookup) == Err::<
            (Option<Seq<char>>, Option<Seq<char>>),
            Seq<char>,
        >(e@),
{
    if request.agent_run_configs.len() == 0 {
        return Err(String::from_str("orchestrate: empty agent_run_configs"));
    }
    match run_agents_to_start_agent_mode(
        &request.execution_mode,
        request.harness_type.as_str(),
        request.model_id.as_str(),
        lookup,
    ) {
        Ok(_) => Ok(()),
        Err(e) => Err(e),
    }
}

/// How waiting for one child's launch ended.
#[derive(Debug, Clone, PartialEq, Eq)]
pub enum ChildLaunchResult {
    /// The pane answered.
    Answered(StartAgentOutcome),
    /// The pane went away without answering.
    Dropped,
    /// No answer came within `SPAWN_TIMEOUT_SECS`.
    TimedOut,
}

/// How long, in seconds, a child may take to start.
pub const SPAWN_TIMEOUT_SECS: u64 = 30;

/// The outcome recorded for one child: launched with the id the pane gave, or failed with
/// the pane's error, with "Cancelled before launch" when the pane went away, or with a
/// timeout message.
pub fn child_outcome(result: ChildLaunchResult) -> (r: RunAgentsAgentOutcomeKind)
    ensures
        match result {
            ChildLaunchResult::Answered(StartAgentOutcome::Started { agent_id }) => r
                == (RunAgentsAgentOutcomeKind::Launched { agent_id }),
            ChildLaunchResult::Answered(StartAgentOutcome::Error(error)) => r
                == (RunAgentsAgentOutcomeKind::Failed { error }),
            ChildLaunchResult::Dropped => r matches RunAgentsAgentOutcomeKind::Failed { error }
                && error@ == "Cancelled before launch"@,
            ChildLaunchResult::TimedOut => r matches RunAgentsAgentOutcomeKind::Failed { error }
                && error@
                == "Agent failed to start within 30 seconds. The local harness binary may not be installed."@,
        },
{
    match result {
        ChildLaunchResult::Answered(StartAgentOutcome::Started { agent_id }) => {
            RunAgentsAgentOutcomeKind::Launched { agent_id }
        },
        ChildLaunchResult::Answered(StartAgentOutcome::Error(error)) => {
            RunAgentsAgentOutcomeKind::Failed { error }
        },
        ChildLaunchResult::Dropped => RunAgentsAgentOutcomeKind::Failed {
            error: String::from_str("Cancelled before launch"),
        },
        ChildLaunchResult::TimedOut => RunAgentsAgentOutcomeKind::Failed {
            error: String::from_str(
                "Agent failed to start within 30 seconds. The local harness binary may not be installed.",
            ),
        },
    }
}

/// A child that the executor launched, as it is remembered.
#[derive(Debug, Clone, PartialEq, Eq)]
pub struct ExistingLaunchedAgent {
    pub name: String,
    pub agent_id: String,
}

/// A launched child filed under its parent conversation and its normalised name.
#[derive(Debug, Clone, PartialEq, Eq)]
pub struct LaunchRecord {
    pub conversation_id: String,
    pub key: String,
    pub agent: ExistingLaunchedAgent,
}

/// The children launched so far, keyed by (conversation, normalised name); a later record of
/// the same key replaces an earlier one.
pub open spec fn records_map(rs: Seq<LaunchRecord>) -> Map<(Seq<char>, Seq<char>), (Seq<char>, Seq<char>)>
    decreases rs.len(),
{
    if rs.len() == 0 {
        Map::empty()
    } else {
        let r = rs.last();
        records_map(rs.drop_last()).insert(
            (r.conversation_id@, r.key@),
            (r.agent.name@, r.agent.agent_id@),
        )
    }
}

/// `m` after recording the launched children among `agents` of conversation `conv`, in order:
/// each child that launched and has a name is filed under its normalised name.
pub open spec fn record_all(
    m: Map<(Seq<char>, Seq<char>), (Seq<char>, Seq<char>)>,
    conv: Seq<char>,
    agents: Seq<RunAgentsAgentOutcome>,
) -> Map<(Seq<char>, Seq<char>), (Seq<char>, Seq<char>)>
    decreases agents.len(),
{
    if agents.len() == 0 {
        m
    } else {
        let m2 = record_all(m, conv, agents.drop_last());
        let a = agents.last();
        match (a.kind, normalized_name_spec(a.name@)) {
            (RunAgentsAgentOutcomeKind::Launched { agent_id }, Some(k)) => m2.insert(
                (conv, k),
                (a.name@, agent_id@),
            ),
            _ => m2,
        }
    }
}

/// The first child among `history` that launched under normalised name `key`.
pub open spec fn first_history_match(history: Seq<RunAgentsAgentOutcome>, key: Seq<char>) -> Option<
    (Seq<char>, Seq<char>),
>
    decreases history.len(),
{
    if history.len() == 0 {
        None
    } else {
        let a = history[0];
        match a.kind {
            RunAgentsAgentOutcomeKind::Launched { agent_id } => if normalized_name_spec(a.name@) == Some(
                key,
            ) {
                Some((a.name@, agent_id@))
            } else {
                first_history_match(history.drop_first(), key)
            },
            _ => first_history_match(history.drop_first(), key),
        }
    }
}

/// The child already launched under normalised name `key` in conversation `conv`: the one
/// this executor recorded, else the first that the conversation's history reports.
pub open spec fn existing_lookup(
    m: Map<(Seq<char>, Seq<char>), (Seq<char>, Seq<char>)>,
    conv: Seq<char>,
    history: Seq<RunAgentsAgentOutcome>,
    key: Seq<char>,
) -> Option<(Seq<char>, Seq<char>)> {
    if m.contains_key((conv, key)) {
        Some(m[(conv, key)])
    } else {
        first_history_match(history, key)
    }
}

/// The normalised names of the children of a batch, if none is blank.
pub open spec fn requested_keys(configs: Seq<RunAgentsAgentRunConfig>) -> Option<Seq<Seq<char>>>
    decreases configs.len(),
{
    if configs.len() == 0 {
        Some(Seq::empty())
    } else {
        match (requested_keys(configs.drop_last()), normalized_name_spec(configs.last().name@)) {
            (Some(ks), Some(k)) => Some(ks.push(k)),
            _ => None,
        }
    }
}

/// The children already launched under each of `keys`, if every one of them has been.
pub open spec fn duplicates_of(
    m: Map<(Seq<char>, Seq<char>), (Seq<char>, Seq<char>)>,
    conv: Seq<char>,
    history: Seq<RunAgentsAgentOutcome>,
    keys: Seq<Seq<char>>,
) -> Option<Seq<(Seq<char>, Seq<char>)>>
    decreases keys.len(),
{
    if keys.len() == 0 {
        Some(Seq::empty())
    } else {
        match (duplicates_of(m, conv, history, keys.drop_last()), existing_lookup(m, conv, history, keys.last())) {
            (Some(ds), Some(d)) => Some(ds.push(d)),
            _ => None,
        }
    }
}

/// `name (agent id)`.
pub open spec fn duplicate_entry(d: (Seq<char>, Seq<char>)) -> Seq<char> {
    d.0 + " ("@ + d.1 + ")"@
}

/// The entries joined by `, `.
pub open spec fn join_entries(ds: Seq<(Seq<char>, Seq<char>)>) -> Seq<char>
    decreases ds.len(),
{
    if ds.len() == 0 {
        Seq::empty()
    } else if ds.len() == 1 {
        duplicate_entry(ds[0])
    } else {
        join_entries(ds.drop_last()) + ", "@ + duplicate_entry(ds.last())
    }
}

/// Why a batch would launch children a second time: when every child it asks for (none with
/// a blank name, at least one) has already been launched in the conversation, the message
/// lists them; otherwise there is none.
pub open spec fn duplicate_reason_spec(
    m: Map<(Seq<char>, Seq<char>), (Seq<char>, Seq<char>)>,
    conv: Seq<char>,
    history: Seq<RunAgentsAgentOutcome>,
    configs: Seq<RunAgentsAgentRunConfig>,
) -> Option<Seq<char>> {
    match requested_keys(configs) {
        None => None,
        Some(keys) => if keys.len() == 0 {
            None
        } else {
            match duplicates_of(m, conv, history, keys) {
                None => None,
                Some(ds) => Some(
                    "Requested agent(s) have already been launched: "@ + join_entries(ds)
                        + ". Duplicate launch rejected."@,
                ),
            }
        },
    }
}

proof fn lemma_records_map_push(rs: Seq<LaunchRecord>, r: LaunchRecord)
    ensures
        records_map(rs.push(r)) == records_map(rs).insert(
            (r.conversation_id@, r.key@),
            (r.agent.name@, r.agent.agent_id@),
        ),
{
    assert(rs.push(r).drop_last() =~= rs);
}

/// Records after index `i` that do not file key `k` leave its entry as it was at `i`.
proof fn lemma_records_map_suffix(rs: Seq<LaunchRecord>, i: int, k: (Seq<char>, Seq<char>))
    requires
        0 <= i <= rs.len(),
        forall|j: int| i <= j < rs.len() ==> (#[trigger] rs[j].conversation_id@, rs[j].key@) != k,
    ensures
        records_map(rs).contains_key(k) == records_map(rs.take(i)).contains_key(k),
        records_map(rs).contains_key(k) ==> records_map(rs)[k] == records_map(rs.take(i))[k],
    decreases rs.len() - i,
{
    if i < rs.len() {
        let rest = rs.drop_last();
        assert(rest.take(i) =~= rs.take(i));
        assert forall|j: int| i <= j < rest.len() implies (#[trigger] rest[j].conversation_id@, rest[j].key@) != k by {
            assert(rest[j] == rs[j]);
        }
        lemma_records_map_suffix(rest, i, k);
    } else {
        assert(rs.take(i) =~= rs);
    }
}

/// The state of the batch executor: the batches being spawned, by action id, and the children
/// launched so far.
pub struct RunAgentsExecutor {
    pending: Vec<String>,
    launched_agents: Vec<LaunchRecord>,
}

impl RunAgentsExecutor {
    /// Whether the batch of action `id` is being spawned.
    pub closed spec fn is_pending_spec(&self, id: Seq<char>) -> bool {
        exists|i: int| 0 <= i < self.pending@.len() && #[trigger] self.pending@[i]@ == id
    }

    /// The children launched so far, by (conversation, normalised name).
    pub closed spec fn launched_map(&self) -> Map<(Seq<char>, Seq<char>), (Seq<char>, Seq<char>)> {
        records_map(self.launched_agents@)
    }

    /// No batch is listed twice.
    pub closed spec fn wf(&self) -> bool {
        forall|i: int, j: int|
            0 <= i < j < self.pending@.len() ==> #[trigger] self.pending@[i]@ != #[trigger] self.pending@[j]@
    }

    /// An executor with nothing pending and nothing launched.
    pub fn new() -> (r: Self)
        ensures
            r.wf(),
            forall|id: Seq<char>| !r.is_pending_spec(id),
            r.launched_map() == Map::<(Seq<char>, Seq<char>), (Seq<char>, Seq<char>)>::empty(),
    {
        RunAgentsExecutor { pending: Vec::new(), launched_agents: Vec::new() }
    }

    fn pending_index(&self, action_id: &str) -> (r: Option<usize>)
        ensures
            match r {
                Some(i) => i < self.pending@.len() && self.pending@[i as int]@ == action_id@,
                None => !self.is_pending_spec(action_id@),
            },
    {
        let mut i: usize = 0;
        while i < self.pending.len()
            invariant
                i <= self.pending@.len(),
                forall|j: int| 0 <= j < i ==> self.pending@[j]@ != action_id@,
            decreases self.pending@.len() - i,
        {
            if str_eq(self.pending[i].as_str(), action_id) {
                return Some(i);
            }
            i = i + 1;
        }
        None
    }

    /// Whether the batch of this action is being spawned.
    pub fn is_pending(&self, action_id: &str) -> (r: bool)
        ensures
            r == self.is_pending_spec(action_id@),
    {
        self.pending_index(action_id).is_some()
    }

    fn remove_pending(&mut self, action_id: &str) -> (r: bool)
        requires
            old(self).wf(),
        ensures
            final(self).wf(),
            r == old(self).is_pending_spec(action_id@),
            forall|x: Seq<char>| #[trigger] final(self).is_pending_spec(x) == (old(self).is_pending_spec(x) && x != action_id@),
            final(self).launched_map() == old(self).launched_map(),
    {
        match self.pending_index(action_id) {
            None => {
                assert forall|x: Seq<char>| #[trigger] self.is_pending_spec(x) == (old(self).is_pending_spec(x) && x != action_id@) by {}
                false
            },
            Some(k) => {
                let ghost before = self.pending@;
                self.pending.remove(k);
                let ghost after = self.pending@;
                assert(forall|j: int| 0 <= j < after.len() ==> after[j] == before[if j < k { j } else { j + 1 }]);
                assert forall|x: Seq<char>| #[trigger] self.is_pending_spec(x) == (old(self).is_pending_spec(x) && x != action_id@) by {
                    if old(self).is_pending_spec(x) && x != action_id@ {
                        let j = choose|j: int| 0 <= j < before.len() && #[trigger] before[j]@ == x;
                        assert(j != k);
                        let j2 = if j < k { j } else { j - 1 };
                        assert(after[j2]@ == x);
                    }
                    if self.is_pending_spec(x) {
                        let j = choose|j: int| 0 <= j < after.len() && #[trigger] after[j]@ == x;
                        let j1 = if j < k { j } else { j + 1 };
                        assert(before[j1]@ == x);
                        assert(j1 != k);
                    }
                }
                true
            },
        }
    }

    /// Drops the batch of this action, if it is being spawned; the answer says whether it was,
    /// in which case spawning is reported finished.
    pub fn cancel_execution(&mut self, action_id: &str) -> (r: bool)
        requires
            old(self).wf(),
        ensures
            final(self).wf(),
            r == old(self).is_pending_spec(action_id@),
            forall|x: Seq<char>| #[trigger] final(self).is_pending_spec(x) == (old(self).is_pending_spec(x) && x != action_id@),
            final(self).launched_map() == old(self).launched_map(),
    {
        self.remove_pending(action_id)
    }

    /// Starts spawning the batch of this action. A batch already being spawned is answered as
    /// cancelled, and one that fails [`validate_spec`] as a failure; either way nothing
    /// changes. Otherwise the batch becomes pending, and the launches to hand to the panes
    /// are returned in order, one per child: its name, its prompt (see
    /// [`child_prompt_spec`]) and the batch's launch mode.
    pub fn begin_dispatch(&mut self, action_id: String, request: &RunAgentsRequest, lookup: &HarnessLookup) -> (r:
        Result<(RunAgentsSpawningSnapshot, Vec<StartAgentLaunch>), RunAgentsResult>)
        requires
            old(self).wf(),
        ensures
            final(self).wf(),
            final(self).launched_map() == old(self).launched_map(),
            old(self).is_pending_spec(action_id@) ==> r == Err::<
                (RunAgentsSpawningSnapshot, Vec<StartAgentLaunch>),
                RunAgentsResult,
            >(RunAgentsResult::Cancelled),
            !old(self).is_pending_spec(action_id@) ==> match validate_spec(*request, *lookup) {
                Err(e) => r matches Err(RunAgentsResult::Failure { error }) && error@ == e,
                Ok(mode) => r matches Ok((snapshot, launches)) && snapshot.agent_count
                    == request.agent_run_configs@.len() && launches@.len()
                    == request.agent_run_configs@.len() && forall|i: int|
                    0 <= i < launches@.len() ==> {
                        &&& (#[trigger] launches@[i]).name == request.agent_run_configs@[i].name
                        &&& launches@[i].prompt@ == child_prompt_spec(
                            request.base_prompt@,
                            request.agent_run_configs@[i].prompt@,
                        )
                        &&& mode_view(launches@[i].execution_mode) == mode
                    },
            },
            forall|x: Seq<char>| #[trigger] final(self).is_pending_spec(x) == (old(self).is_pending_spec(x) || (
            x == action_id@ && r is Ok)),
    {
        if self.is_pending(action_id.as_str()) {
            return Err(RunAgentsResult::Cancelled);
        }
        if let Err(error) = validate_request(request, lookup) {
            return Err(RunAgentsResult::Failure { error });
        }
        let mode = match run_agents_to_start_agent_mode(
            &request.execution_mode,
            request.harness_type.as_str(),
            request.model_id.as_str(),
            lookup,
        ) {
            Ok(m) => m,
            Err(error) => return Err(RunAgentsResult::Failure { error }),
        };
        let ghost old_pending = self.pending@;
        self.pending.push(action_id);
        assert forall|x: Seq<char>| #[trigger] self.is_pending_spec(x) == (old(self).is_pending_spec(x) || x == self.pending@.last()@) by {
            if old(self).is_pending_spec(x) {
                let j = choose|j: int| 0 <= j < old_pending.len() && #[trigger] old_pending[j]@ == x;
                assert(self.pending@[j]@ == x);
            }
            if x == self.pending@.last()@ {
                assert(self.pending@[self.pending@.len() - 1]@ == x);
            }
            if self.is_pending_spec(x) {
                let j = choose|j: int| 0 <= j < self.pending@.len() && #[trigger] self.pending@[j]@ == x;
                if j < old_pending.len() {
                    assert(old_pending[j]@ == x);
                }
            }
        }
        let configs = &request.agent_run_configs;
        let mut launches: Vec<StartAgentLaunch> = Vec::new();
        let mut i: usize = 0;
        while i < configs.len()
            invariant
                i <= configs@.len(),
                launches@.len() == i,
                forall|j: int|
                    0 <= j < i ==> {
                        &&& (#[trigger] launches@[j]).name == configs@[j].name
                        &&& launches@[j].prompt@ == child_prompt_spec(
                            request.base_prompt@,
                            configs@[j].prompt@,
                        )
                        &&& mode_view(launches@[j].execution_mode) == mode_view(mode)
                    },
            decreases configs@.len() - i,
        {
            let config = &configs[i];
            let prompt = compose_run_agents_child_prompt(
                request.base_prompt.as_str(),
                config.prompt.as_str(),
            );
            let child_mode = copy_start_mode(&mode);
            launches.push(StartAgentLaunch { name: config.name.clone(), prompt, execution_mode: child_mode });
            i = i + 1;
        }
        Ok((RunAgentsSpawningSnapshot { agent_count: configs.len() }, launches))
    }

    /// Records the children of `agents` that launched, under conversation `conversation_id`
    /// and their normalised names; see [`record_all`].
    pub fn record_launched_agents(&mut self, conversation_id: &str, agents: &[RunAgentsAgentOutcome])
        requires
            old(self).wf(),
        ensures
            final(self).wf(),
            forall|x: Seq<char>| #[trigger] final(self).is_pending_spec(x) == old(self).is_pending_spec(x),
            final(self).launched_map() == record_all(old(self).launched_map(), conversation_id@, agents@),
    {
        let ghost m0 = records_map(self.launched_agents@);
        let mut i: usize = 0;
        while i < agents.len()
            invariant
                i <= agents@.len(),
                self.pending@ == old(self).pending@,
                m0 == records_map(old(self).launched_agents@),
                records_map(self.launched_agents@) == record_all(m0, conversation_id@, agents@.take(i as int)),
            decreases agents@.len() - i,
        {
            let agent = &agents[i];
            proof {
                assert(agents@.take(i + 1).drop_last() =~= agents@.take(i as int));
                assert(agents@.take(i + 1).last() == agents@[i as int]);
            }
            match &agent.kind {
                RunAgentsAgentOutcomeKind::Launched { agent_id } => {
                    match normalize_agent_name(agent.name.as_str()) {
                        Some(key) => {
                            let rec = LaunchRecord {
                                conversation_id: String::from_str(conversation_id),
                                key,
                                agent: ExistingLaunchedAgent {
                                    name: agent.name.clone(),
                                    agent_id: agent_id.clone(),
                                },
                            };
                            proof {
                                lemma_records_map_push(self.launched_agents@, rec);
                            }
                            self.launched_agents.push(rec);
                        },
                        None => {},
                    }
                },
                RunAgentsAgentOutcomeKind::Failed { .. } => {},
            }
            i = i + 1;
        }
        proof {
            assert(agents@.take(agents@.len() as int) =~= agents@);
        }
    }

    /// Ends the spawning of the batch of this action with the children's outcomes, in the
    /// order of `configs`. A batch that is no longer pending (cancelled, or already ended)
    /// gets no result and changes nothing. Otherwise it stops being pending, its launched
    /// children are recorded, and the result lists every child's outcome (see
    /// [`build_agent_outcomes`]) with the batch's model and harness.
    pub fn finish_dispatch(
        &mut self,
        action_id: &str,
        conversation_id: &str,
        configs: &[RunAgentsAgentRunConfig],
        outcomes: Vec<RunAgentsAgentOutcomeKind>,
        model_id: String,
        harness_type: String,
    ) -> (r: Option<RunAgentsResult>)
        requires
            old(self).wf(),
        ensures
            final(self).wf(),
            r is Some <==> old(self).is_pending_spec(action_id@),
            forall|x: Seq<char>| #[trigger] final(self).is_pending_spec(x) == (old(self).is_pending_spec(x) && x != action_id@),
            r is None ==> final(self).launched_map() == old(self).launched_map(),
            r matches Some(res) ==> {
                &&& res matches RunAgentsResult::Launched { model_id: m, harness_type: h, execution_mode, agents }
                &&& m == model_id
                &&& h == harness_type
                &&& execution_mode == RunAgentsLaunchedExecutionMode::Local
                &&& agents@.len() == if configs@.len() < outcomes@.len() {
                    configs@.len()
                } else {
                    outcomes@.len()
                }
                &&& forall|i: int|
                    0 <= i < agents@.len() ==> outcome_matches(
                        configs@[i],
                        outcomes@[i],
                        model_id@,
                        #[trigger] agents@[i],
                    )
                &&& final(self).launched_map() == record_all(old(self).launched_map(), conversation_id@, agents@)
            },
    {
        if !self.remove_pending(action_id) {
            return None;
        }
        let agents = build_agent_outcomes(configs, outcomes, model_id.as_str());
        self.record_launched_agents(conversation_id, agents.as_slice());
        Some(
            RunAgentsResult::Launched {
                model_id,
                harness_type,
                execution_mode: RunAgentsLaunchedExecutionMode::Local,
                agents,
            },
        )
    }
    /// The child already launched under normalised name `key` in this conversation; see
    /// [`existing_lookup`]. `history` lists the children that the conversation's earlier
    /// results report.
    pub fn existing_launched_agent(
        &self,
        conversation_id: &str,
        history: &[RunAgentsAgentOutcome],
        key: &str,
    ) -> (r: Option<ExistingLaunchedAgent>)
        ensures
            match r {
                Some(a) => existing_lookup(self.launched_map(), conversation_id@, history@, key@)
                    == Some((a.name@, a.agent_id@)),
                None => existing_lookup(self.launched_map(), conversation_id@, history@, key@) is None,
            },
    {
        let ghost k = (conversation_id@, key@);
        let rs = &self.launched_agents;
        let mut i: usize = rs.len();
        while i > 0
            invariant
                i <= rs@.len(),
                k == (conversation_id@, key@),
                rs@ == self.launched_agents@,
                forall|j: int| i <= j < rs@.len() ==> (#[trigger] rs@[j].conversation_id@, rs@[j].key@) != k,
            decreases i,
        {
            let rec = &rs[i - 1];
            let same_conv = str_eq(rec.conversation_id.as_str(), conversation_id);
            let same_key = str_eq(rec.key.as_str(), key);
            if same_conv && same_key {
                proof {
                    lemma_records_map_suffix(rs@, i as int, k);
                    let pre = rs@.take(i as int);
                    assert(pre.drop_last() =~= rs@.take(i - 1));
                    assert(pre.last() == rs@[i - 1]);
                    assert((pre.last().conversation_id@, pre.last().key@) == k);
                    assert(records_map(pre) == records_map(pre.drop_last()).insert(
                        k,
                        (pre.last().agent.name@, pre.last().agent.agent_id@),
                    ));
                    assert(records_map(pre).contains_key(k));
                }
                return Some(
                    ExistingLaunchedAgent {
                        name: rec.agent.name.clone(),
                        agent_id: rec.agent.agent_id.clone(),
                    },
                );
            }
            assert((rs@[i - 1].conversation_id@, rs@[i - 1].key@) != k);
            i = i - 1;
        }
        proof {
            lemma_records_map_suffix(rs@, 0, k);
            assert(rs@.take(0) =~= Seq::<LaunchRecord>::empty());
            assert(history@.skip(0) =~= history@);
        }
        let mut h: usize = 0;
        while h < history.len()
            invariant
                h <= history@.len(),
                !self.launched_map().contains_key((conversation_id@, key@)),
                first_history_match(history@, key@) == first_history_match(history@.skip(h as int), key@),
            decreases history@.len() - h,
        {
            let a = &history[h];
            proof {
                assert(history@.skip(h as int).drop_first() =~= history@.skip(h + 1));
                assert(history@.skip(h as int)[0] == history@[h as int]);
            }
            match &a.kind {
                RunAgentsAgentOutcomeKind::Launched { agent_id } => {
                    match normalize_agent_name(a.name.as_str()) {
                        Some(n) => {
                            if str_eq(n.as_str(), key) {
                                return Some(
                                    ExistingLaunchedAgent {
                                        name: a.name.clone(),
                                        agent_id: agent_id.clone(),
                                    },
                                );
                            }
                        },
                        None => {},
                    }
                },
                RunAgentsAgentOutcomeKind::Failed { .. } => {},
            }
            h = h + 1;
        }
        proof {
            assert(history@.skip(history@.len() as int) =~= Seq::<RunAgentsAgentOutcome>::empty());
        }
        None
    }

    /// Why a batch would launch children a second time in this conversation; see
    /// [`duplicate_reason_spec`].
    pub fn duplicate_launched_agents_reason(
        &self,
        request: &RunAgentsRequest,
        conversation_id: &str,
        history: &[RunAgentsAgentOutcome],
    ) -> (r: Option<String>)
        ensures
            opt_view(r) == duplicate_reason_spec(
                self.launched_map(),
                conversation_id@,
                history@,
                request.agent_run_configs@,
            ),
    {
        let configs = &request.agent_run_configs;
        let mut keys: Vec<String> = Vec::new();
        let ghost mut ks: Seq<Seq<char>> = Seq::empty();
        let mut i: usize = 0;
        proof {
            assert(configs@.take(0) =~= Seq::<RunAgentsAgentRunConfig>::empty());
        }
        while i < configs.len()
            invariant
                i <= configs@.len(),
                configs@ == request.agent_run_configs@,
                keys@.len() == i,
                ks.len() == i,
                forall|t: int| 0 <= t < i ==> ks[t] == (#[trigger] keys@[t])@,
                requested_keys(configs@.take(i as int)) == Some(ks),
            decreases configs@.len() - i,
        {
            proof {
                assert(configs@.take(i + 1).drop_last() =~= configs@.take(i as int));
                assert(configs@.take(i + 1).last() == configs@[i as int]);
            }
            match normalize_agent_name(configs[i].name.as_str()) {
                Some(k) => {
                    proof {
                        ks = ks.push(k@);
                    }
                    keys.push(k);
                },
                None => {
                    proof {
                        lemma_requested_keys_none_extends(configs@, i as int + 1);
                    }
                    return None;
                },
            }
            i = i + 1;
        }
        proof {
            assert(configs@.take(configs@.len() as int) =~= configs@);
        }
        if keys.len() == 0 {
            return None;
        }
        let ghost m = self.launched_map();
        let mut list = String::new();
        let ghost mut ds: Seq<(Seq<char>, Seq<char>)> = Seq::empty();
        let mut j: usize = 0;
        while j < keys.len()
            invariant
                j <= keys@.len(),
                ks.len() == keys@.len(),
                forall|t: int| 0 <= t < keys@.len() ==> ks[t] == (#[trigger] keys@[t])@,
                requested_keys(request.agent_run_configs@) == Some(ks),
                m == self.launched_map(),
                duplicates_of(m, conversation_id@, history@, ks.take(j as int)) == Some(ds),
                list@ == join_entries(ds),
                ds.len() == j,
            decreases keys@.len() - j,
        {
            proof {
                assert(ks.take(j + 1).drop_last() =~= ks.take(j as int));
                assert(ks.take(j + 1).last() == keys@[j as int]@);
            }
            match self.existing_launched_agent(conversation_id, history, keys[j].as_str()) {
                None => {
                    proof {
                        lemma_duplicates_of_none_extends(m, conversation_id@, history@, ks, j as int + 1);
                    }
                    return None;
                },
                Some(a) => {
                    let ghost d = (a.name@, a.agent_id@);
                    if j > 0 {
                        list.append(", ");
                    }
                    list.append(a.name.as_str());
                    list.append(" (");
                    list.append(a.agent_id.as_str());
                    list.append(")");
                    proof {
                        let ds2 = ds.push(d);
                        assert(ds2.drop_last() =~= ds);
                        if j == 0 {
                            assert(ds2.len() == 1);
                        }
                        ds = ds2;
                    }
                },
            }
            j = j + 1;
        }
        proof {
            assert(ks.take(keys@.len() as int) =~= ks);
        }
        let mut message = String::from_str("Requested agent(s) have already been launched: ");
        message.append(list.as_str());
        message.append(". Duplicate launch rejected.");
        Some(message)
    }
}

/// What the plan's configuration, if any, says of a batch: an approved local configuration
/// applies (its model and harness replace the batch's), an approved remote one is refused, and
/// otherwise its status is passed on.
pub open spec fn plan_outcome(plan: Option<(OrchestrationConfig, OrchestrationConfigStatus)>) -> Result<
    Option<OrchestrationConfigStatus>,
    Seq<char>,
> {
    match plan {
        None => Ok(None),
        Some((config, status)) => if status == OrchestrationConfigStatus::Approved {
            match config.execution_mode {
                OrchestrationExecutionMode::Local => Ok(Some(status)),
                OrchestrationExecutionMode::Remote { .. } => Err(
                    "Cloud child-agent execution is not available in Zap."@,
                ),
            }
        } else {
            Ok(Some(status))
        },
    }
}

/// Whether the plan's configuration replaces the model and harness of the batch.
pub open spec fn plan_applies(plan: Option<(OrchestrationConfig, OrchestrationConfigStatus)>) -> bool {
    plan matches Some((config, status)) && status == OrchestrationConfigStatus::Approved
        && config.execution_mode is Local
}

/// Applies an approved local configuration of the batch's plan (`plan` is the configuration
/// that the conversation holds for the request's plan, with its status); see
/// [`plan_outcome`] and [`plan_applies`].
pub fn apply_approved_local_plan_config(
    request: &mut RunAgentsRequest,
    plan: &Option<(OrchestrationConfig, OrchestrationConfigStatus)>,
) -> (r: Result<Option<OrchestrationConfigStatus>, String>)
    ensures
        match r {
            Ok(st) => plan_outcome(*plan) == Ok::<Option<OrchestrationConfigStatus>, Seq<char>>(st),
            Err(e) => plan_outcome(*plan) == Err::<Option<OrchestrationConfigStatus>, Seq<char>>(e@),
        },
        final(request).summary == old(request).summary,
        final(request).base_prompt == old(request).base_prompt,
        final(request).execution_mode == old(request).execution_mode,
        final(request).agent_run_configs == old(request).agent_run_configs,
        final(request).plan_id == old(request).plan_id,
        final(request).harness_auth_secret_name == old(request).harness_auth_secret_name,
        plan_applies(*plan) ==> (*plan matches Some((config, _)) && final(request).model_id
            == config.model_id && final(request).harness_type == config.harness_type),
        !plan_applies(*plan) ==> final(request).model_id == old(request).model_id
            && final(request).harness_type == old(request).harness_type,
{
    match plan {
        None => Ok(None),
        Some((config, status)) => {
            if status.is_approved() {
                match &config.execution_mode {
                    OrchestrationExecutionMode::Local => {
                        request.model_id = config.model_id.clone();
                        request.harness_type = config.harness_type.clone();
                    },
                    OrchestrationExecutionMode::Remote { .. } => {
                        return Err(
                            String::from_str("Cloud child-agent execution is not available in Zap."),
                        );
                    },
                }
            }
            Ok(Some(*status))
        },
    }
}

/// Why a batch is refused before it starts, checked in this order: the parent runs in an SSH
/// session (children launch in local panes); the plan's configuration is refused; every child
/// was launched before (see [`duplicate_reason_spec`]); and, unless the run is autonomous, the
/// plan's configuration was disapproved or the profile never allows child agents.
pub open spec fn prepare_reason_spec(
    m: Map<(Seq<char>, Seq<char>), (Seq<char>, Seq<char>)>,
    conv: Seq<char>,
    history: Seq<RunAgentsAgentOutcome>,
    configs: Seq<RunAgentsAgentRunConfig>,
    plan: Option<(OrchestrationConfig, OrchestrationConfigStatus)>,
    in_remote_session: bool,
    autonomous: bool,
    setting: RunAgentsPermission,
) -> Option<Seq<char>> {
    if in_remote_session {
        Some("Child agents launch in local panes and cannot be started from an SSH session."@)
    } else {
        match plan_outcome(plan) {
            Err(e) => Some(e),
            Ok(status) => match duplicate_reason_spec(m, conv, history, configs) {
                Some(d) => Some(d),
                None => if autonomous {
                    None
                } else if status == Some(OrchestrationConfigStatus::Disapproved) {
                    Some("Orchestration config was disapproved"@)
                } else if setting == RunAgentsPermission::NeverAllow || setting
                    == RunAgentsPermission::Unknown {
                    Some("Running child agents is disabled by the active execution profile."@)
                } else {
                    None
                },
            },
        }
    }
}

/// Whether a batch may go ahead without the confirmation card: in an autonomous run; when it
/// will be refused anyway (SSH session, refused configuration, duplicate); when its plan's
/// configuration was approved; or when the profile always allows child agents.
pub open spec fn autoexecute_spec(
    m: Map<(Seq<char>, Seq<char>), (Seq<char>, Seq<char>)>,
    conv: Seq<char>,
    history: Seq<RunAgentsAgentOutcome>,
    configs: Seq<RunAgentsAgentRunConfig>,
    plan: Option<(OrchestrationConfig, OrchestrationConfigStatus)>,
    in_remote_session: bool,
    autonomous: bool,
    setting: RunAgentsPermission,
) -> bool {
    ||| autonomous
    ||| in_remote_session
    ||| plan_outcome(plan) is Err
    ||| plan_outcome(plan) == Ok::<Option<OrchestrationConfigStatus>, Seq<char>>(
        Some(OrchestrationConfigStatus::Approved),
    )
    ||| duplicate_reason_spec(m, conv, history, configs) is Some
    ||| setting == RunAgentsPermission::AlwaysAllow
}

impl RunAgentsExecutor {
    /// Prepares a batch for execution: an approved local plan configuration is applied to it
    /// (see [`apply_approved_local_plan_config`]), and the answer is why it is refused, if it
    /// is; see [`prepare_reason_spec`].
    pub fn prepare_request_for_execution(
        &self,
        request: &mut RunAgentsRequest,
        conversation_id: &str,
        plan: &Option<(OrchestrationConfig, OrchestrationConfigStatus)>,
        history: &[RunAgentsAgentOutcome],
        in_remote_session: bool,
        autonomous: bool,
        setting: RunAgentsPermission,
    ) -> (r: Option<String>)
        ensures
            opt_view(r) == prepare_reason_spec(
                self.launched_map(),
                conversation_id@,
                history@,
                old(request).agent_run_configs@,
                *plan,
                in_remote_session,
                autonomous,
                setting,
            ),
            final(request).agent_run_configs == old(request).agent_run_configs,
            !in_remote_session && plan_applies(*plan) ==> (*plan matches Some((config, _))
                && final(request).model_id == config.model_id && final(request).harness_type
                == config.harness_type),
            in_remote_session || !plan_applies(*plan) ==> final(request).model_id == old(
                request,
            ).model_id && final(request).harness_type == old(request).harness_type,
    {
        if in_remote_session {
            return Some(
                String::from_str(
                    "Child agents launch in local panes and cannot be started from an SSH session.",
                ),
            );
        }
        let status = match apply_approved_local_plan_config(request, plan) {
            Ok(status) => status,
            Err(reason) => return Some(reason),
        };
        if let Some(reason) = self.duplicate_launched_agents_reason(request, conversation_id, history) {
            return Some(reason);
        }
        if autonomous {
            return None;
        }
        if let Some(st) = status {
            if st.is_disapproved() {
                return Some(String::from_str("Orchestration config was disapproved"));
            }
        }
        if setting.is_never_allow() {
            return Some(
                String::from_str("Running child agents is disabled by the active execution profile."),
            );
        }
        None
    }

    /// Whether a batch may go ahead without the confirmation card; see [`autoexecute_spec`].
    pub fn should_autoexecute(
        &self,
        request: &RunAgentsRequest,
        conversation_id: &str,
        plan: &Option<(OrchestrationConfig, OrchestrationConfigStatus)>,
        history: &[RunAgentsAgentOutcome],
        in_remote_session: bool,
        autonomous: bool,
        setting: RunAgentsPermission,
    ) -> (r: bool)
        ensures
            r == autoexecute_spec(
                self.launched_map(),
                conversation_id@,
                history@,
                request.agent_run_configs@,
                *plan,
                in_remote_session,
                autonomous,
                setting,
            ),
    {
        if autonomous || in_remote_session {
            return true;
        }
        let approved_or_refused = match plan {
            None => false,
            Some((_, status)) => status.is_approved(),
        };
        if approved_or_refused {
            return true;
        }
        if self.duplicate_launched_agents_reason(request, conversation_id, history).is_some() {
            return true;
        }
        setting.is_always_allow()
    }
}

/// Some child among `agents` launched under normalised name `key`.
pub open spec fn launched_under(agents: Seq<RunAgentsAgentOutcome>, key: Seq<char>) -> bool {
    exists|j: int|
        0 <= j < agents.len() && agents[j].kind is Launched && #[trigger] normalized_name_spec(
            agents[j].name@,
        ) == Some(key)
}

proof fn lemma_record_all_contains(
    m: Map<(Seq<char>, Seq<char>), (Seq<char>, Seq<char>)>,
    conv: Seq<char>,
    agents: Seq<RunAgentsAgentOutcome>,
    key: Seq<char>,
)
    requires
        launched_under(agents, key),
    ensures
        record_all(m, conv, agents).contains_key((conv, key)),
    decreases agents.len(),
{
    let j = choose|j: int|
        0 <= j < agents.len() && agents[j].kind is Launched && #[trigger] normalized_name_spec(
            agents[j].name@,
        ) == Some(key);
    let rest = agents.drop_last();
    if j < agents.len() - 1 {
        assert(rest[j] == agents[j]);
        assert(launched_under(rest, key));
        lemma_record_all_contains(m, conv, rest, key);
    }
}

proof fn lemma_requested_keys_some(configs: Seq<RunAgentsAgentRunConfig>)
    requires
        forall|i: int| 0 <= i < configs.len() ==> (#[trigger] normalized_name_spec(configs[i].name@)) is Some,
    ensures
        requested_keys(configs) matches Some(ks) && ks.len() == configs.len() && forall|i: int|
            0 <= i < configs.len() ==> Some(#[trigger] ks[i]) == normalized_name_spec(configs[i].name@),
    decreases configs.len(),
{
    if configs.len() > 0 {
        let rest = configs.drop_last();
        assert forall|i: int| 0 <= i < rest.len() implies (#[trigger] normalized_name_spec(rest[i].name@)) is Some by {
            assert(rest[i] == configs[i]);
        }
        lemma_requested_keys_some(rest);
        let ks = requested_keys(rest)->0;
        assert(normalized_name_spec(configs[configs.len() - 1].name@) is Some);
        let k = normalized_name_spec(configs.last().name@)->0;
        let ks2 = ks.push(k);
        assert forall|i: int| 0 <= i < configs.len() implies Some(#[trigger] ks2[i]) == normalized_name_spec(configs[i].name@) by {
            if i < rest.len() {
                assert(rest[i] == configs[i]);
                assert(ks2[i] == ks[i]);
            }
        }
    }
}

proof fn lemma_duplicates_of_some(
    m: Map<(Seq<char>, Seq<char>), (Seq<char>, Seq<char>)>,
    conv: Seq<char>,
    history: Seq<RunAgentsAgentOutcome>,
    keys: Seq<Seq<char>>,
)
    requires
        forall|i: int| 0 <= i < keys.len() ==> m.contains_key((conv, #[trigger] keys[i])),
    ensures
        duplicates_of(m, conv, history, keys) is Some,
    decreases keys.len(),
{
    if keys.len() > 0 {
        let rest = keys.drop_last();
        assert forall|i: int| 0 <= i < rest.len() implies m.contains_key((conv, #[trigger] rest[i])) by {
            assert(rest[i] == keys[i]);
        }
        lemma_duplicates_of_some(m, conv, history, rest);
        assert(m.contains_key((conv, keys[keys.len() - 1])));
    }
}

/// Once every child that a batch asks for has launched and been recorded in a conversation,
/// asking there again for children of the same names (up to surrounding whitespace and ASCII
/// case) is refused as a duplicate; a batch with no child, or with a blank name, is never
/// refused that way.
pub proof fn lemma_recorded_batch_is_duplicate(
    m: Map<(Seq<char>, Seq<char>), (Seq<char>, Seq<char>)>,
    conv: Seq<char>,
    history: Seq<RunAgentsAgentOutcome>,
    agents: Seq<RunAgentsAgentOutcome>,
    configs: Seq<RunAgentsAgentRunConfig>,
)
    requires
        configs.len() > 0,
        forall|i: int|
            0 <= i < configs.len() ==> ((#[trigger] normalized_name_spec(configs[i].name@)) matches Some(
                k,
            ) && launched_under(agents, k)),
    ensures
        duplicate_reason_spec(record_all(m, conv, agents), conv, history, configs) is Some,
{
    let m2 = record_all(m, conv, agents);
    lemma_requested_keys_some(configs);
    let ks = requested_keys(configs)->0;
    assert forall|i: int| 0 <= i < ks.len() implies m2.contains_key((conv, #[trigger] ks[i])) by {
        assert(Some(ks[i]) == normalized_name_spec(configs[i].name@));
        lemma_record_all_contains(m, conv, agents, ks[i]);
    }
    lemma_duplicates_of_some(m2, conv, history, ks);
}

/// Once one name of a batch is blank, the batch has no requested names.
proof fn lemma_requested_keys_none_extends(configs: Seq<RunAgentsAgentRunConfig>, i: int)
    requires
        0 < i <= configs.len(),
        requested_keys(configs.take(i)) is None,
    ensures
        requested_keys(configs) is None,
    decreases configs.len() - i,
{
    if i < configs.len() {
        assert(configs.take(i + 1).drop_last() =~= configs.take(i));
        lemma_requested_keys_none_extends(configs, i + 1);
    } else {
        assert(configs.take(i) =~= configs);
    }
}

/// Once one requested name has not been launched, the batch has no duplicates.
proof fn lemma_duplicates_of_none_extends(
    m: Map<(Seq<char>, Seq<char>), (Seq<char>, Seq<char>)>,
    conv: Seq<char>,
    history: Seq<RunAgentsAgentOutcome>,
    keys: Seq<Seq<char>>,
    i: int,
)
    requires
        0 < i <= keys.len(),
        duplicates_of(m, conv, history, keys.take(i)) is None,
    ensures
        duplicates_of(m, conv, history, keys) is None,
    decreases keys.len() - i,
{
    if i < keys.len() {
        assert(keys.take(i + 1).drop_last() =~= keys.take(i));
        lemma_duplicates_of_none_extends(m, conv, history, keys, i + 1);
    } else {
        assert(keys.take(i) =~= keys);
    }
}

/// A copy of a launch mode.
fn copy_start_mode(mode: &StartAgentExecutionMode) -> (r: StartAgentExecutionMode)
    ensures
        mode_view(r) == mode_view(*mode),
{
    match mode {
        StartAgentExecutionMode::Local { harness_type, model_id } => StartAgentExecutionMode::Local {
            harness_type: match harness_type {
                Some(h) => Some(h.clone()),
                None => None,
            },
            model_id: match model_id {
                Some(m) => Some(m.clone()),
                None => None,
            },
        },
    }
}

} // verus!
