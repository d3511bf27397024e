//! Execution profiles: the permissions, models and context-window limit that an agent runs
//! with, and how they read.
use vstd::prelude::*;
use vstd::string::*;

use crate::llm_catalog::{names_of, opt_str_view, LLMInfo};
use crate::llm_preferences::LLMPreferences;
use crate::llms::LLMProvider;
use crate::text::{all_ws, is_blank};

verus! {

/// Whether the agent may act on its own.
#[derive(Debug, Clone, Copy, PartialEq, Eq, Structural)]
pub enum ActionPermission {
    AgentDecides,
    AlwaysAllow,
    AlwaysAsk,
    /// A value written by a newer version.
    Unknown,
}

pub open spec fn action_permission_description(p: ActionPermission) -> Seq<char> {
    match p {
        ActionPermission::AgentDecides | ActionPermission::Unknown => "The Agent chooses the safest path: acting on its own when confident, and asking for approval when uncertain."@,
        ActionPermission::AlwaysAllow => "Give the Agent full autonomy  — no manual approval ever required."@,
        ActionPermission::AlwaysAsk => "Require explicit approval before the Agent takes any action."@,
    }
}

impl ActionPermission {
    pub fn description(&self) -> (r: &'static str)
        ensures
            r@ == action_permission_description(*self),
    {
        match self {
            ActionPermission::AgentDecides | ActionPermission::Unknown => "The Agent chooses the safest path: acting on its own when confident, and asking for approval when uncertain.",
            ActionPermission::AlwaysAllow => "Give the Agent full autonomy  — no manual approval ever required.",
            ActionPermission::AlwaysAsk => "Require explicit approval before the Agent takes any action.",
        }
    }

    pub fn is_always_ask(&self) -> (r: bool)
        ensures
            r == (*self == ActionPermission::AlwaysAsk),
    {
        matches!(self, ActionPermission::AlwaysAsk)
    }

    pub fn is_always_allow(&self) -> (r: bool)
        ensures
            r == (*self == ActionPermission::AlwaysAllow),
    {
        matches!(self, ActionPermission::AlwaysAllow)
    }
}

/// Whether the agent may write to a running command.
#[derive(Debug, Clone, Copy, PartialEq, Eq, Structural)]
pub enum WriteToPtyPermission {
    AlwaysAllow,
    AlwaysAsk,
    AskOnFirstWrite,
    Unknown,
}

impl Default for WriteToPtyPermission {
    fn default() -> (r: Self)
        ensures
            r == WriteToPtyPermission::AlwaysAsk,
    {
        WriteToPtyPermission::AlwaysAsk
    }
}

pub open spec fn write_to_pty_description(p: WriteToPtyPermission) -> Seq<char> {
    match p {
        WriteToPtyPermission::AlwaysAllow => action_permission_description(ActionPermission::AlwaysAllow),
        WriteToPtyPermission::AskOnFirstWrite => "The agent will ask for permission the first time it needs to interact with a running command. After that, it will continue automatically for the rest of that command."@,
        WriteToPtyPermission::AlwaysAsk => "The agent will always ask for permission to interact with a running command."@,
        WriteToPtyPermission::Unknown => action_permission_description(ActionPermission::Unknown),
    }
}

impl WriteToPtyPermission {
    pub fn description(&self) -> (r: &'static str)
        ensures
            r@ == write_to_pty_description(*self),
    {
        match self {
            WriteToPtyPermission::AlwaysAllow => ActionPermission::AlwaysAllow.description(),
            WriteToPtyPermission::AskOnFirstWrite => "The agent will ask for permission the first time it needs to interact with a running command. After that, it will continue automatically for the rest of that command.",
            WriteToPtyPermission::AlwaysAsk => "The agent will always ask for permission to interact with a running command.",
            WriteToPtyPermission::Unknown => ActionPermission::Unknown.description(),
        }
    }

    pub fn is_always_allow(&self) -> (r: bool)
        ensures
            r == (*self == WriteToPtyPermission::AlwaysAllow),
    {
        matches!(self, WriteToPtyPermission::AlwaysAllow)
    }
}

/// Whether the agent may use computer-use tools.
#[derive(Debug, Clone, Copy, PartialEq, Eq, Structural)]
pub enum ComputerUsePermission {
    Never,
    AlwaysAsk,
    AlwaysAllow,
    Unknown,
}

impl Default for ComputerUsePermission {
    fn default() -> (r: Self)
        ensures
            r == ComputerUsePermission::Never,
    {
        ComputerUsePermission::Never
    }
}

pub open spec fn computer_use_description(p: ComputerUsePermission) -> Seq<char> {
    match p {
        ComputerUsePermission::Never => "Computer use tools are disabled and will not be available to the Agent."@,
        ComputerUsePermission::AlwaysAsk => "Require explicit approval before the Agent uses computer use tools."@,
        ComputerUsePermission::AlwaysAllow => "Give the Agent full autonomy to use computer use tools without approval."@,
        ComputerUsePermission::Unknown => "Unknown setting."@,
    }
}

impl ComputerUsePermission {
    pub fn description(&self) -> (r: &'static str)
        ensures
            r@ == computer_use_description(*self),
    {
        match self {
            ComputerUsePermission::Never => "Computer use tools are disabled and will not be available to the Agent.",
            ComputerUsePermission::AlwaysAsk => "Require explicit approval before the Agent uses computer use tools.",
            ComputerUsePermission::AlwaysAllow => "Give the Agent full autonomy to use computer use tools without approval.",
            ComputerUsePermission::Unknown => "Unknown setting.",
        }
    }

    /// Enabled unless never allowed or unknown.
    pub fn is_enabled(&self) -> (r: bool)
        ensures
            r == !(*self == ComputerUsePermission::Never || *self == ComputerUsePermission::Unknown),
    {
        !matches!(self, ComputerUsePermission::Never | ComputerUsePermission::Unknown)
    }

    pub fn is_always_allow(&self) -> (r: bool)
        ensures
            r == (*self == ComputerUsePermission::AlwaysAllow),
    {
        matches!(self, ComputerUsePermission::AlwaysAllow)
    }
}

/// Whether the agent may pause to ask the user a question.
#[derive(Debug, Clone, Copy, PartialEq, Eq, Structural)]
pub enum AskUserQuestionPermission {
    /// Never pause; continue with best judgment.
    Never,
    /// Pause for the user's answer; auto-approve does not skip questions.
    AskExceptInAutoApprove,
    /// Always pause for the user's answer.
    AlwaysAsk,
    Unknown,
}

impl Default for AskUserQuestionPermission {
    fn default() -> (r: Self)
        ensures
            r == AskUserQuestionPermission::AskExceptInAutoApprove,
    {
        AskUserQuestionPermission::AskExceptInAutoApprove
    }
}

pub open spec fn ask_user_question_label(p: AskUserQuestionPermission) -> Seq<char> {
    match p {
        AskUserQuestionPermission::Never => "Never ask"@,
        AskUserQuestionPermission::AskExceptInAutoApprove => "Ask unless auto-approve"@,
        AskUserQuestionPermission::AlwaysAsk | AskUserQuestionPermission::Unknown => "Always ask"@,
    }
}

pub open spec fn ask_user_question_description(p: AskUserQuestionPermission) -> Seq<char> {
    match p {
        AskUserQuestionPermission::AskExceptInAutoApprove | AskUserQuestionPermission::Unknown => "The Agent may ask a question and will pause for your response, even when auto-approve is on (auto-approve only applies to shell/edit tools)."@,
        AskUserQuestionPermission::Never => "The Agent will not ask questions and will continue with its best judgment."@,
        AskUserQuestionPermission::AlwaysAsk => "The Agent may ask a question and will pause for your response even when auto-approve is on."@,
    }
}

impl AskUserQuestionPermission {
    pub fn label(&self) -> (r: &'static str)
        ensures
            r@ == ask_user_question_label(*self),
    {
        match self {
            AskUserQuestionPermission::Never => "Never ask",
            AskUserQuestionPermission::AskExceptInAutoApprove => "Ask unless auto-approve",
            AskUserQuestionPermission::AlwaysAsk | AskUserQuestionPermission::Unknown => "Always ask",
        }
    }

    pub fn description(&self) -> (r: &'static str)
        ensures
            r@ == ask_user_question_description(*self),
    {
        match self {
            AskUserQuestionPermission::AskExceptInAutoApprove | AskUserQuestionPermission::Unknown => "The Agent may ask a question and will pause for your response, even when auto-approve is on (auto-approve only applies to shell/edit tools).",
            AskUserQuestionPermission::Never => "The Agent will not ask questions and will continue with its best judgment.",
            AskUserQuestionPermission::AlwaysAsk => "The Agent may ask a question and will pause for your response even when auto-approve is on.",
        }
    }
}

/// Whether the agent may run child agents.
#[derive(Debug, Clone, Copy, PartialEq, Eq, Structural)]
pub enum RunAgentsPermission {
    NeverAllow,
    AlwaysAllow,
    AlwaysAsk,
    Unknown,
}

impl Default for RunAgentsPermission {
    fn default() -> (r: Self)
        ensures
            r == RunAgentsPermission::AlwaysAsk,
    {
        RunAgentsPermission::AlwaysAsk
    }
}

pub open spec fn run_agents_description(p: RunAgentsPermission) -> Seq<char> {
    match p {
        RunAgentsPermission::NeverAllow => "The Agent cannot run child agents and the run_agents tool will not be available."@,
        RunAgentsPermission::AlwaysAllow => "Give the Agent full autonomy to run child agents without approval."@,
        RunAgentsPermission::AlwaysAsk => "Require explicit approval before the Agent runs child agents."@,
        RunAgentsPermission::Unknown => "Unknown setting."@,
    }
}

impl RunAgentsPermission {
    pub fn description(&self) -> (r: &'static str)
        ensures
            r@ == run_agents_description(*self),
    {
        match self {
            RunAgentsPermission::NeverAllow => "The Agent cannot run child agents and the run_agents tool will not be available.",
            RunAgentsPermission::AlwaysAllow => "Give the Agent full autonomy to run child agents without approval.",
            RunAgentsPermission::AlwaysAsk => "Require explicit approval before the Agent runs child agents.",
            RunAgentsPermission::Unknown => "Unknown setting.",
        }
    }

    /// Enabled when always allowed or asked for.
    pub fn is_enabled(&self) -> (r: bool)
        ensures
            r == (*self == RunAgentsPermission::AlwaysAllow || *self == RunAgentsPermission::AlwaysAsk),
    {
        matches!(self, RunAgentsPermission::AlwaysAllow | RunAgentsPermission::AlwaysAsk)
    }

    pub fn is_always_allow(&self) -> (r: bool)
        ensures
            r == (*self == RunAgentsPermission::AlwaysAllow),
    {
        matches!(self, RunAgentsPermission::AlwaysAllow)
    }

    /// Never allowed, which an unknown setting counts as.
    pub fn is_never_allow(&self) -> (r: bool)
        ensures
            r == (*self == RunAgentsPermission::NeverAllow || *self == RunAgentsPermission::Unknown),
    {
        matches!(self, RunAgentsPermission::NeverAllow | RunAgentsPermission::Unknown)
    }
}

/// Every run-agents setting is exactly one of enabled or never allowed.
pub proof fn lemma_run_agents_enabled_xor_never(p: RunAgentsPermission)
    ensures
        (p == RunAgentsPermission::AlwaysAllow || p == RunAgentsPermission::AlwaysAsk) != (p
            == RunAgentsPermission::NeverAllow || p == RunAgentsPermission::Unknown),
{
}

/// The longest profile name, in characters.
pub const PROFILE_NAME_MAX_LENGTH: usize = 50;

/// A context window above this many tokens is billed at long-context prices by OpenAI.
pub const LONG_CONTEXT_WARNING_THRESHOLD: u32 = 272000;

/// A profile: what the agent may do without asking, which models it uses, and the context
/// window it asks for. Command predicates are kept as their patterns.
#[derive(Debug, Clone, PartialEq, Eq)]
pub struct AIExecutionProfile {
    pub name: String,
    pub is_default_profile: bool,
    pub apply_code_diffs: ActionPermission,
    pub read_files: ActionPermission,
    pub execute_commands: ActionPermission,
    pub write_to_pty: WriteToPtyPermission,
    pub mcp_permissions: ActionPermission,
    pub ask_user_question: AskUserQuestionPermission,
    pub run_agents: RunAgentsPermission,
    /// Commands that always need approval.
    pub command_denylist: Vec<String>,
    /// Commands run without approval when commands otherwise need it.
    pub command_allowlist: Vec<String>,
    /// Directories read without approval when reads otherwise need it.
    pub directory_allowlist: Vec<String>,
    pub mcp_allowlist: Vec<String>,
    pub mcp_denylist: Vec<String>,
    pub computer_use: ComputerUsePermission,
    pub base_model: Option<String>,
    pub coding_model: Option<String>,
    pub cli_agent_model: Option<String>,
    pub computer_use_model: Option<String>,
    /// The model that titles conversations; the base model when unset.
    pub title_model: Option<String>,
    /// The model of proactive suggestions; the base model when unset.
    pub active_ai_model: Option<String>,
    /// The model of next-command suggestions; the base model when unset.
    pub next_command_model: Option<String>,
    pub context_window_limit: Option<u32>,
    pub web_search_enabled: bool,
}

/// The computer-use permission of the CLI profile. An explicit request to allow computer use
/// is honoured in a sandbox or where local computer use is on; without a request it is
/// allowed only in a sandbox of a dogfood build.
pub open spec fn cli_computer_use_spec(
    is_sandboxed: bool,
    computer_use_override: Option<bool>,
    local_computer_use_enabled: bool,
    is_dogfood: bool,
) -> ComputerUsePermission {
    match computer_use_override {
        Some(true) => if is_sandboxed || local_computer_use_enabled {
            ComputerUsePermission::AlwaysAllow
        } else {
            ComputerUsePermission::Never
        },
        Some(false) => ComputerUsePermission::Never,
        None => if is_sandboxed && is_dogfood {
            ComputerUsePermission::AlwaysAllow
        } else {
            ComputerUsePermission::Never
        },
    }
}

/// The computer-use permission of the CLI profile; see [`cli_computer_use_spec`].
pub fn cli_computer_use_permission(
    is_sandboxed: bool,
    computer_use_override: Option<bool>,
    local_computer_use_enabled: bool,
    is_dogfood: bool,
) -> (r: ComputerUsePermission)
    ensures
        r == cli_computer_use_spec(is_sandboxed, computer_use_override, local_computer_use_enabled, is_dogfood),
{
    match computer_use_override {
        Some(true) => {
            if is_sandboxed || local_computer_use_enabled {
                ComputerUsePermission::AlwaysAllow
            } else {
                ComputerUsePermission::Never
            }
        },
        Some(false) => ComputerUsePermission::Never,
        None => {
            if is_sandboxed && is_dogfood {
                ComputerUsePermission::AlwaysAllow
            } else {
                ComputerUsePermission::Never
            }
        },
    }
}

/// No model is chosen for any purpose, no context-window limit is set, and the MCP lists and
/// directory allowlist are empty.
pub open spec fn no_models_chosen(p: AIExecutionProfile) -> bool {
    &&& p.base_model is None
    &&& p.coding_model is None
    &&& p.cli_agent_model is None
    &&& p.computer_use_model is None
    &&& p.title_model is None
    &&& p.active_ai_model is None
    &&& p.next_command_model is None
    &&& p.context_window_limit is None
    &&& p.directory_allowlist@.len() == 0
    &&& p.mcp_allowlist@.len() == 0
    &&& p.mcp_denylist@.len() == 0
}


/// `out` keeps the strings of `v` whose view `drop` lacks, in order.
pub open spec fn kept_unless_in(v: Seq<String>, drop: Seq<String>) -> Seq<Seq<char>>
    decreases v.len(),
{
    if v.len() == 0 {
        Seq::empty()
    } else {
        let rest = kept_unless_in(v.drop_last(), drop);
        if names_of(drop).contains(v.last()@) {
            rest
        } else {
            rest.push(v.last()@)
        }
    }
}

fn copy_strings(v: &Vec<String>) -> (r: Vec<String>)
    ensures
        names_of(r@) == names_of(v@),
{
    let mut out: Vec<String> = Vec::new();
    let mut i: usize = 0;
    while i < v.len()
        invariant
            i <= v@.len(),
            names_of(out@) == names_of(v@.take(i as int)),
        decreases v@.len() - i,
    {
        out.push(v[i].clone());
        proof {
            assert(names_of(v@.take(i + 1)) =~= names_of(v@.take(i as int)).push(v@[i as int]@));
            assert(names_of(out@) =~= names_of(v@.take(i + 1)));
        }
        i = i + 1;
    }
    proof {
        assert(v@.take(v@.len() as int) =~= v@);
    }
    out
}

pub(crate) fn contains_string(v: &Vec<String>, s: &str) -> (r: bool)
    ensures
        r == names_of(v@).contains(s@),
{
    let mut i: usize = 0;
    while i < v.len()
        invariant
            i <= v@.len(),
            forall|j: int| 0 <= j < i ==> (#[trigger] v@[j])@ != s@,
        decreases v@.len() - i,
    {
        if crate::text::str_eq(v[i].as_str(), s) {
            proof {
                assert(names_of(v@)[i as int] == s@);
            }
            return true;
        }
        i = i + 1;
    }
    proof {
        if names_of(v@).contains(s@) {
            let k = choose|k: int| 0 <= k < names_of(v@).len() && names_of(v@)[k] == s@;
            assert(v@[k]@ == s@);
        }
    }
    false
}

impl AIExecutionProfile {
    /// A profile with the usual permissions: the agent decides on edits, reads and MCP
    /// tools, and asks before commands, writes to running commands, questions and child
    /// agents; computer use is off, web search is on, and `denylist` guards commands.
    pub fn with_default_permissions(denylist: &Vec<String>) -> (r: Self)
        ensures
            r.name@.len() == 0,
            !r.is_default_profile,
            r.apply_code_diffs == ActionPermission::AgentDecides,
            r.read_files == ActionPermission::AgentDecides,
            r.execute_commands == ActionPermission::AlwaysAsk,
            r.write_to_pty == WriteToPtyPermission::AlwaysAsk,
            r.mcp_permissions == ActionPermission::AgentDecides,
            r.ask_user_question == AskUserQuestionPermission::AlwaysAsk,
            r.run_agents == RunAgentsPermission::AlwaysAsk,
            names_of(r.command_denylist@) == names_of(denylist@),
            r.command_allowlist@.len() == 0,
            r.computer_use == ComputerUsePermission::Never,
            no_models_chosen(r),
            r.web_search_enabled,
    {
        AIExecutionProfile {
            name: String::new(),
            is_default_profile: false,
            apply_code_diffs: ActionPermission::AgentDecides,
            read_files: ActionPermission::AgentDecides,
            execute_commands: ActionPermission::AlwaysAsk,
            write_to_pty: WriteToPtyPermission::AlwaysAsk,
            mcp_permissions: ActionPermission::AgentDecides,
            ask_user_question: AskUserQuestionPermission::AlwaysAsk,
            run_agents: RunAgentsPermission::AlwaysAsk,
            command_denylist: copy_strings(denylist),
            command_allowlist: Vec::new(),
            directory_allowlist: Vec::new(),
            mcp_allowlist: Vec::new(),
            mcp_denylist: Vec::new(),
            computer_use: ComputerUsePermission::Never,
            base_model: None,
            coding_model: None,
            cli_agent_model: None,
            computer_use_model: None,
            title_model: None,
            active_ai_model: None,
            next_command_model: None,
            context_window_limit: None,
            web_search_enabled: true,
        }
    }

    /// The default profile made from the older settings: named "Default", with their
    /// denylist and read allowlist, and those commands of their allowlist that are not among
    /// the built-in allowed commands.
    pub fn create_default_from_legacy_settings(
        default_denylist: &Vec<String>,
        settings_denylist: &Vec<String>,
        settings_allowlist: &Vec<String>,
        settings_read_allowlist: &Vec<String>,
        builtin_allowlist: &Vec<String>,
    ) -> (r: Self)
        ensures
            r.name@ == "Default"@,
            r.is_default_profile,
            names_of(r.command_denylist@) == names_of(settings_denylist@),
            names_of(r.command_allowlist@) == kept_unless_in(settings_allowlist@, builtin_allowlist@),
            names_of(r.directory_allowlist@) == names_of(settings_read_allowlist@),
            r.execute_commands == ActionPermission::AlwaysAsk,
            r.computer_use == ComputerUsePermission::Never,
            r.base_model is None,
            r.web_search_enabled,
    {
        let mut profile = Self::with_default_permissions(default_denylist);
        profile.name = String::from_str("Default");
        profile.is_default_profile = true;
        profile.command_denylist = copy_strings(settings_denylist);
        let mut allow: Vec<String> = Vec::new();
        let mut i: usize = 0;
        while i < settings_allowlist.len()
            invariant
                i <= settings_allowlist@.len(),
                names_of(allow@) == kept_unless_in(settings_allowlist@.take(i as int), builtin_allowlist@),
            decreases settings_allowlist@.len() - i,
        {
            proof {
                assert(settings_allowlist@.take(i + 1).drop_last() =~= settings_allowlist@.take(i as int));
            }
            if !contains_string(builtin_allowlist, settings_allowlist[i].as_str()) {
                allow.push(settings_allowlist[i].clone());
                proof {
                    assert(names_of(allow@) =~= kept_unless_in(settings_allowlist@.take(i as int), builtin_allowlist@).push(
                        settings_allowlist@[i as int]@,
                    ));
                }
            }
            i = i + 1;
        }
        proof {
            assert(settings_allowlist@.take(settings_allowlist@.len() as int) =~= settings_allowlist@);
        }
        profile.command_allowlist = allow;
        profile.directory_allowlist = copy_strings(settings_read_allowlist);
        profile
    }

    /// The profile of agent-mode evaluation runs: everything allowed, no questions, no
    /// command lists, computer use off.
    pub fn create_agent_mode_eval_profile() -> (r: Self)
        ensures
            r.name@ == "Agent Mode Eval"@,
            !r.is_default_profile,
            r.apply_code_diffs == ActionPermission::AlwaysAllow,
            r.read_files == ActionPermission::AlwaysAllow,
            r.execute_commands == ActionPermission::AlwaysAllow,
            r.write_to_pty == WriteToPtyPermission::AlwaysAllow,
            r.mcp_permissions == ActionPermission::AlwaysAllow,
            r.ask_user_question == AskUserQuestionPermission::Never,
            r.run_agents == RunAgentsPermission::AlwaysAllow,
            r.command_denylist@.len() == 0,
            r.command_allowlist@.len() == 0,
            r.computer_use == ComputerUsePermission::Never,
            no_models_chosen(r),
            r.web_search_enabled,
    {
        let mut profile = Self::with_default_permissions(&Vec::new());
        profile.name = String::from_str("Agent Mode Eval");
        profile.apply_code_diffs = ActionPermission::AlwaysAllow;
        profile.read_files = ActionPermission::AlwaysAllow;
        profile.execute_commands = ActionPermission::AlwaysAllow;
        profile.write_to_pty = WriteToPtyPermission::AlwaysAllow;
        profile.mcp_permissions = ActionPermission::AlwaysAllow;
        profile.ask_user_question = AskUserQuestionPermission::Never;
        profile.run_agents = RunAgentsPermission::AlwaysAllow;
        proof {
            assert(names_of(profile.command_denylist@) =~= Seq::<Seq<char>>::empty());
        }
        profile
    }

    /// The profile of the command-line agent, which can never ask for approval: everything
    /// allowed, the built-in allowlist, the built-in denylist outside a sandbox (none inside),
    /// and computer use as [`cli_computer_use_spec`] decides.
    pub fn create_default_cli_profile(
        is_sandboxed: bool,
        computer_use_override: Option<bool>,
        local_computer_use_enabled: bool,
        is_dogfood: bool,
        default_denylist: &Vec<String>,
        default_allowlist: &Vec<String>,
    ) -> (r: Self)
        ensures
            r.name@ == "Default (CLI)"@,
            r.is_default_profile,
            r.apply_code_diffs == ActionPermission::AlwaysAllow,
            r.read_files == ActionPermission::AlwaysAllow,
            r.execute_commands == ActionPermission::AlwaysAllow,
            r.mcp_permissions == ActionPermission::AlwaysAllow,
            r.write_to_pty == WriteToPtyPermission::AlwaysAllow,
            r.ask_user_question == AskUserQuestionPermission::Never,
            r.run_agents == RunAgentsPermission::AlwaysAllow,
            names_of(r.command_denylist@) == if is_sandboxed {
                Seq::<Seq<char>>::empty()
            } else {
                names_of(default_denylist@)
            },
            names_of(r.command_allowlist@) == names_of(default_allowlist@),
            r.computer_use == cli_computer_use_spec(
                is_sandboxed,
                computer_use_override,
                local_computer_use_enabled,
                is_dogfood,
            ),
            no_models_chosen(r),
            r.web_search_enabled,
    {
        let denylist = if is_sandboxed {
            Vec::new()
        } else {
            copy_strings(default_denylist)
        };
        proof {
            if is_sandboxed {
                assert(names_of(denylist@) =~= Seq::<Seq<char>>::empty());
            }
        }
        let mut profile = Self::with_default_permissions(&denylist);
        profile.name = String::from_str("Default (CLI)");
        profile.is_default_profile = true;
        profile.apply_code_diffs = ActionPermission::AlwaysAllow;
        profile.read_files = ActionPermission::AlwaysAllow;
        profile.execute_commands = ActionPermission::AlwaysAllow;
        profile.mcp_permissions = ActionPermission::AlwaysAllow;
        profile.write_to_pty = WriteToPtyPermission::AlwaysAllow;
        profile.ask_user_question = AskUserQuestionPermission::Never;
        profile.run_agents = RunAgentsPermission::AlwaysAllow;
        profile.command_allowlist = copy_strings(default_allowlist);
        profile.computer_use = cli_computer_use_permission(
            is_sandboxed,
            computer_use_override,
            local_computer_use_enabled,
            is_dogfood,
        );
        profile
    }

    /// The name shown for the profile: "Default" for the default profile, "Untitled" for a
    /// blank name, else the name.
    pub fn display_name(&self) -> (r: String)
        ensures
            r@ == if self.is_default_profile {
                "Default"@
            } else if all_ws(self.name@) {
                "Untitled"@
            } else {
                self.name@
            },
    {
        if self.is_default_profile {
            String::from_str("Default")
        } else if is_blank(self.name.as_str()) {
            String::from_str("Untitled")
        } else {
            self.name.clone()
        }
    }

    /// The key that keeps a user to one default profile: "default" for the default profile,
    /// none for the others.
    pub fn uniqueness_key(&self) -> (r: Option<String>)
        ensures
            r matches Some(k) ==> k@ == "default"@,
            r is Some <==> self.is_default_profile,
    {
        if self.is_default_profile {
            Some(String::from_str("default"))
        } else {
            None
        }
    }

    /// The model the profile's context window follows: its base model when the catalogue
    /// has it, else the agent-mode default.
    pub fn effective_base_model<'a>(&self, prefs: &'a LLMPreferences) -> (r: &'a LLMInfo)
        ensures
            *r == match opt_string_view(self.base_model) {
                Some(id) => match prefs.any_lookup(id) {
                    Some(x) => x,
                    None => crate::llm_catalog::default_info(
                        prefs.models_by_feature.agent_mode.choices_spec(),
                        prefs.models_by_feature.agent_mode.default_id_spec(),
                    ),
                },
                None => crate::llm_catalog::default_info(
                    prefs.models_by_feature.agent_mode.choices_spec(),
                    prefs.models_by_feature.agent_mode.default_id_spec(),
                ),
            },
    {
        match &self.base_model {
            Some(id) => match prefs.get_llm_info(id.as_str()) {
                Some(x) => x,
                None => prefs.get_default_base_model(),
            },
            None => prefs.get_default_base_model(),
        }
    }

    /// The context window the user may adjust, when the base model has one.
    pub fn configurable_context_window(&self, prefs: &LLMPreferences, gpt_configurable_context_window_enabled: bool) -> (r:
        Option<crate::llms::LLMContextWindow>)
        ensures
            ({
                let llm = self.effective_base_model_spec(*prefs);
                r == if configurable_spec(llm, gpt_configurable_context_window_enabled) {
                    Some(llm.context_window)
                } else {
                    None
                }
            }),
    {
        let llm = self.effective_base_model(prefs);
        if has_configurable_context_window(llm, gpt_configurable_context_window_enabled) {
            Some(llm.context_window)
        } else {
            None
        }
    }

    /// The model the profile's context window follows; see
    /// [`AIExecutionProfile::effective_base_model`].
    pub open spec fn effective_base_model_spec(&self, prefs: LLMPreferences) -> LLMInfo {
        match opt_string_view(self.base_model) {
            Some(id) => match prefs.any_lookup(id) {
                Some(x) => x,
                None => crate::llm_catalog::default_info(
                    prefs.models_by_feature.agent_mode.choices_spec(),
                    prefs.models_by_feature.agent_mode.default_id_spec(),
                ),
            },
            None => crate::llm_catalog::default_info(
                prefs.models_by_feature.agent_mode.choices_spec(),
                prefs.models_by_feature.agent_mode.default_id_spec(),
            ),
        }
    }

    /// The context window shown: the profile's limit, else the model's default maximum, when
    /// the window is adjustable.
    pub fn context_window_display_value(&self, prefs: &LLMPreferences, gpt_configurable_context_window_enabled: bool) -> (r:
        Option<u32>)
        ensures
            ({
                let llm = self.effective_base_model_spec(*prefs);
                r == if configurable_spec(llm, gpt_configurable_context_window_enabled) {
                    Some(
                        match self.context_window_limit {
                            Some(l) => l,
                            None => llm.context_window.default_max,
                        },
                    )
                } else {
                    None
                }
            }),
    {
        match self.configurable_context_window(prefs, gpt_configurable_context_window_enabled) {
            Some(cw) => Some(
                match self.context_window_limit {
                    Some(l) => l,
                    None => cw.default_max,
                },
            ),
            None => None,
        }
    }

    /// The context window asked for in a request: the profile's limit, held within the
    /// model's bounds, when the window is adjustable and a limit is set.
    pub fn context_window_limit_for_request(
        &self,
        prefs: &LLMPreferences,
        gpt_configurable_context_window_enabled: bool,
    ) -> (r: Option<u32>)
        requires
            ({
                let llm = self.effective_base_model_spec(*prefs);
                configurable_spec(llm, gpt_configurable_context_window_enabled) && self.context_window_limit is Some
                    ==> llm.context_window.min <= llm.context_window.max
            }),
        ensures
            ({
                let llm = self.effective_base_model_spec(*prefs);
                r == if configurable_spec(llm, gpt_configurable_context_window_enabled) {
                    match self.context_window_limit {
                        Some(l) => Some(clamp_spec(l, llm.context_window.min, llm.context_window.max)),
                        None => None,
                    }
                } else {
                    None
                }
            }),
    {
        let llm = self.effective_base_model(prefs);
        if !has_configurable_context_window(llm, gpt_configurable_context_window_enabled) {
            return None;
        }
        match self.context_window_limit {
            Some(l) => Some(clamp_u32(l, llm.context_window.min, llm.context_window.max)),
            None => None,
        }
    }

    /// Whether to warn of long-context pricing for a request with `context_window_limit`
    /// (else the profile's limit, else the model's default maximum); see
    /// [`should_show_long_context_pricing_warning`].
    pub fn should_warn_of_long_context_pricing(
        &self,
        context_window_limit: Option<u32>,
        prefs: &LLMPreferences,
        gpt_configurable_context_window_enabled: bool,
    ) -> (r: bool)
        requires
            ({
                let llm = self.effective_base_model_spec(*prefs);
                llm.provider == LLMProvider::OpenAI && configurable_spec(llm, gpt_configurable_context_window_enabled)
                    ==> llm.context_window.min <= llm.context_window.max
            }),
        ensures
            ({
                let llm = self.effective_base_model_spec(*prefs);
                let selected = match context_window_limit {
                    Some(l) => l,
                    None => match self.context_window_limit {
                        Some(l) => l,
                        None => llm.context_window.default_max,
                    },
                };
                r == long_context_warning_spec(llm, Some(selected), gpt_configurable_context_window_enabled)
            }),
    {
        let llm = self.effective_base_model(prefs);
        let selected = match context_window_limit {
            Some(l) => l,
            None => match self.context_window_limit {
                Some(l) => l,
                None => llm.context_window.default_max,
            },
        };
        should_show_long_context_pricing_warning(llm, Some(selected), gpt_configurable_context_window_enabled)
    }
}

/// An optional string by its view.
pub open spec fn opt_string_view(o: Option<String>) -> Option<Seq<char>> {
    match o {
        Some(s) => Some(s@),
        None => None,
    }
}

/// `v` held within `lo..=hi`.
pub open spec fn clamp_spec(v: u32, lo: u32, hi: u32) -> u32 {
    if v < lo {
        lo
    } else if v > hi {
        hi
    } else {
        v
    }
}

fn clamp_u32(v: u32, lo: u32, hi: u32) -> (r: u32)
    requires
        lo <= hi,
    ensures
        r == clamp_spec(v, lo, hi),
{
    if v < lo {
        lo
    } else if v > hi {
        hi
    } else {
        v
    }
}

/// A model's context window is adjustable: marked so, with a positive maximum, and, for an
/// OpenAI model, only when that is switched on.
pub open spec fn configurable_spec(llm: LLMInfo, gpt_configurable_context_window_enabled: bool) -> bool {
    &&& llm.context_window.is_configurable
    &&& llm.context_window.max > 0
    &&& (llm.provider != LLMProvider::OpenAI || gpt_configurable_context_window_enabled)
}

/// Whether a model's context window is adjustable; see [`configurable_spec`].
pub fn has_configurable_context_window(llm: &LLMInfo, gpt_configurable_context_window_enabled: bool) -> (r: bool)
    ensures
        r == configurable_spec(*llm, gpt_configurable_context_window_enabled),
{
    llm.context_window.is_configurable && llm.context_window.max > 0 && (!matches!(llm.provider, LLMProvider::OpenAI)
        || gpt_configurable_context_window_enabled)
}

/// Long-context pricing applies: an OpenAI model with an adjustable window whose selected
/// limit, held within the model's bounds, is above [`LONG_CONTEXT_WARNING_THRESHOLD`].
pub open spec fn long_context_warning_spec(
    llm: LLMInfo,
    selected_limit: Option<u32>,
    gpt_configurable_context_window_enabled: bool,
) -> bool {
    &&& llm.provider == LLMProvider::OpenAI
    &&& configurable_spec(llm, gpt_configurable_context_window_enabled)
    &&& selected_limit matches Some(l) && clamp_spec(l, llm.context_window.min, llm.context_window.max)
        > LONG_CONTEXT_WARNING_THRESHOLD
}

/// Whether to warn of long-context pricing; see [`long_context_warning_spec`].
pub fn should_show_long_context_pricing_warning(
    llm: &LLMInfo,
    selected_limit: Option<u32>,
    gpt_configurable_context_window_enabled: bool,
) -> (r: bool)
    requires
        llm.provider == LLMProvider::OpenAI && configurable_spec(*llm, gpt_configurable_context_window_enabled)
            && selected_limit is Some ==> llm.context_window.min <= llm.context_window.max,
    ensures
        r == long_context_warning_spec(*llm, selected_limit, gpt_configurable_context_window_enabled),
{
    if !matches!(llm.provider, LLMProvider::OpenAI) {
        return false;
    }
    if !has_configurable_context_window(llm, gpt_configurable_context_window_enabled) {
        return false;
    }
    match selected_limit {
        Some(l) => clamp_u32(l, llm.context_window.min, llm.context_window.max) > LONG_CONTEXT_WARNING_THRESHOLD,
        None => false,
    }
}

} // verus!
