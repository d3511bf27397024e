//! Launch requests for local child agents: normalising legacy harness command
//! lines and reporting unsupported harnesses.
use vstd::prelude::*;
use vstd::string::*;

use crate::shell_split::{shell_split, split_words};
use crate::execution_profiles::RunAgentsPermission;
use crate::text::{all_ws, is_blank, str_eq, trim, trim_str};

verus! {

/// How a child agent is launched: locally, with an optional harness and model.
#[derive(Debug, Clone, PartialEq, Eq)]
pub enum StartAgentExecutionMode {
    Local { harness_type: Option<String>, model_id: Option<String> },
}

impl StartAgentExecutionMode {
    /// A local launch with the default harness and model.
    pub fn local_with_defaults() -> (r: Self)
        ensures
            r == (StartAgentExecutionMode::Local { harness_type: None, model_id: None }),
    {
        StartAgentExecutionMode::Local { harness_type: None, model_id: None }
    }
}

/// The outcome of one local child launch.
#[derive(Debug, Clone, PartialEq, Eq)]
pub enum StartAgentOutcome {
    Started { agent_id: String },
    Error(String),
}

/// The message for a harness name that is missing or not supported.
pub open spec fn invalid_harness_message(harness_type: Seq<char>) -> Seq<char> {
    let name = trim(harness_type);
    if name.len() == 0 {
        "Local child harness type is missing."@
    } else {
        "Unsupported local child harness '"@ + name + "'."@
    }
}

/// The error reported for an unsupported local child harness, naming it without its
/// surrounding whitespace.
pub fn invalid_local_child_harness_error(harness_type: &str) -> (r: String)
    ensures
        r@ == invalid_harness_message(harness_type@),
{
    let harness_name = trim_str(harness_type);
    if harness_name.unicode_len() == 0 {
        String::from_str("Local child harness type is missing.")
    } else {
        let mut out = String::from_str("Unsupported local child harness '");
        out.append(harness_name);
        out.append("'.");
        out
    }
}

/// The legacy form `codex --dangerously-bypass-approvals-and-sandbox <prompt>`, given the
/// words of a command line: exactly those three words with a non-blank prompt give the
/// harness `codex` and the prompt.
pub open spec fn legacy_harness_of_words(args: Seq<Seq<char>>) -> Option<(Seq<char>, Seq<char>)> {
    if args.len() == 3 && args[0] == "codex"@ && args[1] == "--dangerously-bypass-approvals-and-sandbox"@
        && !all_ws(args[2]) {
        Some(("codex"@, args[2]))
    } else {
        None
    }
}

/// The legacy harness form of a command line: the line (trimmed) split into words, read by
/// [`legacy_harness_of_words`].
pub open spec fn legacy_harness_command_spec(command: Seq<char>) -> Option<(Seq<char>, Seq<char>)> {
    match shell_split(trim(command)) {
        Some(args) => legacy_harness_of_words(args),
        None => None,
    }
}

/// Recognises the legacy harness form from the words of a command line; see
/// [`legacy_harness_of_words`].
pub fn legacy_harness_from_words(args: &[String]) -> (r: Option<(String, String)>)
    ensures
        match r {
            Some((h, p)) => legacy_harness_of_words(args@.map_values(|t: String| t@)) == Some((h@, p@)),
            None => legacy_harness_of_words(args@.map_values(|t: String| t@)) is None,
        },
{
    let ghost words = args@.map_values(|t: String| t@);
    if args.len() != 3 {
        return None;
    }
    proof {
        assert(words[0] == args@[0]@);
        assert(words[1] == args@[1]@);
        assert(words[2] == args@[2]@);
    }
    if str_eq(args[0].as_str(), "codex") && str_eq(
        args[1].as_str(),
        "--dangerously-bypass-approvals-and-sandbox",
    ) && !is_blank(args[2].as_str()) {
        Some((String::from_str("codex"), args[2].clone()))
    } else {
        None
    }
}

/// Recognises a legacy harness command line; see [`legacy_harness_command_spec`].
pub fn parse_legacy_local_child_harness_command(command: &str) -> (r: Option<(String, String)>)
    ensures
        match r {
            Some((h, p)) => legacy_harness_command_spec(command@) == Some((h@, p@)),
            None => legacy_harness_command_spec(command@) is None,
        },
{
    let trimmed = trim_str(command);
    let args = match split_words(trimmed) {
        Some(a) => a,
        None => return None,
    };
    proof {
        assert(args.deep_view() =~= args@.map_values(|t: String| t@));
    }
    legacy_harness_from_words(args.as_slice())
}

/// The launch that a prompt and mode describe once a legacy harness command line is
/// recognised: a local launch without a harness whose prompt is such a line becomes a
/// launch of that harness with the inner prompt; anything else is unchanged.
pub open spec fn normalized_launch_spec(
    prompt: Seq<char>,
    mode: StartAgentExecutionMode,
    r: (String, StartAgentExecutionMode),
) -> bool {
    match mode {
        StartAgentExecutionMode::Local { harness_type: None, model_id } => match legacy_harness_command_spec(prompt) {
            Some((h, p)) => r.0@ == p && (match r.1 {
                StartAgentExecutionMode::Local { harness_type: Some(rh), model_id: rm } => rh@ == h && rm == model_id,
                _ => false,
            }),
            None => r.0@ == prompt && r.1 == mode,
        },
        _ => r.0@ == prompt && r.1 == mode,
    }
}

/// Rewrites a legacy harness command line into a launch of that harness.
pub fn normalize_legacy_local_child_harness_command(
    prompt: String,
    execution_mode: StartAgentExecutionMode,
) -> (r: (String, StartAgentExecutionMode))
    ensures
        normalized_launch_spec(prompt@, execution_mode, r),
{
    match execution_mode {
        StartAgentExecutionMode::Local { harness_type: None, model_id } => {
            match parse_legacy_local_child_harness_command(prompt.as_str()) {
                Some((harness_type, child_prompt)) => (
                    child_prompt,
                    StartAgentExecutionMode::Local { harness_type: Some(harness_type), model_id },
                ),
                None => (prompt, StartAgentExecutionMode::Local { harness_type: None, model_id }),
            }
        },
        mode => (prompt, mode),
    }
}

/// The option of a string, by its view.
pub open spec fn opt_view(o: Option<String>) -> Option<Seq<char>> {
    match o {
        Some(s) => Some(s@),
        None => None,
    }
}

/// What the registry of harnesses says of a harness name.
#[derive(Debug, Clone, PartialEq, Eq)]
pub enum HarnessLookup {
    /// No harness that a local child can run goes by this name.
    Unsupported,
    /// A known harness that this build has switched off, with the message to show.
    Disabled(String),
    /// A harness that can be launched, by its canonical name.
    Available(String),
}

/// Whether a launch mode can be started: a launch without a harness always can; one naming a
/// harness can when the registry has it available (`lookup` is the registry's answer for that
/// name). An unknown harness is reported by [`invalid_local_child_harness_error`], a
/// switched-off one by the registry's message.
pub fn validate_execution_mode(execution_mode: &StartAgentExecutionMode, lookup: &HarnessLookup) -> (r:
    Result<(), String>)
    ensures
        match execution_mode {
            StartAgentExecutionMode::Local { harness_type: None, .. } => r is Ok,
            StartAgentExecutionMode::Local { harness_type: Some(h), .. } => match lookup {
                HarnessLookup::Unsupported => r matches Err(e) && e@ == invalid_harness_message(h@),
                HarnessLookup::Disabled(m) => r matches Err(e) && e@ == m@,
                HarnessLookup::Available(_) => r is Ok,
            },
        },
{
    match execution_mode {
        StartAgentExecutionMode::Local { harness_type: None, .. } => Ok(()),
        StartAgentExecutionMode::Local { harness_type: Some(harness_type), .. } => match lookup {
            HarnessLookup::Unsupported => Err(invalid_local_child_harness_error(harness_type.as_str())),
            HarnessLookup::Disabled(message) => Err(message.clone()),
            HarnessLookup::Available(_) => Ok(()),
        },
    }
}

/// A local launch to hand to the terminal pane: the child's name, prompt and mode.
#[derive(Debug, Clone, PartialEq, Eq)]
pub struct StartAgentLaunch {
    pub name: String,
    pub prompt: String,
    pub execution_mode: StartAgentExecutionMode,
}

/// Prepares a direct launch: a legacy harness command line is first rewritten into a launch
/// of that harness (see [`normalize_legacy_local_child_harness_command`]); the launch then
/// goes ahead when its mode passes [`validate_execution_mode`], with `lookup` the registry's
/// answer for the harness that the rewritten mode names.
pub fn prepare_start_agent(
    name: String,
    prompt: String,
    execution_mode: StartAgentExecutionMode,
    lookup: &HarnessLookup,
) -> (r: Result<StartAgentLaunch, String>)
    ensures
        exists|n: (String, StartAgentExecutionMode)|
            {
                &&& #[trigger] normalized_launch_spec(prompt@, execution_mode, n)
                &&& match r {
                    Ok(launch) => launch.name == name && launch.prompt@ == n.0@
                        && launch.execution_mode == n.1 && (match n.1 {
                        StartAgentExecutionMode::Local { harness_type: Some(_), .. } => lookup is Available,
                        _ => true,
                    }),
                    Err(e) => match n.1 {
                        StartAgentExecutionMode::Local { harness_type: Some(h), .. } => match lookup {
                            HarnessLookup::Unsupported => e@ == invalid_harness_message(h@),
                            HarnessLookup::Disabled(m) => e@ == m@,
                            HarnessLookup::Available(_) => false,
                        },
                        _ => false,
                    },
                }
            },
{
    let (prompt2, mode2) = normalize_legacy_local_child_harness_command(prompt, execution_mode);
    let ghost n = (prompt2, mode2);
    match validate_execution_mode(&mode2, lookup) {
        Err(e) => {
            assert(normalized_launch_spec(prompt@, execution_mode, n));
            Err(e)
        },
        Ok(()) => {
            assert(normalized_launch_spec(prompt@, execution_mode, n));
            Ok(StartAgentLaunch { name, prompt: prompt2, execution_mode: mode2 })
        },
    }
}

/// The agent's result for a direct launch, under the action's version.
#[derive(Debug, Clone, PartialEq, Eq)]
pub enum StartAgentResult<V> {
    Success { agent_id: String, version: V },
    Error { error: String, version: V },
    Cancelled { version: V },
}

/// The result reported for a direct launch once the pane answers: the outcome it sent, or a
/// cancellation when it went away without answering (`None`).
pub fn start_agent_result<V>(outcome: Option<StartAgentOutcome>, version: V) -> (r: StartAgentResult<V>)
    ensures
        r == (match outcome {
            Some(StartAgentOutcome::Started { agent_id }) => StartAgentResult::Success { agent_id, version },
            Some(StartAgentOutcome::Error(error)) => StartAgentResult::Error { error, version },
            None => StartAgentResult::Cancelled { version },
        }),
{
    match outcome {
        Some(StartAgentOutcome::Started { agent_id }) => StartAgentResult::Success { agent_id, version },
        Some(StartAgentOutcome::Error(error)) => StartAgentResult::Error { error, version },
        None => StartAgentResult::Cancelled { version },
    }
}

/// A direct launch runs without asking only in an autonomous run or when the profile always
/// allows child agents.
pub fn start_agent_should_autoexecute(autonomous: bool, setting: RunAgentsPermission) -> (r: bool)
    ensures
        r == (autonomous || setting == RunAgentsPermission::AlwaysAllow),
{
    autonomous || setting.is_always_allow()
}

} // verus!
