//! Classifying agent-requested shell commands: how long to wait for their output,
//! whether a snapshot counts as a preemption, and which program a command line runs.
use vstd::prelude::*;
use vstd::string::*;

use crate::shell_split::{shell_split, split_words};
use crate::execution_profiles::WriteToPtyPermission;
use crate::text::{
    all_ws, is_blank, ascii_lower_seq, eq_ignore_ascii_case, eq_ignore_ascii_case_spec, is_whitespace, is_ws,
    lemma_leading_ws_bound, lemma_leading_ws_char, leading_ws, str_eq, to_ascii_lowercase, trim_start,
    trim_start_str,
};

verus! {

/// Longest wait, in milliseconds, for a command that should complete quickly.
pub const MAX_WAIT_MS: u64 = 2_000;

/// Longest delay, in milliseconds, that the agent may request.
pub const MAX_AGENT_DELAY_MS: u64 = 120_000;

/// Fallback timeout, in milliseconds, of a wait for completion (thirty minutes), so that a
/// command stuck in a pager cannot hold the agent forever.
pub const MAX_UNTIL_COMPLETION_MS: u64 = 1_800_000;

/// Delay, in milliseconds, before a snapshot after writing to a running command.
pub const WRITE_TO_PTY_DELAY_MS: u64 = 200;

/// The wait that the agent asked for when it ran or read a command.
#[derive(Debug, Clone, Copy, PartialEq, Eq, Structural)]
pub enum ShellCommandDelay {
    /// Wait this many milliseconds.
    Duration(u64),
    /// Wait until the command completes.
    OnCompletion,
}

/// How long to wait before taking a snapshot of a command's output.
#[derive(Debug, Clone, Copy, PartialEq, Eq, Structural)]
pub enum ActionResultDelay {
    UntilCompletion,
    Default,
    /// Wait this many milliseconds.
    Duration(u64),
    /// Wait for completion, but no longer than `timeout_ms`.
    OnCompletion { timeout_ms: u64 },
}

/// Why the wait for a command's output ended.
#[derive(Debug, Clone, Copy, PartialEq, Eq, Structural)]
pub enum WakeReason {
    BlockFinished,
    Timeout,
    /// The user asked to check the output now.
    ForceRefresh,
}

impl ActionResultDelay {
    /// The wait for an agent-requested delay: an explicit duration is kept, completion is
    /// awaited for at most `MAX_AGENT_DELAY_MS`, and no request means the default wait.
    pub fn from_shell_command_delay(delay: Option<ShellCommandDelay>) -> (r: Self)
        ensures
            r == from_delay_spec(delay),
    {
        match delay {
            Some(ShellCommandDelay::Duration(d)) => ActionResultDelay::Duration(d),
            Some(ShellCommandDelay::OnCompletion) => ActionResultDelay::OnCompletion {
                timeout_ms: MAX_AGENT_DELAY_MS,
            },
            None => ActionResultDelay::Default,
        }
    }
}

/// Whether a snapshot is a preemption: the user forced it, or a wait for completion timed out.
pub open spec fn is_preempted_spec(wake: WakeReason, delay: ActionResultDelay) -> bool {
    wake == WakeReason::ForceRefresh || (wake == WakeReason::Timeout && (delay is OnCompletion
        || delay is UntilCompletion))
}

/// Whether a snapshot is a preemption rather than the command's final output: the user
/// forced it, or a wait for completion timed out.
pub fn compute_is_preempted(wake: WakeReason, delay: ActionResultDelay) -> (r: bool)
    ensures
        r == is_preempted_spec(wake, delay),
{
    match wake {
        WakeReason::ForceRefresh => true,
        WakeReason::Timeout => match delay {
            ActionResultDelay::OnCompletion { .. } => true,
            ActionResultDelay::UntilCompletion => true,
            _ => false,
        },
        WakeReason::BlockFinished => false,
    }
}

/// The wait for a requested command: until completion when asked, else the default.
pub fn action_result_delay_for_requested_command(wait_until_completion: bool) -> (r:
    ActionResultDelay)
    ensures
        r == if wait_until_completion {
            ActionResultDelay::UntilCompletion
        } else {
            ActionResultDelay::Default
        },
{
    if wait_until_completion {
        ActionResultDelay::UntilCompletion
    } else {
        ActionResultDelay::Default
    }
}

/// The wait that an agent-requested delay maps to.
pub open spec fn from_delay_spec(delay: Option<ShellCommandDelay>) -> ActionResultDelay {
    match delay {
        Some(ShellCommandDelay::Duration(d)) => ActionResultDelay::Duration(d),
        Some(ShellCommandDelay::OnCompletion) => ActionResultDelay::OnCompletion {
            timeout_ms: MAX_AGENT_DELAY_MS,
        },
        None => ActionResultDelay::Default,
    }
}

/// The wait for reading a command's output, given whether the command starts a session that
/// never ends on its own.
pub open spec fn effective_read_spec(starts_non_terminating_session: bool, delay: Option<ShellCommandDelay>) -> ActionResultDelay {
    if starts_non_terminating_session && !(delay matches Some(ShellCommandDelay::Duration(_))) {
        ActionResultDelay::OnCompletion { timeout_ms: MAX_WAIT_MS }
    } else {
        from_delay_spec(delay)
    }
}

/// The wait for reading a command's output, given whether the command starts a session that
/// never ends on its own (see [`command_starts_non_terminating_session`]): then a request for
/// completion or no request at all becomes a wait for completion of at most `MAX_WAIT_MS`;
/// otherwise the request maps as usual.
pub fn read_delay_for_session(
    starts_non_terminating_session: bool,
    delay: Option<ShellCommandDelay>,
) -> (r: ActionResultDelay)
    ensures
        r == effective_read_spec(starts_non_terminating_session, delay),
{
    let asks_completion = match delay {
        None => true,
        Some(ShellCommandDelay::OnCompletion) => true,
        Some(ShellCommandDelay::Duration(_)) => false,
    };
    if starts_non_terminating_session && asks_completion {
        return ActionResultDelay::OnCompletion { timeout_ms: MAX_WAIT_MS };
    }
    ActionResultDelay::from_shell_command_delay(delay)
}


/// The timeout of a wait for output, in milliseconds: a requested duration or completion
/// timeout is capped at `MAX_AGENT_DELAY_MS`, the default wait is `MAX_WAIT_MS`, and a wait
/// until completion has no timeout of its own (`None`).
pub open spec fn timeout_spec(delay: ActionResultDelay) -> Option<u64> {
    match delay {
        ActionResultDelay::UntilCompletion => None,
        ActionResultDelay::Duration(d) => Some(if d < MAX_AGENT_DELAY_MS { d } else { MAX_AGENT_DELAY_MS }),
        ActionResultDelay::OnCompletion { timeout_ms } => Some(
            if timeout_ms < MAX_AGENT_DELAY_MS { timeout_ms } else { MAX_AGENT_DELAY_MS },
        ),
        ActionResultDelay::Default => Some(MAX_WAIT_MS),
    }
}

/// The timeout of a wait for output; see [`timeout_spec`].
pub fn timeout_for_delay(delay: ActionResultDelay) -> (r: Option<u64>)
    ensures
        r == timeout_spec(delay),
{
    match delay {
        ActionResultDelay::UntilCompletion => None,
        ActionResultDelay::Duration(d) => Some(if d < MAX_AGENT_DELAY_MS { d } else { MAX_AGENT_DELAY_MS }),
        ActionResultDelay::OnCompletion { timeout_ms } => Some(
            if timeout_ms < MAX_AGENT_DELAY_MS { timeout_ms } else { MAX_AGENT_DELAY_MS },
        ),
        ActionResultDelay::Default => Some(MAX_WAIT_MS),
    }
}

/// How long a wait can last at most, in milliseconds: its timeout, or the fallback for a
/// wait until completion.
pub fn wait_limit_ms(delay: ActionResultDelay) -> (r: u64)
    ensures
        r == match timeout_spec(delay) {
            Some(t) => t,
            None => MAX_UNTIL_COMPLETION_MS,
        },
        r <= MAX_UNTIL_COMPLETION_MS,
{
    match timeout_for_delay(delay) {
        Some(t) => t,
        None => MAX_UNTIL_COMPLETION_MS,
    }
}

/// No wait that the agent asks for lasts longer than `MAX_AGENT_DELAY_MS`, and only a wait
/// until completion has no timeout.
pub proof fn lemma_agent_waits_are_capped(delay: ActionResultDelay)
    ensures
        timeout_spec(delay) is None <==> delay is UntilCompletion,
        timeout_spec(delay) matches Some(t) ==> t <= MAX_AGENT_DELAY_MS,
{
}

/// A snapshot taken because a command finished is never a preemption; one forced by the
/// user always is; a timeout is one exactly when the wait was for completion.
pub proof fn lemma_preemption_cases(delay: ActionResultDelay)
    ensures
        !is_preempted_spec(WakeReason::BlockFinished, delay),
        is_preempted_spec(WakeReason::ForceRefresh, delay),
        is_preempted_spec(WakeReason::Timeout, delay) <==> (delay is OnCompletion
            || delay is UntilCompletion),
{
}

/// For a session that never ends on its own, reading its output never waits longer than
/// `MAX_WAIT_MS` unless the agent asked for an explicit duration.
pub proof fn lemma_sessions_are_polled_quickly(delay: Option<ShellCommandDelay>)
    requires
        !(delay matches Some(ShellCommandDelay::Duration(_))),
    ensures
        timeout_spec(effective_read_spec(true, delay)) == Some(MAX_WAIT_MS),
{
}

/// The shell that runs a command.
#[derive(Debug, Clone, Copy, PartialEq, Eq, Structural)]
pub enum ShellType {
    Zsh,
    Bash,
    Fish,
    PowerShell,
}

pub open spec fn posix_pager_prefix() -> Seq<char> {
    "(unset PAGER GIT_PAGER MANPAGER; export PAGER=cat GIT_PAGER=cat MANPAGER=cat GIT_CONFIG_COUNT=1 GIT_CONFIG_KEY_0=core.pager GIT_CONFIG_VALUE_0=cat; "@
}

pub open spec fn fish_pager_prefix() -> Seq<char> {
    "begin; set -e PAGER; set -e GIT_PAGER; set -e MANPAGER; set -lx PAGER cat; set -lx GIT_PAGER cat; set -lx MANPAGER cat; set -lx GIT_CONFIG_COUNT 1; set -lx GIT_CONFIG_KEY_0 core.pager; set -lx GIT_CONFIG_VALUE_0 cat; "@
}

pub open spec fn pwsh_pager_prefix() -> Seq<char> {
    "& { Remove-Item Env:PAGER -ErrorAction SilentlyContinue; Remove-Item Env:GIT_PAGER -ErrorAction SilentlyContinue; Remove-Item Env:MANPAGER -ErrorAction SilentlyContinue; $env:PAGER='cat'; $env:GIT_PAGER='cat'; $env:MANPAGER='cat'; $env:GIT_CONFIG_COUNT='1'; $env:GIT_CONFIG_KEY_0='core.pager'; $env:GIT_CONFIG_VALUE_0='cat'; "@
}

/// The command run with every common pager replaced by `cat`, in a scope whose exit status
/// is the command's own: a subshell for zsh and bash, a `begin`/`end` block for fish, a
/// script block for PowerShell. An unknown shell gets the command unchanged.
pub open spec fn pager_free_spec(shell: Option<ShellType>, command: Seq<char>) -> Seq<char> {
    match shell {
        Some(ShellType::Zsh) | Some(ShellType::Bash) => posix_pager_prefix() + command + ")"@,
        Some(ShellType::Fish) => fish_pager_prefix() + command + "; end"@,
        Some(ShellType::PowerShell) => pwsh_pager_prefix() + command + " }"@,
        None => command,
    }
}

/// Wraps a command so that it runs without a pager; see [`pager_free_spec`].
pub fn turn_off_pager_for_command(shell: Option<ShellType>, command: &str) -> (r: String)
    ensures
        r@ == pager_free_spec(shell, command@),
{
    match shell {
        Some(ShellType::Zsh) | Some(ShellType::Bash) => {
            let mut out = String::from_str(
                "(unset PAGER GIT_PAGER MANPAGER; export PAGER=cat GIT_PAGER=cat MANPAGER=cat GIT_CONFIG_COUNT=1 GIT_CONFIG_KEY_0=core.pager GIT_CONFIG_VALUE_0=cat; ",
            );
            out.append(command);
            out.append(")");
            out
        },
        Some(ShellType::Fish) => {
            let mut out = String::from_str(
                "begin; set -e PAGER; set -e GIT_PAGER; set -e MANPAGER; set -lx PAGER cat; set -lx GIT_PAGER cat; set -lx MANPAGER cat; set -lx GIT_CONFIG_COUNT 1; set -lx GIT_CONFIG_KEY_0 core.pager; set -lx GIT_CONFIG_VALUE_0 cat; ",
            );
            out.append(command);
            out.append("; end");
            out
        },
        Some(ShellType::PowerShell) => {
            let mut out = String::from_str(
                "& { Remove-Item Env:PAGER -ErrorAction SilentlyContinue; Remove-Item Env:GIT_PAGER -ErrorAction SilentlyContinue; Remove-Item Env:MANPAGER -ErrorAction SilentlyContinue; $env:PAGER='cat'; $env:GIT_PAGER='cat'; $env:MANPAGER='cat'; $env:GIT_CONFIG_COUNT='1'; $env:GIT_CONFIG_KEY_0='core.pager'; $env:GIT_CONFIG_VALUE_0='cat'; ",
            );
            out.append(command);
            out.append(" }");
            out
        },
        None => String::from_str(command),
    }
}

/// The command actually run for a requested command: without a pager when the agent waits
/// for completion, verbatim otherwise.
pub fn command_to_run(shell: Option<ShellType>, command: &str, wait_until_completion: bool) -> (r: String)
    ensures
        r@ == if wait_until_completion {
            pager_free_spec(shell, command@)
        } else {
            command@
        },
{
    if wait_until_completion {
        turn_off_pager_for_command(shell, command)
    } else {
        String::from_str(command)
    }
}

/// The part of a command grid after its first line: what follows the first `\n`, if it is
/// not blank; otherwise nothing.
pub open spec fn after_first_line_spec(grid: Seq<char>) -> Seq<char> {
    match find_char_from(grid, '\n', 0) {
        Some(i) => if all_ws(grid.skip(i + 1)) {
            Seq::empty()
        } else {
            grid.skip(i + 1)
        },
        None => Seq::empty(),
    }
}

/// The text returned to the agent for a block: the unobfuscated output if it is not blank,
/// else the displayed output, else the full grid output, else the command grid after its
/// first line.
pub open spec fn block_output_spec(
    primary: Seq<char>,
    displayed: Seq<char>,
    forced: Seq<char>,
    command_grid: Seq<char>,
) -> Seq<char> {
    if !all_ws(primary) {
        primary
    } else if !all_ws(displayed) {
        displayed
    } else if !all_ws(forced) {
        forced
    } else {
        after_first_line_spec(command_grid)
    }
}

/// Chooses the output text returned to the agent; see [`block_output_spec`].
pub fn agent_shell_command_block_output(
    primary: String,
    displayed: String,
    forced: String,
    command_grid: &str,
) -> (r: String)
    ensures
        r@ == block_output_spec(primary@, displayed@, forced@, command_grid@),
{
    if !is_blank(primary.as_str()) {
        return primary;
    }
    if !is_blank(displayed.as_str()) {
        return displayed;
    }
    if !is_blank(forced.as_str()) {
        return forced;
    }
    match find_char(command_grid, '\n', 0) {
        Some(i) => {
            proof {
                lemma_find_char_from(command_grid@, '\n', 0);
            }
            let n = command_grid.unicode_len();
            let rest = command_grid.substring_char(i + 1, n);
            proof {
                assert(rest@ =~= command_grid@.skip(i + 1));
            }
            if is_blank(rest) {
                String::new()
            } else {
                String::from_str(rest)
            }
        },
        None => String::new(),
    }
}

/// Whether writing to a running command may go ahead without asking: always when the block
/// is gone or finished (its final output is returned); otherwise when writes are always
/// allowed, or allowed after the first one and the agent has written to this block before.
pub fn should_autoexecute_write_to_pty(
    block_finished_or_missing: bool,
    permission: WriteToPtyPermission,
    agent_has_written_to_block: bool,
) -> (r: bool)
    ensures
        r == (block_finished_or_missing || permission == WriteToPtyPermission::AlwaysAllow || (
        permission == WriteToPtyPermission::AskOnFirstWrite && agent_has_written_to_block)),
{
    if block_finished_or_missing {
        return true;
    }
    match permission {
        WriteToPtyPermission::AlwaysAllow => true,
        WriteToPtyPermission::AskOnFirstWrite => agent_has_written_to_block,
        _ => false,
    }
}

// ---------------------------------------------------------------------------
// Tokens of a command line
// ---------------------------------------------------------------------------

/// The first index `>= from` at which `s` holds `c`.
pub open spec fn find_char_from(s: Seq<char>, c: char, from: int) -> Option<int>
    decreases s.len() - from,
{
    if from < 0 || from >= s.len() {
        None
    } else if s[from] == c {
        Some(from)
    } else {
        find_char_from(s, c, from + 1)
    }
}

/// The first index `>= from` of a whitespace character in `s`, or `s.len()`.
pub open spec fn find_ws_from(s: Seq<char>, from: int) -> int
    decreases s.len() - from,
{
    if from < 0 || from >= s.len() {
        s.len() as int
    } else if is_ws(s[from]) {
        from
    } else {
        find_ws_from(s, from + 1)
    }
}

/// The first token of a command line and the text after it.
///
/// Leading whitespace is skipped. A token opened by `"` or `'` runs to the next equal
/// quote, which must be followed by whitespace or the end; a token with no closing quote,
/// or with text stuck to its closing quote, gives `None`. Any other token runs to the next
/// whitespace. An empty or blank line gives `None`.
pub open spec fn first_command_token_spec(command: Seq<char>) -> Option<(Seq<char>, Seq<char>)> {
    let s = trim_start(command);
    if s.len() == 0 {
        None
    } else if s[0] == '"' || s[0] == '\'' {
        match find_char_from(s, s[0], 1) {
            None => None,
            Some(idx) => {
                let rest = s.skip(idx + 1);
                if rest.len() > 0 && !is_ws(rest[0]) {
                    None
                } else {
                    Some((s.subrange(1, idx), rest))
                }
            },
        }
    } else {
        let end = find_ws_from(s, 0);
        Some((s.take(end), s.skip(end)))
    }
}

pub proof fn lemma_find_char_from(s: Seq<char>, c: char, from: int)
    requires
        0 <= from,
    ensures
        match find_char_from(s, c, from) {
            Some(i) => from <= i < s.len() && s[i] == c && forall|j: int|
                from <= j < i ==> #[trigger] s[j] != c,
            None => forall|j: int| from <= j < s.len() ==> #[trigger] s[j] != c,
        },
    decreases s.len() - from,
{
    if from < s.len() && s[from] != c {
        lemma_find_char_from(s, c, from + 1);
    }
}

pub proof fn lemma_find_ws_from(s: Seq<char>, from: int)
    requires
        0 <= from <= s.len(),
    ensures
        from <= find_ws_from(s, from) <= s.len(),
        find_ws_from(s, from) < s.len() ==> is_ws(s[find_ws_from(s, from)]),
        forall|j: int| from <= j < find_ws_from(s, from) ==> !is_ws(#[trigger] s[j]),
    decreases s.len() - from,
{
    if from < s.len() && !is_ws(s[from]) {
        lemma_find_ws_from(s, from + 1);
    }
}

/// Index of the first `c` at or after `from` in `s`, if any.
fn find_char(s: &str, c: char, from: usize) -> (r: Option<usize>)
    ensures
        match r {
            Some(i) => find_char_from(s@, c, from as int) == Some(i as int),
            None => find_char_from(s@, c, from as int) is None,
        },
{
    let n = s.unicode_len();
    let mut i = from;
    while i < n
        invariant
            n == s@.len(),
            from <= i,
            find_char_from(s@, c, from as int) == find_char_from(s@, c, i as int),
        decreases n - i,
    {
        if s.get_char(i) == c {
            return Some(i);
        }
        i = i + 1;
    }
    None
}

/// Index of the first whitespace at or after `from` in `s`, or its length.
fn find_whitespace(s: &str, from: usize) -> (r: usize)
    requires
        from <= s@.len(),
    ensures
        r == find_ws_from(s@, from as int),
        r <= s@.len(),
{
    proof {
        lemma_find_ws_from(s@, from as int);
    }
    let n = s.unicode_len();
    let mut i = from;
    while i < n
        invariant
            n == s@.len(),
            from <= i <= n,
            find_ws_from(s@, from as int) == find_ws_from(s@, i as int),
        decreases n - i,
    {
        if is_whitespace(s.get_char(i)) {
            return i;
        }
        i = i + 1;
    }
    n
}

/// The first token of a command line and the rest of it; see [`first_command_token_spec`].
pub fn first_command_token(command: &str) -> (r: Option<(&str, &str)>)
    ensures
        match r {
            Some((t, rest)) => first_command_token_spec(command@) == Some((t@, rest@)),
            None => first_command_token_spec(command@) is None,
        },
{
    let s = trim_start_str(command);
    let n = s.unicode_len();
    if n == 0 {
        return None;
    }
    let first = s.get_char(0);
    if first == '"' || first == '\'' {
        proof {
            lemma_find_char_from(s@, first, 1);
        }
        match find_char(s, first, 1) {
            None => None,
            Some(idx) => {
                let token = s.substring_char(1, idx);
                let rest = s.substring_char(idx + 1, n);
                proof {
                    assert(rest@ =~= s@.skip(idx + 1));
                }
                if rest.unicode_len() > 0 && !is_whitespace(rest.get_char(0)) {
                    return None;
                }
                Some((token, rest))
            },
        }
    } else {
        let end = find_whitespace(s, 0);
        let token = s.substring_char(0, end);
        let rest = s.substring_char(end, n);
        proof {
            assert(token@ =~= s@.take(end as int));
            assert(rest@ =~= s@.skip(end as int));
        }
        Some((token, rest))
    }
}

/// Index of the last `/` or `\` in `s`, or -1.
pub open spec fn last_separator(s: Seq<char>) -> int
    decreases s.len(),
{
    if s.len() == 0 {
        -1
    } else if s.last() == '/' || s.last() == '\\' {
        s.len() - 1
    } else {
        last_separator(s.drop_last())
    }
}

/// The last path component of a command token: what follows its last `/` or `\`.
pub open spec fn basename_spec(s: Seq<char>) -> Seq<char> {
    s.skip(last_separator(s) + 1)
}

pub proof fn lemma_last_separator(s: Seq<char>)
    ensures
        -1 <= last_separator(s) < s.len(),
        last_separator(s) >= 0 ==> (s[last_separator(s)] == '/' || s[last_separator(s)] == '\\'),
        forall|j: int|
            last_separator(s) < j < s.len() ==> #[trigger] s[j] != '/' && s[j] != '\\',
    decreases s.len(),
{
    if s.len() > 0 && !(s.last() == '/' || s.last() == '\\') {
        lemma_last_separator(s.drop_last());
        assert forall|j: int| last_separator(s) < j < s.len() implies #[trigger] s[j] != '/'
            && s[j] != '\\' by {
            if j < s.len() - 1 {
                assert(s[j] == s.drop_last()[j]);
            }
        }
    }
}

pub proof fn lemma_last_separator_char(s: Seq<char>, k: int)
    requires
        -1 <= k < s.len(),
        k >= 0 ==> (s[k] == '/' || s[k] == '\\'),
        forall|j: int| k < j < s.len() ==> #[trigger] s[j] != '/' && s[j] != '\\',
    ensures
        last_separator(s) == k,
    decreases s.len(),
{
    if s.len() > 0 && k < s.len() - 1 {
        let t = s.drop_last();
        assert forall|j: int| k < j < t.len() implies #[trigger] t[j] != '/' && t[j] != '\\' by {
            assert(t[j] == s[j]);
        }
        if k >= 0 {
            assert(t[k] == s[k]);
        }
        lemma_last_separator_char(t, k);
    }
}

/// The last path component of a command token.
pub fn command_basename(command_token: &str) -> (r: &str)
    ensures
        r@ == basename_spec(command_token@),
{
    let n = command_token.unicode_len();
    let mut k: usize = n;
    while k > 0
        invariant
            n == command_token@.len(),
            k <= n,
            forall|j: int| k <= j < n ==> #[trigger] command_token@[j] != '/' && command_token@[j]
                != '\\',
        ensures
            k <= n,
            forall|j: int| k <= j < n ==> #[trigger] command_token@[j] != '/' && command_token@[j]
                != '\\',
            k == 0 || command_token@[k - 1] == '/' || command_token@[k - 1] == '\\',
        decreases k,
    {
        let c = command_token.get_char(k - 1);
        if c == '/' || c == '\\' {
            break;
        }
        k = k - 1;
    }
    proof {
        lemma_last_separator_char(command_token@, k - 1);
    }
    command_token.substring_char(k, n)
}

/// The entry-point token of a command line: the first token, or the one after a leading
/// `&` or `command` (any ASCII case), with the text after it.
pub open spec fn first_executable_token_spec(command: Seq<char>) -> Option<(Seq<char>, Seq<char>)> {
    match first_command_token_spec(command) {
        None => None,
        Some((token, rest)) => if token == seq!['&'] || eq_ignore_ascii_case_spec(
            token,
            seq!['c', 'o', 'm', 'm', 'a', 'n', 'd'],
        ) {
            first_command_token_spec(rest)
        } else {
            Some((token, rest))
        },
    }
}

/// The entry-point token of a command line; see [`first_executable_token_spec`].
pub fn first_executable_token(command: &str) -> (r: Option<(&str, &str)>)
    ensures
        match r {
            Some((t, rest)) => first_executable_token_spec(command@) == Some((t@, rest@)),
            None => first_executable_token_spec(command@) is None,
        },
{
    let (token, rest) = match first_command_token(command) {
        Some(p) => p,
        None => return None,
    };
    let amp = "&";
    let cmd = "command";
    proof {
        reveal_strlit("&");
        reveal_strlit("command");
        assert(amp@ =~= seq!['&']);
        assert(cmd@ =~= seq!['c', 'o', 'm', 'm', 'a', 'n', 'd']);
    }
    if str_eq(token, amp) || eq_ignore_ascii_case(token, cmd) {
        first_command_token(rest)
    } else {
        Some((token, rest))
    }
}

/// The lower-cased program name that a command line runs.
pub open spec fn first_executable_name_spec(command: Seq<char>) -> Option<Seq<char>> {
    match first_executable_token_spec(command) {
        None => None,
        Some((token, _)) => Some(ascii_lower_seq(basename_spec(token))),
    }
}

/// The lower-cased program name that a command line runs, without its directory.
pub fn first_executable_name(command: &str) -> (r: Option<String>)
    ensures
        match r {
            Some(name) => first_executable_name_spec(command@) == Some(name@),
            None => first_executable_name_spec(command@) is None,
        },
{
    let (token, _) = match first_executable_token(command) {
        Some(p) => p,
        None => return None,
    };
    Some(to_ascii_lowercase(command_basename(token)))
}

/// A command line whose program is `ssh` or `ssh.exe` (any case, any directory) rewritten
/// to run plain `ssh` with the same arguments; `None` for any other program.
pub open spec fn normalized_ssh_command_spec(command: Seq<char>) -> Option<Seq<char>> {
    match first_executable_token_spec(command) {
        None => None,
        Some((token, rest)) => {
            let name = basename_spec(token);
            if eq_ignore_ascii_case_spec(name, seq!['s', 's', 'h']) || eq_ignore_ascii_case_spec(
                name,
                seq!['s', 's', 'h', '.', 'e', 'x', 'e'],
            ) {
                Some(seq!['s', 's', 'h'] + rest)
            } else {
                None
            }
        },
    }
}

/// Rewrites an `ssh` invocation with a path or `.exe` suffix to plain `ssh`.
pub fn normalized_ssh_command(command: &str) -> (r: Option<String>)
    ensures
        match r {
            Some(s) => normalized_ssh_command_spec(command@) == Some(s@),
            None => normalized_ssh_command_spec(command@) is None,
        },
{
    let (token, rest) = match first_executable_token(command) {
        Some(p) => p,
        None => return None,
    };
    let name = command_basename(token);
    let ssh = "ssh";
    let ssh_exe = "ssh.exe";
    proof {
        reveal_strlit("ssh");
        reveal_strlit("ssh.exe");
        assert(ssh@ =~= seq!['s', 's', 'h']);
        assert(ssh_exe@ =~= seq!['s', 's', 'h', '.', 'e', 'x', 'e']);
    }
    if eq_ignore_ascii_case(name, ssh) || eq_ignore_ascii_case(name, ssh_exe) {
        let mut out = String::from_str(ssh);
        out.append(rest);
        Some(out)
    } else {
        None
    }
}

/// The command that a generator wrapper runs, given the words of its command line: with at
/// least three words whose first is `Zap-Run-GeneratorCommand` (any ASCII case) or exactly
/// `warp_run_generator_command`, the third word.
pub open spec fn generator_inner_of_words(tokens: Seq<Seq<char>>) -> Option<Seq<char>> {
    if tokens.len() >= 3 && (eq_ignore_ascii_case_spec(tokens[0], "Zap-Run-GeneratorCommand"@)
        || tokens[0] == "warp_run_generator_command"@) {
        Some(tokens[2])
    } else {
        None
    }
}

/// The command wrapped by a generator wrapper: the line (leading whitespace dropped) split
/// into words, read by [`generator_inner_of_words`].
pub open spec fn in_band_generator_command_spec(command: Seq<char>) -> Option<Seq<char>> {
    match shell_split(trim_start(command)) {
        None => None,
        Some(tokens) => generator_inner_of_words(tokens),
    }
}

/// The command that a generator wrapper runs, from the words of its command line; see
/// [`generator_inner_of_words`].
pub fn generator_inner_command(tokens: &[String]) -> (r: Option<String>)
    ensures
        match r {
            Some(s) => generator_inner_of_words(tokens@.map_values(|t: String| t@)) == Some(s@),
            None => generator_inner_of_words(tokens@.map_values(|t: String| t@)) is None,
        },
{
    let ghost words = tokens@.map_values(|t: String| t@);
    if tokens.len() >= 3 {
        let zap = "Zap-Run-GeneratorCommand";
        let warp = "warp_run_generator_command";
        proof {
            assert(words[0] == tokens@[0]@);
            assert(words[2] == tokens@[2]@);
        }
        if eq_ignore_ascii_case(tokens[0].as_str(), zap) || str_eq(tokens[0].as_str(), warp) {
            return Some(tokens[2].clone());
        }
    }
    None
}

/// Unwraps a generator-wrapped command line; see [`in_band_generator_command_spec`].
pub fn in_band_generator_command(command: &str) -> (r: Option<String>)
    ensures
        match r {
            Some(s) => in_band_generator_command_spec(command@) == Some(s@),
            None => in_band_generator_command_spec(command@) is None,
        },
{
    let trimmed = trim_start_str(command);
    let tokens = match split_words(trimmed) {
        Some(t) => t,
        None => return None,
    };
    proof {
        assert(tokens.deep_view() =~= tokens@.map_values(|t: String| t@));
    }
    generator_inner_command(tokens.as_slice())
}

/// The programs that open a session which never ends on its own and have no non-interactive
/// forms to tell apart: `mosh`, `sftp` and `telnet`, with or without `.exe`.
pub open spec fn is_session_program(name: Seq<char>) -> bool {
    name == "mosh"@ || name == "mosh.exe"@ || name == "sftp"@ || name == "sftp.exe"@ || name == "telnet"@
        || name == "telnet.exe"@
}

/// Whether `command` starts a session that never ends on its own, where `ssh` says whether a
/// command line is an interactive `ssh` invocation. The line (leading whitespace dropped)
/// does when the command a generator wrapper runs does (followed at most `depth` wrappers
/// deep), when it is an interactive `ssh` line itself or once an `ssh` program given by path
/// or as `ssh.exe` is rewritten to bare `ssh`, or when the program it runs is a session program
/// (see [`is_session_program`]).
pub open spec fn starts_session_spec(command: Seq<char>, depth: nat, ssh: spec_fn(Seq<char>) -> bool) -> bool
    decreases depth,
{
    let c = trim_start(command);
    ||| (depth > 0 && match in_band_generator_command_spec(c) {
        Some(inner) => starts_session_spec(inner, (depth - 1) as nat, ssh),
        None => false,
    })
    ||| ssh(c)
    ||| (match normalized_ssh_command_spec(c) {
        Some(n) => ssh(n),
        None => false,
    })
    ||| (match first_executable_name_spec(c) {
        Some(name) => is_session_program(name),
        None => false,
    })
}

/// The ssh check returned `r` for a line with this text.
pub open spec fn has_ssh_verdict<F: Fn(&str) -> bool>(f: F, s: Seq<char>, r: bool) -> bool {
    exists|x: &str| x@ == s && #[trigger] call_ensures(f, (x,), r)
}

/// The ssh check's answer for a line, as a function of its text.
pub open spec fn ssh_verdict<F: Fn(&str) -> bool>(f: F, s: Seq<char>) -> bool {
    choose|r: bool| #[trigger] has_ssh_verdict(f, s, r)
}

/// The ssh check gives equal answers for lines with equal text.
pub open spec fn ssh_check_deterministic<F: Fn(&str) -> bool>(f: F) -> bool {
    forall|a: &str, b: &str, ra: bool, rb: bool|
        a@ == b@ && #[trigger] call_ensures(f, (a,), ra) && #[trigger] call_ensures(f, (b,), rb) ==> ra == rb
}

proof fn lemma_ssh_verdict<F: Fn(&str) -> bool>(f: F, x: &str, r: bool)
    requires
        ssh_check_deterministic(f),
        call_ensures(f, (x,), r),
    ensures
        ssh_verdict(f, x@) == r,
{
    assert(has_ssh_verdict(f, x@, r));
    let r2 = ssh_verdict(f, x@);
    assert(has_ssh_verdict(f, x@, r2));
    let x2 = choose|x2: &str| x2@ == x@ && call_ensures(f, (x2,), r2);
    assert(call_ensures(f, (x2,), r2));
}

fn is_session_program_name(name: &str) -> (r: bool)
    ensures
        r == is_session_program(name@),
{
    str_eq(name, "mosh") || str_eq(name, "mosh.exe") || str_eq(name, "sftp") || str_eq(name, "sftp.exe")
        || str_eq(name, "telnet") || str_eq(name, "telnet.exe")
}

fn starts_session_to_depth<F: Fn(&str) -> bool>(command: &str, depth: usize, is_interactive_ssh: &F) -> (r: bool)
    requires
        forall|x: &str| call_requires(*is_interactive_ssh, (x,)),
    ensures
        ssh_check_deterministic(*is_interactive_ssh) ==> r == starts_session_spec(
            command@,
            depth as nat,
            |s: Seq<char>| ssh_verdict(*is_interactive_ssh, s),
        ),
    decreases depth,
{
    let ghost ssh = |s: Seq<char>| ssh_verdict(*is_interactive_ssh, s);
    let c = trim_start_str(command);
    if depth > 0 {
        if let Some(inner) = in_band_generator_command(c) {
            if starts_session_to_depth(inner.as_str(), depth - 1, is_interactive_ssh) {
                return true;
            }
        }
    }
    let direct = is_interactive_ssh(c);
    proof {
        if ssh_check_deterministic(*is_interactive_ssh) {
            lemma_ssh_verdict(*is_interactive_ssh, c, direct);
        }
    }
    if direct {
        return true;
    }
    if let Some(n) = normalized_ssh_command(c) {
        let n_str = n.as_str();
        let via_path = is_interactive_ssh(n_str);
        proof {
            if ssh_check_deterministic(*is_interactive_ssh) {
                lemma_ssh_verdict(*is_interactive_ssh, n_str, via_path);
            }
        }
        if via_path {
            return true;
        }
    }
    match first_executable_name(c) {
        Some(name) => is_session_program_name(name.as_str()),
        None => false,
    }
}

/// Whether `command` starts a session that never ends on its own; see
/// [`starts_session_spec`]. `is_interactive_ssh` recognises an interactive `ssh` line. Generator
/// wrappers are followed as deep as the line is long: a wrapped command is a word of its
/// line, so it is shorter than the line and deeper nesting cannot occur.
pub fn command_starts_non_terminating_session<F: Fn(&str) -> bool>(command: &str, is_interactive_ssh: &F) -> (r: bool)
    requires
        forall|x: &str| call_requires(*is_interactive_ssh, (x,)),
    ensures
        ssh_check_deterministic(*is_interactive_ssh) ==> r == starts_session_spec(
            command@,
            command@.len(),
            |s: Seq<char>| ssh_verdict(*is_interactive_ssh, s),
        ),
{
    starts_session_to_depth(command, command.unicode_len(), is_interactive_ssh)
}

/// The wait for reading a command's output; see [`read_delay_for_session`] and
/// [`command_starts_non_terminating_session`].
pub fn effective_read_shell_command_delay<F: Fn(&str) -> bool>(
    command: &str,
    delay: Option<ShellCommandDelay>,
    is_interactive_ssh: &F,
) -> (r: ActionResultDelay)
    requires
        forall|x: &str| call_requires(*is_interactive_ssh, (x,)),
    ensures
        ssh_check_deterministic(*is_interactive_ssh) ==> r == effective_read_spec(
            starts_session_spec(command@, command@.len(), |s: Seq<char>| ssh_verdict(*is_interactive_ssh, s)),
            delay,
        ),
{
    let starts = command_starts_non_terminating_session(command, is_interactive_ssh);
    read_delay_for_session(starts, delay)
}

/// What a wait for output times out after: the default wait after two seconds, a requested
/// duration or completion wait after what was asked but never more than two minutes, and a
/// wait until completion never.
pub proof fn lemma_wait_timeouts(delay: ActionResultDelay)
    ensures
        delay == ActionResultDelay::Default ==> timeout_spec(delay) == Some(2_000u64),
        delay matches ActionResultDelay::Duration(d) ==> timeout_spec(delay) == Some(
            if d < 120_000 {
                d
            } else {
                120_000u64
            },
        ),
        delay matches ActionResultDelay::OnCompletion { timeout_ms } ==> timeout_spec(delay) == Some(
            if timeout_ms < 120_000 {
                timeout_ms
            } else {
                120_000u64
            },
        ),
        timeout_spec(delay) is None <==> delay == ActionResultDelay::UntilCompletion,
{
}

/// Dropping leading whitespace twice drops no more than once.
proof fn lemma_trim_start_idempotent(s: Seq<char>)
    ensures
        trim_start(trim_start(s)) == trim_start(s),
{
    let t = trim_start(s);
    lemma_leading_ws_bound(s);
    if leading_ws(s) < s.len() {
        assert(t[0] == s[leading_ws(s) as int]);
    }
    lemma_leading_ws_char(t, 0);
    assert(t.skip(0) =~= t);
}

/// A command line that runs `mosh`, `sftp` or `telnet` (by bare name, with or without `.exe`)
/// starts a session that never ends on its own, whatever the ssh check says.
pub proof fn lemma_session_programs_are_recognised(command: Seq<char>, depth: nat, ssh: spec_fn(Seq<char>) -> bool)
    requires
        first_executable_name_spec(command) matches Some(name) && (name == "mosh"@ || name == "mosh.exe"@
            || name == "sftp"@ || name == "sftp.exe"@ || name == "telnet"@ || name == "telnet.exe"@),
    ensures
        starts_session_spec(command, depth, ssh),
{
    lemma_trim_start_idempotent(command);
    assert(first_command_token_spec(trim_start(command)) == first_command_token_spec(command));
    assert(first_executable_name_spec(trim_start(command)) == first_executable_name_spec(command));
}

} // verus!
