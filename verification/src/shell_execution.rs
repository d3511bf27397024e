//! Running agent shell actions against a terminal: what each action does at once, what it
//! waits for, and what result the agent gets once the wait is over.
//!
//! The terminal itself is outside: the caller reads what the logic needs of a block into a
//! [`BlockState`], performs the plan's side effect (running a command, writing to the pty,
//! handing control to the user), waits as the plan says, and hands back why the wait ended.
use vstd::prelude::*;
use vstd::string::*;

use crate::execution_profiles::WriteToPtyPermission;
use crate::shell_command::{
    action_result_delay_for_requested_command, command_to_run, compute_is_preempted,
    effective_read_shell_command_delay, effective_read_spec, ssh_check_deterministic, ssh_verdict,
    starts_session_spec, is_preempted_spec, pager_free_spec,
    should_autoexecute_write_to_pty, ActionResultDelay, ShellCommandDelay, ShellType, WakeReason,
    WRITE_TO_PTY_DELAY_MS,
};

verus! {

/// What the terminal tells of one block.
#[derive(Debug, Clone, PartialEq, Eq)]
pub struct BlockState {
    pub block_id: String,
    pub finished: bool,
    /// The output text chosen for the agent (see `agent_shell_command_block_output`).
    pub agent_output: String,
    /// The block's output with secrets shown.
    pub raw_output: String,
    /// The block's command with secrets shown.
    pub command: String,
    pub exit_code: i32,
    /// The formatted contents of the visible grid (the alternate screen when it is active).
    pub grid_contents: String,
    pub is_alt_screen_active: bool,
}

/// What a wait for a block produced.
#[derive(Debug, Clone, PartialEq, Eq)]
pub enum ActionResult {
    CommandFinished { block_id: String, output: String, exit_code: i32 },
    LongRunningCommandSnapshot {
        block_id: String,
        grid_contents: String,
        cursor: String,
        is_alt_screen_active: bool,
        is_preempted: bool,
    },
    Cancelled,
    BlockNotFound,
}

/// How a hand-over of control to the user ended.
#[derive(Debug, Clone, Copy, PartialEq, Eq, Structural)]
pub enum TransferControlResult {
    ControlHandedBack,
    BlockFinished,
    Cancelled,
}

/// Errors reported to the agent by shell actions.
#[derive(Debug, Clone, Copy, PartialEq, Eq, Structural)]
pub enum ShellCommandError {
    BlockNotFound,
}

/// The result of running a requested command.
#[derive(Debug, Clone, PartialEq, Eq)]
pub enum RequestCommandOutputResult {
    Completed { command: String, block_id: String, output: String, exit_code: i32 },
    LongRunningCommandSnapshot {
        command: String,
        block_id: String,
        grid_contents: String,
        cursor: String,
        is_alt_screen_active: bool,
    },
    CancelledBeforeExecution,
}

/// The result of writing to a running command.
#[derive(Debug, Clone, PartialEq, Eq)]
pub enum WriteToLongRunningShellCommandResult {
    CommandFinished { block_id: String, output: String, exit_code: i32 },
    Snapshot {
        block_id: String,
        grid_contents: String,
        cursor: String,
        is_alt_screen_active: bool,
        is_preempted: bool,
    },
    Cancelled,
    Error(ShellCommandError),
}

/// The result of reading a command's output.
#[derive(Debug, Clone, PartialEq, Eq)]
pub enum ReadShellCommandOutputResult {
    CommandFinished { command: String, block_id: String, output: String, exit_code: i32 },
    LongRunningCommandSnapshot {
        command: String,
        block_id: String,
        grid_contents: String,
        cursor: String,
        is_alt_screen_active: bool,
        is_preempted: bool,
    },
    Cancelled,
    Error(ShellCommandError),
}

/// The result of handing a running command over to the user.
#[derive(Debug, Clone, PartialEq, Eq)]
pub enum TransferShellCommandControlToUserResult {
    CommandFinished { block_id: String, output: String, exit_code: i32 },
    Snapshot {
        block_id: String,
        grid_contents: String,
        cursor: String,
        is_alt_screen_active: bool,
        is_preempted: bool,
    },
    Cancelled,
    Error(ShellCommandError),
}

/// The result of a shell action, by kind of action.
#[derive(Debug, Clone, PartialEq, Eq)]
pub enum ShellActionResult {
    RequestCommandOutput(RequestCommandOutputResult),
    WriteToLongRunningShellCommand(WriteToLongRunningShellCommandResult),
    ReadShellCommandOutput(ReadShellCommandOutputResult),
    TransferShellCommandControlToUser(TransferShellCommandControlToUserResult),
}

/// A shell action requested by the agent, with what its handling reads.
#[derive(Debug, Clone, PartialEq, Eq)]
pub enum ShellActionRequest {
    RequestCommandOutput { command: String, wait_until_completion: bool },
    WriteToLongRunningShellCommand { block_id: String },
    ReadShellCommandOutput { block_id: String, delay: Option<ShellCommandDelay> },
    TransferShellCommandControlToUser { reason: String },
    /// An action that this executor does not handle.
    Other,
}

/// What the terminal tells of itself when an action starts.
#[derive(Debug, Clone, PartialEq, Eq)]
pub struct TerminalFacts {
    /// The shell of the session, if known.
    pub shell: Option<ShellType>,
    /// Whether the active block is running and long-running.
    pub active_block_long_running: bool,
    pub active_block_id: String,
    /// The block that the action names, if it names one and the terminal has it.
    pub target: Option<BlockState>,
}

/// What to do for a shell action.
#[derive(Debug, Clone, PartialEq, Eq)]
pub enum ExecutionPlan {
    /// The result is known at once.
    Immediate(ShellActionResult),
    /// Run `command` in the terminal, then wait on the block of this action; the result is
    /// reported under `requested`, the command as the agent asked for it.
    RunCommand { command: String, requested: String, delay: ActionResultDelay },
    /// Mark the block as written to by the agent, write to its pty, then wait on it.
    WriteToPty { block_id: String, delay: ActionResultDelay },
    /// Wait on the block, then report its output under `command`.
    ReadOutput { block_id: String, command: String, delay: ActionResultDelay },
    /// Hand the block over to the user and wait until control comes back or it finishes.
    TransferControl { block_id: String, reason: String },
    /// The action is not one of this executor's.
    Invalid,
}

/// The result that a block gives: its final output once finished, else a snapshot of its grid.
pub open spec fn block_result_spec(block: Option<BlockState>, cursor: Seq<char>, is_preempted: bool, r: ActionResult) -> bool {
    match block {
        None => r == ActionResult::BlockNotFound,
        Some(b) => if b.finished {
            r == (ActionResult::CommandFinished {
                block_id: b.block_id,
                output: b.agent_output,
                exit_code: b.exit_code,
            })
        } else {
            &&& r matches ActionResult::LongRunningCommandSnapshot {
                block_id,
                grid_contents,
                cursor: c,
                is_alt_screen_active,
                is_preempted: p,
            }
            &&& block_id == b.block_id
            &&& grid_contents == b.grid_contents
            &&& c@ == cursor
            &&& is_alt_screen_active == b.is_alt_screen_active
            &&& p == is_preempted
        },
    }
}

/// The result that a block gives when a wait on it ends.
fn result_for_block(block: Option<BlockState>, cursor: &str, is_preempted: bool) -> (r: ActionResult)
    ensures
        block_result_spec(block, cursor@, is_preempted, r),
{
    match block {
        None => ActionResult::BlockNotFound,
        Some(b) => {
            if b.finished {
                ActionResult::CommandFinished {
                    block_id: b.block_id,
                    output: b.agent_output,
                    exit_code: b.exit_code,
                }
            } else {
                ActionResult::LongRunningCommandSnapshot {
                    block_id: b.block_id,
                    grid_contents: b.grid_contents,
                    cursor: String::from_str(cursor),
                    is_alt_screen_active: b.is_alt_screen_active,
                    is_preempted,
                }
            }
        },
    }
}

/// The result of a wait for output. `wake` is why the wait ended, or `None` when its channel
/// was dropped (the executor went away): that is a cancellation. Otherwise the block, as the
/// terminal shows it then, decides; a snapshot is a preemption as [`is_preempted_spec`] says.
pub fn result_after_wait(
    wake: Option<WakeReason>,
    delay: ActionResultDelay,
    block: Option<BlockState>,
    cursor: &str,
) -> (r: ActionResult)
    ensures
        match wake {
            None => r == ActionResult::Cancelled,
            Some(w) => block_result_spec(block, cursor@, is_preempted_spec(w, delay), r),
        },
{
    match wake {
        None => ActionResult::Cancelled,
        Some(w) => {
            let is_preempted = compute_is_preempted(w, delay);
            result_for_block(block, cursor, is_preempted)
        },
    }
}

/// The result of handing control to the user: a cancellation stays one; otherwise the block
/// decides, and a snapshot taken then is never a preemption.
pub fn result_after_transfer(
    outcome: TransferControlResult,
    block: Option<BlockState>,
    cursor: &str,
) -> (r: ActionResult)
    ensures
        match outcome {
            TransferControlResult::Cancelled => r == ActionResult::Cancelled,
            _ => block_result_spec(block, cursor@, false, r),
        },
{
    match outcome {
        TransferControlResult::Cancelled => ActionResult::Cancelled,
        _ => result_for_block(block, cursor, false),
    }
}

/// The agent's result for a requested command. The command is reported as requested; a
/// snapshot carries no preemption flag; a missing block or a cancellation both mean the
/// command was cancelled before it ran.
pub fn action_result_for_requested_command(command: String, result: ActionResult) -> (r:
    ShellActionResult)
    ensures
        r == (match result {
            ActionResult::CommandFinished { block_id, output, exit_code } => {
                ShellActionResult::RequestCommandOutput(
                    RequestCommandOutputResult::Completed { command, block_id, output, exit_code },
                )
            },
            ActionResult::LongRunningCommandSnapshot {
                block_id,
                grid_contents,
                cursor,
                is_alt_screen_active,
                ..
            } => ShellActionResult::RequestCommandOutput(
                RequestCommandOutputResult::LongRunningCommandSnapshot {
                    command,
                    block_id,
                    grid_contents,
                    cursor,
                    is_alt_screen_active,
                },
            ),
            _ => ShellActionResult::RequestCommandOutput(
                RequestCommandOutputResult::CancelledBeforeExecution,
            ),
        }),
{
    match result {
        ActionResult::CommandFinished { block_id, output, exit_code } => {
            ShellActionResult::RequestCommandOutput(
                RequestCommandOutputResult::Completed { command, block_id, output, exit_code },
            )
        },
        ActionResult::LongRunningCommandSnapshot {
            block_id,
            grid_contents,
            cursor,
            is_alt_screen_active,
            ..
        } => ShellActionResult::RequestCommandOutput(
            RequestCommandOutputResult::LongRunningCommandSnapshot {
                command,
                block_id,
                grid_contents,
                cursor,
                is_alt_screen_active,
            },
        ),
        _ => ShellActionResult::RequestCommandOutput(
            RequestCommandOutputResult::CancelledBeforeExecution,
        ),
    }
}

/// The agent's result for a write to a running command.
pub fn action_result_for_write_to_long_running_shell_command(result: ActionResult) -> (r:
    ShellActionResult)
    ensures
        r == (match result {
            ActionResult::CommandFinished { block_id, output, exit_code } => {
                ShellActionResult::WriteToLongRunningShellCommand(
                    WriteToLongRunningShellCommandResult::CommandFinished {
                        block_id,
                        output,
                        exit_code,
                    },
                )
            },
            ActionResult::LongRunningCommandSnapshot {
                block_id,
                grid_contents,
                cursor,
                is_alt_screen_active,
                is_preempted,
            } => ShellActionResult::WriteToLongRunningShellCommand(
                WriteToLongRunningShellCommandResult::Snapshot {
                    block_id,
                    grid_contents,
                    cursor,
                    is_alt_screen_active,
                    is_preempted,
                },
            ),
            ActionResult::Cancelled => ShellActionResult::WriteToLongRunningShellCommand(
                WriteToLongRunningShellCommandResult::Cancelled,
            ),
            ActionResult::BlockNotFound => ShellActionResult::WriteToLongRunningShellCommand(
                WriteToLongRunningShellCommandResult::Error(ShellCommandError::BlockNotFound),
            ),
        }),
{
    match result {
        ActionResult::CommandFinished { block_id, output, exit_code } => {
            ShellActionResult::WriteToLongRunningShellCommand(
                WriteToLongRunningShellCommandResult::CommandFinished {
                    block_id,
                    output,
                    exit_code,
                },
            )
        },
        ActionResult::LongRunningCommandSnapshot {
            block_id,
            grid_contents,
            cursor,
            is_alt_screen_active,
            is_preempted,
        } => ShellActionResult::WriteToLongRunningShellCommand(
            WriteToLongRunningShellCommandResult::Snapshot {
                block_id,
                grid_contents,
                cursor,
                is_alt_screen_active,
                is_preempted,
            },
        ),
        ActionResult::Cancelled => ShellActionResult::WriteToLongRunningShellCommand(
            WriteToLongRunningShellCommandResult::Cancelled,
        ),
        ActionResult::BlockNotFound => ShellActionResult::WriteToLongRunningShellCommand(
            WriteToLongRunningShellCommandResult::Error(ShellCommandError::BlockNotFound),
        ),
    }
}

/// The agent's result for reading a command's output, reported under `command`.
pub fn action_result_for_read_shell_command_output(command: String, result: ActionResult) -> (r:
    ShellActionResult)
    ensures
        r == (match result {
            ActionResult::CommandFinished { block_id, output, exit_code } => {
                ShellActionResult::ReadShellCommandOutput(
                    ReadShellCommandOutputResult::CommandFinished {
                        command,
                        block_id,
                        output,
                        exit_code,
                    },
                )
            },
            ActionResult::LongRunningCommandSnapshot {
                block_id,
                grid_contents,
                cursor,
                is_alt_screen_active,
                is_preempted,
            } => ShellActionResult::ReadShellCommandOutput(
                ReadShellCommandOutputResult::LongRunningCommandSnapshot {
                    command,
                    block_id,
                    grid_contents,
                    cursor,
                    is_alt_screen_active,
                    is_preempted,
                },
            ),
            ActionResult::Cancelled => ShellActionResult::ReadShellCommandOutput(
                ReadShellCommandOutputResult::Cancelled,
            ),
            ActionResult::BlockNotFound => ShellActionResult::ReadShellCommandOutput(
                ReadShellCommandOutputResult::Error(ShellCommandError::BlockNotFound),
            ),
        }),
{
    match result {
        ActionResult::CommandFinished { block_id, output, exit_code } => {
            ShellActionResult::ReadShellCommandOutput(
                ReadShellCommandOutputResult::CommandFinished {
                    command,
                    block_id,
                    output,
                    exit_code,
                },
            )
        },
        ActionResult::LongRunningCommandSnapshot {
            block_id,
            grid_contents,
            cursor,
            is_alt_screen_active,
            is_preempted,
        } => ShellActionResult::ReadShellCommandOutput(
            ReadShellCommandOutputResult::LongRunningCommandSnapshot {
                command,
                block_id,
                grid_contents,
                cursor,
                is_alt_screen_active,
                is_preempted,
            },
        ),
        ActionResult::Cancelled => ShellActionResult::ReadShellCommandOutput(
            ReadShellCommandOutputResult::Cancelled,
        ),
        ActionResult::BlockNotFound => ShellActionResult::ReadShellCommandOutput(
            ReadShellCommandOutputResult::Error(ShellCommandError::BlockNotFound),
        ),
    }
}

/// The agent's result for handing a running command over to the user.
pub fn action_result_for_transfer_shell_command_control_to_user(result: ActionResult) -> (r:
    ShellActionResult)
    ensures
        r == (match result {
            ActionResult::CommandFinished { block_id, output, exit_code } => {
                ShellActionResult::TransferShellCommandControlToUser(
                    TransferShellCommandControlToUserResult::CommandFinished {
                        block_id,
                        output,
                        exit_code,
                    },
                )
            },
            ActionResult::LongRunningCommandSnapshot {
                block_id,
                grid_contents,
                cursor,
                is_alt_screen_active,
                is_preempted,
            } => ShellActionResult::TransferShellCommandControlToUser(
                TransferShellCommandControlToUserResult::Snapshot {
                    block_id,
                    grid_contents,
                    cursor,
                    is_alt_screen_active,
                    is_preempted,
                },
            ),
            ActionResult::Cancelled => ShellActionResult::TransferShellCommandControlToUser(
                TransferShellCommandControlToUserResult::Cancelled,
            ),
            ActionResult::BlockNotFound => ShellActionResult::TransferShellCommandControlToUser(
                TransferShellCommandControlToUserResult::Error(ShellCommandError::BlockNotFound),
            ),
        }),
{
    match result {
        ActionResult::CommandFinished { block_id, output, exit_code } => {
            ShellActionResult::TransferShellCommandControlToUser(
                TransferShellCommandControlToUserResult::CommandFinished {
                    block_id,
                    output,
                    exit_code,
                },
            )
        },
        ActionResult::LongRunningCommandSnapshot {
            block_id,
            grid_contents,
            cursor,
            is_alt_screen_active,
            is_preempted,
        } => ShellActionResult::TransferShellCommandControlToUser(
            TransferShellCommandControlToUserResult::Snapshot {
                block_id,
                grid_contents,
                cursor,
                is_alt_screen_active,
                is_preempted,
            },
        ),
        ActionResult::Cancelled => ShellActionResult::TransferShellCommandControlToUser(
            TransferShellCommandControlToUserResult::Cancelled,
        ),
        ActionResult::BlockNotFound => ShellActionResult::TransferShellCommandControlToUser(
            TransferShellCommandControlToUserResult::Error(ShellCommandError::BlockNotFound),
        ),
    }
}

/// What to do for a shell action, given what the terminal shows.
/// - A requested command is refused (cancelled before it ran) while a long-running command
///   holds the terminal; otherwise it runs, without a pager when the agent waits for its
///   completion, and the wait follows [`action_result_delay_for_requested_command`].
/// - A write or a read names a block: a missing block is an error; a finished block answers
///   at once with its output (the agent's output text for a write, the raw output for a read);
///   otherwise the write goes to the pty and is followed by a short wait, and the read waits
///   as [`effective_read_spec`] says for the block's command, whose session is recognised by
///   [`crate::shell_command::command_starts_non_terminating_session`] with
///   `is_interactive_ssh` as the ssh check.
/// - Control can be handed to the user only while a long-running command holds the terminal.
pub fn plan_shell_action<F: Fn(&str) -> bool>(
    action: ShellActionRequest,
    facts: TerminalFacts,
    is_interactive_ssh: &F,
) -> (r: ExecutionPlan)
    requires
        forall|x: &str| call_requires(*is_interactive_ssh, (x,)),
    ensures
        match action {
            ShellActionRequest::RequestCommandOutput { command, wait_until_completion } => {
                if facts.active_block_long_running {
                    r == ExecutionPlan::Immediate(
                        ShellActionResult::RequestCommandOutput(
                            RequestCommandOutputResult::CancelledBeforeExecution,
                        ),
                    )
                } else {
                    &&& r matches ExecutionPlan::RunCommand { command: c, requested, delay }
                    &&& requested == command
                    &&& c@ == if wait_until_completion {
                        pager_free_spec(facts.shell, command@)
                    } else {
                        command@
                    }
                    &&& delay == if wait_until_completion {
                        ActionResultDelay::UntilCompletion
                    } else {
                        ActionResultDelay::Default
                    }
                }
            },
            ShellActionRequest::WriteToLongRunningShellCommand { block_id } => match facts.target {
                None => r == ExecutionPlan::Immediate(
                    ShellActionResult::WriteToLongRunningShellCommand(
                        WriteToLongRunningShellCommandResult::Error(
                            ShellCommandError::BlockNotFound,
                        ),
                    ),
                ),
                Some(b) => if b.finished {
                    r == ExecutionPlan::Immediate(
                        ShellActionResult::WriteToLongRunningShellCommand(
                            WriteToLongRunningShellCommandResult::CommandFinished {
                                block_id: b.block_id,
                                output: b.agent_output,
                                exit_code: b.exit_code,
                            },
                        ),
                    )
                } else {
                    r == (ExecutionPlan::WriteToPty {
                        block_id,
                        delay: ActionResultDelay::Duration(WRITE_TO_PTY_DELAY_MS),
                    })
                },
            },
            ShellActionRequest::ReadShellCommandOutput { block_id, delay } => match facts.target {
                None => r == ExecutionPlan::Immediate(
                    ShellActionResult::ReadShellCommandOutput(
                        ReadShellCommandOutputResult::Error(ShellCommandError::BlockNotFound),
                    ),
                ),
                Some(b) => if b.finished {
                    r == ExecutionPlan::Immediate(
                        ShellActionResult::ReadShellCommandOutput(
                            ReadShellCommandOutputResult::CommandFinished {
                                command: b.command,
                                block_id,
                                output: b.raw_output,
                                exit_code: b.exit_code,
                            },
                        ),
                    )
                } else {
                    &&& r matches ExecutionPlan::ReadOutput { block_id: rb, command: rc, delay: rd }
                    &&& rb == block_id
                    &&& rc == b.command
                    &&& ssh_check_deterministic(*is_interactive_ssh) ==> rd == effective_read_spec(
                        starts_session_spec(
                            b.command@,
                            b.command@.len(),
                            |s: Seq<char>| ssh_verdict(*is_interactive_ssh, s),
                        ),
                        delay,
                    )
                },
            },
            ShellActionRequest::TransferShellCommandControlToUser { reason } => {
                if facts.active_block_long_running {
                    r == (ExecutionPlan::TransferControl {
                        block_id: facts.active_block_id,
                        reason,
                    })
                } else {
                    r == ExecutionPlan::Immediate(
                        ShellActionResult::TransferShellCommandControlToUser(
                            TransferShellCommandControlToUserResult::Error(
                                ShellCommandError::BlockNotFound,
                            ),
                        ),
                    )
                }
            },
            ShellActionRequest::Other => r == ExecutionPlan::Invalid,
        },
{
    match action {
        ShellActionRequest::RequestCommandOutput { command, wait_until_completion } => {
            if facts.active_block_long_running {
                return ExecutionPlan::Immediate(
                    ShellActionResult::RequestCommandOutput(
                        RequestCommandOutputResult::CancelledBeforeExecution,
                    ),
                );
            }
            let to_run = command_to_run(facts.shell, command.as_str(), wait_until_completion);
            ExecutionPlan::RunCommand {
                command: to_run,
                requested: command,
                delay: action_result_delay_for_requested_command(wait_until_completion),
            }
        },
        ShellActionRequest::WriteToLongRunningShellCommand { block_id } => match facts.target {
            None => ExecutionPlan::Immediate(
                ShellActionResult::WriteToLongRunningShellCommand(
                    WriteToLongRunningShellCommandResult::Error(ShellCommandError::BlockNotFound),
                ),
            ),
            Some(b) => {
                if b.finished {
                    ExecutionPlan::Immediate(
                        ShellActionResult::WriteToLongRunningShellCommand(
                            WriteToLongRunningShellCommandResult::CommandFinished {
                                block_id: b.block_id,
                                output: b.agent_output,
                                exit_code: b.exit_code,
                            },
                        ),
                    )
                } else {
                    ExecutionPlan::WriteToPty {
                        block_id,
                        delay: ActionResultDelay::Duration(WRITE_TO_PTY_DELAY_MS),
                    }
                }
            },
        },
        ShellActionRequest::ReadShellCommandOutput { block_id, delay } => match facts.target {
            None => ExecutionPlan::Immediate(
                ShellActionResult::ReadShellCommandOutput(
                    ReadShellCommandOutputResult::Error(ShellCommandError::BlockNotFound),
                ),
            ),
            Some(b) => {
                if b.finished {
                    ExecutionPlan::Immediate(
                        ShellActionResult::ReadShellCommandOutput(
                            ReadShellCommandOutputResult::CommandFinished {
                                command: b.command,
                                block_id,
                                output: b.raw_output,
                                exit_code: b.exit_code,
                            },
                        ),
                    )
                } else {
                    let wait = effective_read_shell_command_delay(b.command.as_str(), delay, is_interactive_ssh);
                    ExecutionPlan::ReadOutput { block_id, command: b.command, delay: wait }
                }
            },
        },
        ShellActionRequest::TransferShellCommandControlToUser { reason } => {
            if facts.active_block_long_running {
                ExecutionPlan::TransferControl { block_id: facts.active_block_id, reason }
            } else {
                ExecutionPlan::Immediate(
                    ShellActionResult::TransferShellCommandControlToUser(
                        TransferShellCommandControlToUserResult::Error(
                            ShellCommandError::BlockNotFound,
                        ),
                    ),
                )
            }
        },
        ShellActionRequest::Other => ExecutionPlan::Invalid,
    }
}

/// Whether a shell action may run without asking the user.
/// - A requested command: only in a session whose shell is known, and then as the command
///   permission decided (`command_allowed`).
/// - A write to a running command: as [`should_autoexecute_write_to_pty`] says.
/// - Reading output always may; handing control to the user, or any other action, never.
pub fn should_autoexecute(
    action: &ShellActionRequest,
    shell_known: bool,
    command_allowed: bool,
    block_finished_or_missing: bool,
    pty_permission: WriteToPtyPermission,
    agent_has_written_to_block: bool,
) -> (r: bool)
    ensures
        r == match action {
            ShellActionRequest::RequestCommandOutput { .. } => shell_known && command_allowed,
            ShellActionRequest::WriteToLongRunningShellCommand { .. } => (block_finished_or_missing
                || pty_permission == WriteToPtyPermission::AlwaysAllow || (pty_permission
                == WriteToPtyPermission::AskOnFirstWrite && agent_has_written_to_block)),
            ShellActionRequest::ReadShellCommandOutput { .. } => true,
            _ => false,
        },
{
    match action {
        ShellActionRequest::RequestCommandOutput { .. } => shell_known && command_allowed,
        ShellActionRequest::WriteToLongRunningShellCommand { .. } => should_autoexecute_write_to_pty(
            block_finished_or_missing,
            pty_permission,
            agent_has_written_to_block,
        ),
        ShellActionRequest::ReadShellCommandOutput { .. } => true,
        _ => false,
    }
}

} // verus!
