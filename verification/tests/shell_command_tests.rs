use agent_core::shell_command::{
    action_result_delay_for_requested_command, command_basename, compute_is_preempted,
    command_starts_non_terminating_session, effective_read_shell_command_delay, read_delay_for_session,
    first_command_token, first_executable_name,
    first_executable_token, generator_inner_command, in_band_generator_command, normalized_ssh_command,
    ActionResultDelay, ShellCommandDelay, WakeReason, MAX_AGENT_DELAY_MS, MAX_WAIT_MS,
};

#[test]
fn first_command_token_handles_quotes() {
    assert_eq!(first_command_token("  ssh host -p 22"), Some(("ssh", " host -p 22")));
    assert_eq!(first_command_token("\"C:\\ssh.exe\" host"), Some(("C:\\ssh.exe", " host")));
    assert_eq!(first_command_token("'a b'"), Some(("a b", "")));
    assert_eq!(first_command_token("\"foo\"bar"), None);
    assert_eq!(first_command_token("\"unterminated"), None);
    assert_eq!(first_command_token("   "), None);
    assert_eq!(first_command_token(""), None);
}

#[test]
fn basename_takes_the_last_component() {
    assert_eq!(command_basename("/usr/bin/ssh"), "ssh");
    assert_eq!(command_basename("C:\\Windows\\ssh.exe"), "ssh.exe");
    assert_eq!(command_basename("ssh"), "ssh");
    assert_eq!(command_basename("dir/"), "");
}

#[test]
fn executable_token_skips_one_invocation_prefix() {
    assert_eq!(first_executable_token("& \"C:\\x\\ssh.exe\" host"), Some(("C:\\x\\ssh.exe", " host")));
    assert_eq!(first_executable_token("COMMAND ssh host"), Some(("ssh", " host")));
    assert_eq!(first_executable_token("command"), None);
    assert_eq!(first_executable_token("ls -la"), Some(("ls", " -la")));
}

#[test]
fn executable_name_is_lowercased_basename() {
    assert_eq!(first_executable_name("/usr/bin/MOSH host"), Some("mosh".to_string()));
    assert_eq!(first_executable_name("   "), None);
}

#[test]
fn ssh_with_path_is_normalized() {
    assert_eq!(
        normalized_ssh_command("\"C:\\Windows\\System32\\OpenSSH\\ssh.exe\" host -p 22"),
        Some("ssh host -p 22".to_string())
    );
    assert_eq!(normalized_ssh_command("/usr/bin/SSH -T git@x"), Some("ssh -T git@x".to_string()));
    assert_eq!(normalized_ssh_command("scp a b"), None);
}

#[test]
fn generator_wrapper_is_unwrapped() {
    assert_eq!(
        in_band_generator_command("warp_run_generator_command 12 'ssh host' --flag"),
        Some("ssh host".to_string())
    );
    assert_eq!(
        in_band_generator_command("  zap-run-generatorcommand 3 \"mosh a\""),
        Some("mosh a".to_string())
    );
    assert_eq!(in_band_generator_command("WARP_RUN_GENERATOR_COMMAND 1 x"), None);
    assert_eq!(in_band_generator_command("warp_run_generator_command 1"), None);
    assert_eq!(in_band_generator_command("warp_run_generator_command 1 'x"), None);
}

#[test]
fn preemption_table() {
    let on = ActionResultDelay::OnCompletion { timeout_ms: 5 };
    assert!(compute_is_preempted(WakeReason::ForceRefresh, ActionResultDelay::Default));
    assert!(compute_is_preempted(WakeReason::Timeout, on));
    assert!(compute_is_preempted(WakeReason::Timeout, ActionResultDelay::UntilCompletion));
    assert!(!compute_is_preempted(WakeReason::Timeout, ActionResultDelay::Default));
    assert!(!compute_is_preempted(WakeReason::Timeout, ActionResultDelay::Duration(3)));
    assert!(!compute_is_preempted(WakeReason::BlockFinished, on));
}

#[test]
fn read_delay_for_sessions_that_never_end() {
    assert_eq!(
        read_delay_for_session(true, None),
        ActionResultDelay::OnCompletion { timeout_ms: MAX_WAIT_MS }
    );
    assert_eq!(
        read_delay_for_session(true, Some(ShellCommandDelay::OnCompletion)),
        ActionResultDelay::OnCompletion { timeout_ms: MAX_WAIT_MS }
    );
    assert_eq!(
        read_delay_for_session(true, Some(ShellCommandDelay::Duration(7))),
        ActionResultDelay::Duration(7)
    );
    assert_eq!(read_delay_for_session(false, None), ActionResultDelay::Default);
    assert_eq!(
        read_delay_for_session(false, Some(ShellCommandDelay::OnCompletion)),
        ActionResultDelay::OnCompletion { timeout_ms: MAX_AGENT_DELAY_MS }
    );
    assert_eq!(
        action_result_delay_for_requested_command(true),
        ActionResultDelay::UntilCompletion
    );
    assert_eq!(action_result_delay_for_requested_command(false), ActionResultDelay::Default);
}

fn words(ws: &[&str]) -> Vec<String> {
    ws.iter().map(|w| w.to_string()).collect()
}

#[test]
fn generator_inner_command_reads_the_third_word() {
    assert_eq!(
        generator_inner_command(&words(&["warp_run_generator_command", "7", "mosh host"])),
        Some("mosh host".to_string())
    );
    assert_eq!(
        generator_inner_command(&words(&["zap-run-generatorcommand", "7", "ls", "-x"])),
        Some("ls".to_string())
    );
    assert_eq!(generator_inner_command(&words(&["WARP_RUN_GENERATOR_COMMAND", "7", "ls"])), None);
    assert_eq!(generator_inner_command(&words(&["warp_run_generator_command", "7"])), None);
}

fn interactive_ssh(line: &str) -> bool {
    line.starts_with("ssh ") && !line.contains(" -T")
}

#[test]
fn session_commands_are_recognised_from_the_line() {
    assert!(command_starts_non_terminating_session("mosh host", &interactive_ssh));
    assert!(command_starts_non_terminating_session("  telnet.exe box 23", &interactive_ssh));
    assert!(command_starts_non_terminating_session("ssh host", &interactive_ssh));
    assert!(command_starts_non_terminating_session("/usr/bin/ssh host -p 22", &interactive_ssh));
    assert!(!command_starts_non_terminating_session("ssh -T host", &interactive_ssh));
    assert!(command_starts_non_terminating_session("warp_run_generator_command 7 'sftp box'", &interactive_ssh));
    assert!(!command_starts_non_terminating_session("ls -la", &interactive_ssh));
    assert!(!command_starts_non_terminating_session("", &interactive_ssh));
}

#[test]
fn mosh_reads_wait_only_briefly() {
    assert_eq!(
        effective_read_shell_command_delay("mosh host", None, &interactive_ssh),
        ActionResultDelay::OnCompletion { timeout_ms: MAX_WAIT_MS }
    );
    assert_eq!(
        effective_read_shell_command_delay("mosh host", Some(ShellCommandDelay::Duration(7))  , &interactive_ssh),
        ActionResultDelay::Duration(7)
    );
    assert_eq!(effective_read_shell_command_delay("cargo build", None, &interactive_ssh), ActionResultDelay::Default);
}
