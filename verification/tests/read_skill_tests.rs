use agent_core::read_skill::{ReadSkillExecutor, ReadSkillPlan, SkillHit, SkillRef, SkillSession};

fn local_executor() -> ReadSkillExecutor {
    ReadSkillExecutor::new(SkillSession::Local)
}

/// An executor on a remote session, connected to `host_id` when it is `Some` and still
/// waiting for its remote server otherwise.
fn remote_executor(host_id: Option<&str>) -> ReadSkillExecutor {
    ReadSkillExecutor::new(SkillSession::Remote { host_id: host_id.map(str::to_string) })
}

fn bundled_skill(name: &str) -> SkillHit {
    SkillHit { file_name: format!("/bundled/skills/{name}/SKILL.md"), content: format!("# {name}") }
}

fn file_skill(path: &str, name: &str) -> SkillHit {
    SkillHit { file_name: path.to_string(), content: format!("# {name}") }
}

fn path_ref(path: &str) -> SkillRef {
    SkillRef::Path(path.to_string())
}

fn expect_error(plan: ReadSkillPlan) -> String {
    match plan {
        ReadSkillPlan::Fail(message) => message,
        other => panic!("expected an error, got {other:?}"),
    }
}

#[test]
fn test_read_skill_executor_success() {
    let skill_path = "/tmp/t/.agents/skills/test-skill/SKILL.md";
    let plan = local_executor().plan_read_skill(
        &path_ref(skill_path),
        Some(file_skill(skill_path, "test-skill")),
        None,
        true,
    );
    match plan {
        ReadSkillPlan::Read(hit) => assert_eq!(hit.file_name, skill_path),
        other => panic!("Successfully read skill file; should return a success, got {other:?}"),
    }
}

#[test]
fn disconnected_remote_session_does_not_fall_back_to_client_global_bundled_skill() {
    let executor = remote_executor(None);
    let plan = executor.plan_read_skill(
        &SkillRef::BundledSkillId("remote-only".to_string()),
        Some(bundled_skill("remote-only")),
        None,
        false,
    );
    assert_eq!(expect_error(plan), "Bundled skills are not available on this remote session");
}

#[test]
fn remote_session_reads_remote_bundled_skill_catalog() {
    let remote_skill = SkillHit {
        file_name: "/opt/warp/resources/bundled/skills/host-specific/SKILL.md".to_string(),
        content: "remote rendered content".to_string(),
    };
    let executor = remote_executor(Some("remote-host"));
    let plan = executor.plan_read_skill(
        &SkillRef::BundledSkillId("host-specific".to_string()),
        Some(remote_skill.clone()),
        None,
        false,
    );
    assert_eq!(plan, ReadSkillPlan::Read(remote_skill), "Remote session should read its host-specific bundled skill");
}

#[test]
fn test_read_skill_executor_reads_enabled_bundled_skill() {
    let plan = local_executor().plan_read_skill(
        &SkillRef::BundledSkillId("pr-comments".to_string()),
        Some(bundled_skill("pr-comments")),
        None,
        false,
    );
    match plan {
        ReadSkillPlan::Read(hit) => assert_eq!(hit.file_name, "/bundled/skills/pr-comments/SKILL.md"),
        other => panic!("Enabled bundled skill should succeed, got {other:?}"),
    }
}

#[test]
fn test_read_skill_executor_rejects_warp_control_bundled_skills_when_disabled() {
    // A disabled bundled skill is not found in the catalogue.
    let plan = local_executor().plan_read_skill(&SkillRef::BundledSkillId("warpctrl".to_string()), None, None, false);
    assert!(matches!(plan, ReadSkillPlan::Fail(_)));
}

#[test]
fn test_read_skill_executor_file_not_found() {
    // A missing SKILL.md that is not in a skills directory.
    let plan = local_executor().plan_read_skill(&path_ref("/tmp/t/SKILL.md"), None, None, false);
    assert!(!expect_error(plan).is_empty());
}

#[test]
fn test_read_skill_executor_fallback_reads_disk_on_cache_miss() {
    let skill_path = "/tmp/t/.agents/skills/fallback-skill/SKILL.md";
    let reference = path_ref(skill_path);
    let plan = local_executor().plan_read_skill(&reference, None, None, true);
    assert_eq!(plan, ReadSkillPlan::ReadFromDisk(skill_path.to_string()));
    let parsed = SkillHit { file_name: skill_path.to_string(), content: "# fallback-skill".to_string() };
    let result = ReadSkillExecutor::finish_disk_read(&reference, Ok(parsed)).expect("Fallback should return Success");
    assert_eq!(result.file_name, skill_path);
    assert!(result.content.contains("fallback-skill"));
}

#[test]
fn test_read_skill_executor_fallback_returns_error_when_file_missing() {
    let skill_path = "/tmp/t/.agents/skills/missing-skill/SKILL.md";
    let reference = path_ref(skill_path);
    let plan = local_executor().plan_read_skill(&reference, None, None, true);
    assert_eq!(plan, ReadSkillPlan::ReadFromDisk(skill_path.to_string()));
    let message = ReadSkillExecutor::finish_disk_read(&reference, Err("No such file or directory".to_string()))
        .expect_err("Missing file should resolve to Error");
    assert!(message.starts_with("Skill not found"));
    assert_eq!(
        message,
        "Skill not found: Path(\"/tmp/t/.agents/skills/missing-skill/SKILL.md\") (No such file or directory)"
    );
}

#[test]
fn test_read_skill_executor_resolves_by_name() {
    let skill_path = "/tmp/t/.agents/skills/byop-named-skill/SKILL.md";
    let plan = local_executor().plan_read_skill(
        &path_ref("byop-named-skill"),
        None,
        Some(file_skill(skill_path, "byop-named-skill")),
        false,
    );
    match plan {
        ReadSkillPlan::Read(hit) => assert_eq!(hit.file_name, skill_path),
        other => panic!("Lookup by name should succeed, got {other:?}"),
    }
}

#[test]
fn test_read_skill_executor_by_name_respects_bundled_skill_activation() {
    let executor = local_executor();
    let reference = path_ref("warpctrl");
    // Disabled: the name lookup finds nothing.
    let disabled = executor.plan_read_skill(&reference, None, None, false);
    let message = expect_error(disabled);
    assert!(message.starts_with("Skill not found"), "a disabled bundled skill must not be readable by name");
    // Enabled: the name lookup finds the bundled skill.
    let enabled = executor.plan_read_skill(&reference, None, Some(bundled_skill("warpctrl")), false);
    match enabled {
        ReadSkillPlan::Read(hit) => assert_eq!(hit.file_name, "/bundled/skills/warpctrl/SKILL.md"),
        other => panic!("an enabled bundled skill should be readable by name, got {other:?}"),
    }
}

#[test]
fn remote_session_reads_remote_bundled_skill_by_name() {
    let remote_skill = SkillHit {
        file_name: "/opt/warp/resources/bundled/skills/host-specific/SKILL.md".to_string(),
        content: "remote rendered content".to_string(),
    };
    let executor = remote_executor(Some("remote-host"));
    let plan = executor.plan_read_skill(&path_ref("host-specific"), None, Some(remote_skill.clone()), false);
    assert_eq!(plan, ReadSkillPlan::Read(remote_skill));
}

#[test]
fn test_read_skill_executor_resolves_name_on_the_session_host() {
    let local_path = "/tmp/t/.agents/skills/deploy/SKILL.md";
    let local = local_executor();
    let remote = remote_executor(Some("remote-host"));
    assert_ne!(local.skill_host(), remote.skill_host());
    let reference = path_ref("deploy");
    // Each executor is handed what its own host's catalogue holds.
    let local_plan = local.plan_read_skill(&reference, None, Some(file_skill(local_path, "deploy")), false);
    match local_plan {
        ReadSkillPlan::Read(hit) => assert_eq!(hit.file_name, local_path),
        other => panic!("a local session should read the local skill by name, got {other:?}"),
    }
    let remote_plan = remote.plan_read_skill(
        &reference,
        None,
        Some(file_skill("/repo/.agents/skills/deploy/SKILL.md", "deploy")),
        false,
    );
    match remote_plan {
        ReadSkillPlan::Read(hit) => assert_eq!(hit.file_name, "/repo/.agents/skills/deploy/SKILL.md"),
        other => panic!("a remote session should read the remote host's skill by name, got {other:?}"),
    }
}

#[test]
fn test_read_skill_executor_rejects_unknown_name() {
    let plan = local_executor().plan_read_skill(&path_ref("no-such-skill"), None, None, false);
    let message = expect_error(plan);
    assert!(message.starts_with("Skill not found"), "msg={message}");
    assert_eq!(message, "Skill not found: Path(\"no-such-skill\")");
}

#[test]
fn test_read_skill_executor_rejects_non_skill_path_on_cache_miss() {
    // A markdown file outside any skills directory is not read from disk.
    let plan = local_executor().plan_read_skill(&path_ref("/tmp/t/random.md"), None, None, false);
    assert!(expect_error(plan).starts_with("Skill not found"));
}

#[test]
fn bundled_reference_debug_form_escapes_quotes() {
    let plan = local_executor().plan_read_skill(&SkillRef::BundledSkillId("a\"b".to_string()), None, None, false);
    assert_eq!(expect_error(plan), "Skill not found: BundledSkillId(\"a\\\"b\")");
}
