use agent_core::conversation_details::{
    executor_principal, AgentConversationEntry, ConversationDetailsData, ConversationDetailsPanelAction,
    CopyButtonKind, CopyFeedback, PanelExtras, PanelMode, PanelRow, TaskConfigSnapshot, TaskPrincipalInfo, TaskSummary,
};

fn create_test_task(task_id: &str) -> TaskSummary {
    TaskSummary {
        task_id: task_id.to_string(),
        title: "Test task".to_string(),
        prompt: "do the thing".to_string(),
        is_failure_like: false,
        display_status: "Done".to_string(),
        status_message: None,
        config: None,
        conversation_id: None,
        creator: None,
        executor: None,
    }
}

fn entry(task_id: Option<&str>) -> AgentConversationEntry {
    AgentConversationEntry {
        title: "Row".to_string(),
        status: "Working".to_string(),
        creator_name: Some("Ada".to_string()),
        executor_name: None,
        executor_uid: Some("uid-7".to_string()),
        has_executor: true,
        executor_is_service_account: true,
        initial_query: Some("fix the build".to_string()),
        harness: Some("oz".to_string()),
        working_directory: Some("/repo".to_string()),
        environment_id: Some("env-1".to_string()),
        server_conversation_token: Some("tok".to_string()),
        local_conversation_id: Some("local-1".to_string()),
        ambient_agent_task_id: task_id.map(str::to_string),
    }
}

#[test]
fn test_from_conversation_metadata_passes_harness_through() {
    for harness in [None, Some("oz"), Some("codex"), Some("gemini"), Some("unknown")] {
        let data = ConversationDetailsData::from_conversation_metadata(
            "conv-1".to_string(),
            "Title".to_string(),
            None,
            None,
            None,
            None,
            None,
            None,
            harness.map(str::to_string),
        );
        assert_eq!(data.harness.as_deref(), harness, "harness {harness:?} should pass through");
    }
}

#[test]
fn test_from_task_resolves_harness() {
    let base_task = create_test_task("550e8400-e29b-41d4-a716-000000004020");

    // No snapshot -> harness unknown.
    let data = ConversationDetailsData::from_task(&base_task, None);
    assert_eq!(data.harness, None);

    // Snapshot without an explicit harness -> default to Oz.
    let mut task = base_task.clone();
    task.config = Some(TaskConfigSnapshot { harness: None, environment_id: None });
    let data = ConversationDetailsData::from_task(&task, None);
    assert_eq!(data.harness.as_deref(), Some("oz"));

    // Snapshot with explicit harness_type.
    for harness in ["oz", "codex", "gemini", "unknown"] {
        let mut task = base_task.clone();
        task.config = Some(TaskConfigSnapshot { harness: Some(harness.to_string()), environment_id: None });
        let data = ConversationDetailsData::from_task(&task, None);
        assert_eq!(data.harness.as_deref(), Some(harness), "harness {harness:?}");
    }
}

#[test]
fn test_from_task_populates_executor() {
    let mut task = create_test_task("550e8400-e29b-41d4-a716-000000004030");
    task.executor = Some(TaskPrincipalInfo {
        display_name: Some("Deploy Agent".to_string()),
        uid: "agent-uid".to_string(),
        is_service_account: true,
    });
    let data = ConversationDetailsData::from_task(&task, None);
    assert_eq!(
        data.executor.as_ref().map(|executor| executor.display_name.as_str()),
        Some("Deploy Agent")
    );
    assert!(data.executor.as_ref().map(|e| e.is_service_account).unwrap_or(false));
}

#[test]
fn test_from_conversation_populates_local_conversation_fields() {
    let directory = "/tmp/local-conversation-directory";
    let data = ConversationDetailsData::from_conversation(
        Some(directory.to_string()),
        None,
        None,
        Some("test query".to_string()),
        None,
        "In progress".to_string(),
    );
    match &data.mode {
        PanelMode::Conversation { directory: panel_directory, server_conversation_id, ai_conversation_id, status } => {
            assert_eq!(status.as_deref(), Some("In progress"));
            assert_eq!(panel_directory.as_deref(), Some(directory));
            assert!(server_conversation_id.is_none());
            assert!(ai_conversation_id.is_none());
        }
        PanelMode::Task { .. } => panic!("expected Conversation mode for a local conversation"),
    }
    assert_eq!(data.title, "test query");
    assert_eq!(data.source_prompt.as_deref(), Some("test query"));
    assert_eq!(data.harness.as_deref(), Some("oz"));
}

#[test]
fn test_from_task_id_carries_error_message() {
    let task_id = "550e8400-e29b-41d4-a716-000000004040".to_string();
    let data = ConversationDetailsData::from_task_id(task_id.clone(), Some("not found".to_string()));
    match data.mode {
        PanelMode::Task { task_id: Some(id), error_message: Some(message), .. } => {
            assert_eq!(id, task_id);
            assert_eq!(message, "not found");
        }
        other => panic!("expected Task mode with an error message, got {other:?}"),
    }
}

#[test]
fn failed_task_shows_its_status_message() {
    let mut task = create_test_task("t-1");
    task.status_message = Some("boom".to_string());
    let data = ConversationDetailsData::from_task(&task, None);
    assert!(matches!(data.mode, PanelMode::Task { error_message: None, .. }));
    task.is_failure_like = true;
    let data = ConversationDetailsData::from_task(&task, None);
    assert_eq!(
        data.copy_target(ConversationDetailsPanelAction::CopyError),
        Some(("boom".to_string(), CopyButtonKind::Error))
    );
}

#[test]
fn task_backed_row_shows_run_and_executor() {
    let mut task = create_test_task("t-9");
    task.is_failure_like = true;
    task.status_message = Some("failed to start".to_string());
    let data = ConversationDetailsData::from_agent_conversation_entry(&entry(Some("t-9")), Some(&task), None);
    assert_eq!(data.copy_target(ConversationDetailsPanelAction::CopyRunId), Some(("t-9".to_string(), CopyButtonKind::RunId)));
    assert_eq!(
        data.copy_target(ConversationDetailsPanelAction::CopyEnvironmentId),
        Some(("env-1".to_string(), CopyButtonKind::EnvironmentId))
    );
    assert_eq!(
        data.copy_target(ConversationDetailsPanelAction::CopyConversationId),
        Some(("tok".to_string(), CopyButtonKind::ConversationId))
    );
    let executor = data.executor.expect("executor");
    assert_eq!(executor.display_name, "uid-7");
    assert!(executor.is_service_account);
    assert_eq!(data.creator.expect("creator").display_name, "Ada");
}

#[test]
fn rows_carry_their_status_in_both_modes() {
    let task_row = ConversationDetailsData::from_agent_conversation_entry(&entry(Some("t-3")), None, None);
    assert!(matches!(&task_row.mode, PanelMode::Task { display_status: Some(s), .. } if s == "Working"));
    assert_eq!(task_row.display_status().as_deref(), Some("Working"));
    let conversation_row = ConversationDetailsData::from_agent_conversation_entry(&entry(None), None, None);
    assert!(matches!(&conversation_row.mode, PanelMode::Conversation { status: Some(s), .. } if s == "Working"));
    let from_task = ConversationDetailsData::from_task(&create_test_task("t-4"), None);
    assert_eq!(from_task.display_status().as_deref(), Some("Done"));
    let missing = ConversationDetailsData::from_task_id("t-5".to_string(), None);
    assert_eq!(missing.display_status(), None);
}

#[test]
fn conversation_row_has_no_executor_or_run() {
    let data = ConversationDetailsData::from_agent_conversation_entry(&entry(None), None, None);
    assert!(data.executor.is_none());
    assert_eq!(data.copy_target(ConversationDetailsPanelAction::CopyRunId), None);
    assert_eq!(
        data.copy_target(ConversationDetailsPanelAction::CopyDirectory),
        Some(("/repo".to_string(), CopyButtonKind::Directory))
    );
    assert_eq!(data.copy_target(ConversationDetailsPanelAction::Close), None);
    assert!(matches!(data.mode, PanelMode::Conversation { ai_conversation_id: Some(_), .. }));
}

#[test]
fn executor_needs_a_name_or_uid() {
    assert!(executor_principal(None, None, false).is_none());
    assert_eq!(executor_principal(Some("n".into()), Some("u".into()), false).unwrap().display_name, "n");
}

#[test]
fn stale_copy_feedback_does_not_clear_newer_mark() {
    let mut f = CopyFeedback::new();
    f.mark_copied(CopyButtonKind::Directory);
    f.mark_copied(CopyButtonKind::RunId);
    assert!(!f.feedback_expired(CopyButtonKind::Directory));
    assert_eq!(f.last_copied, Some(CopyButtonKind::RunId));
    assert!(f.feedback_expired(CopyButtonKind::RunId));
    assert_eq!(f.last_copied, None);
}

#[test]
fn field_rows_follow_the_panel_order() {
    let mut task = create_test_task("t-8");
    task.is_failure_like = true;
    task.status_message = Some("boom".to_string());
    let data = ConversationDetailsData::from_agent_conversation_entry(&entry(Some("t-8")), Some(&task), None);
    let extras = PanelExtras { has_created_at: true, has_run_time: false, has_credits: true, has_skill_spec: false };
    assert_eq!(
        data.field_rows(extras),
        vec![
            PanelRow::Status("Working".to_string()),
            PanelRow::ErrorBanner("boom".to_string()),
            PanelRow::Creator("Ada".to_string()),
            PanelRow::Executor("uid-7".to_string()),
            PanelRow::CreatedAt,
            PanelRow::Credits,
            PanelRow::Directory("/repo".to_string()),
            PanelRow::RunId("t-8".to_string()),
            PanelRow::EnvironmentId("env-1".to_string()),
            PanelRow::Harness("oz".to_string()),
            PanelRow::Prompt("fix the build".to_string()),
        ]
    );
    let none = PanelExtras { has_created_at: false, has_run_time: false, has_credits: false, has_skill_spec: true };
    let missing = ConversationDetailsData::from_task_id("t-5".to_string(), None);
    assert_eq!(missing.field_rows(none), vec![PanelRow::RunId("t-5".to_string()), PanelRow::Skill]);
}
