//! Data shown in the conversation details panel: which conversation or run it describes,
//! who created and ran it, and what its copy buttons copy.
use vstd::prelude::*;
use vstd::string::*;

verus! {

/// A principal involved in a conversation.
#[derive(Debug, Clone, PartialEq, Eq)]
pub struct PrincipalInfo {
    /// The principal's display name, or an identifier when it has none.
    pub display_name: String,
    pub is_service_account: bool,
}

impl PrincipalInfo {
    /// A principal known only by name: not a service account.
    pub fn new(display_name: String) -> (r: Self)
        ensures
            r.display_name == display_name,
            !r.is_service_account,
    {
        PrincipalInfo { display_name, is_service_account: false }
    }
}

/// A principal as a task records it.
#[derive(Debug, Clone, PartialEq, Eq)]
pub struct TaskPrincipalInfo {
    pub display_name: Option<String>,
    pub uid: String,
    /// The recorded creator type names a service account.
    pub is_service_account: bool,
}

impl PrincipalInfo {
    /// A principal recorded by a task: its display name, else its uid.
    pub fn from_task_principal(p: &TaskPrincipalInfo) -> (r: Self)
        ensures
            r.display_name@ == match p.display_name {
                Some(n) => n@,
                None => p.uid@,
            },
            r.is_service_account == p.is_service_account,
    {
        let display_name = match &p.display_name {
            Some(n) => n.clone(),
            None => p.uid.clone(),
        };
        PrincipalInfo { display_name, is_service_account: p.is_service_account }
    }
}

/// The principal a run executed as, from an entry's executor: named by its name, else by its
/// uid; none when it has neither.
pub fn executor_principal(name: Option<String>, uid: Option<String>, is_service_account: bool) -> (r: Option<
    PrincipalInfo,
>)
    ensures
        match (name, uid) {
            (Some(n), _) => r matches Some(p) && p.display_name == n && p.is_service_account == is_service_account,
            (None, Some(u)) => r matches Some(p) && p.display_name == u && p.is_service_account == is_service_account,
            (None, None) => r is None,
        },
{
    let display_name = match name {
        Some(n) => n,
        None => match uid {
            Some(u) => u,
            None => {
                return None;
            },
        },
    };
    Some(PrincipalInfo { display_name, is_service_account })
}

/// What the panel describes.
#[derive(Debug, Clone, PartialEq, Eq)]
pub enum PanelMode {
    /// A conversation.
    Conversation {
        /// The working directory of the conversation.
        directory: Option<String>,
        /// The server's token for the conversation, if it was ever synced.
        server_conversation_id: Option<String>,
        /// The local conversation id, for the action buttons.
        ai_conversation_id: Option<String>,
        /// The conversation's status, as its label.
        status: Option<String>,
    },
    /// A run of an agent task.
    Task {
        task_id: Option<String>,
        directory: Option<String>,
        /// The run's status as the user sees it, as its label.
        display_status: Option<String>,
        error_message: Option<String>,
        environment_id: Option<String>,
        conversation_id: Option<String>,
    },
}

/// The configuration a task ran with, as far as the panel shows it.
#[derive(Debug, Clone, PartialEq, Eq)]
pub struct TaskConfigSnapshot {
    /// The harness named by the configuration, if any.
    pub harness: Option<String>,
    pub environment_id: Option<String>,
}

/// What the panel reads of an agent task.
#[derive(Debug, Clone, PartialEq, Eq)]
pub struct TaskSummary {
    pub task_id: String,
    pub title: String,
    pub prompt: String,
    /// The task ended in failure (or was cancelled or blocked).
    pub is_failure_like: bool,
    /// The run's status as the user sees it, as its label.
    pub display_status: String,
    pub status_message: Option<String>,
    pub config: Option<TaskConfigSnapshot>,
    pub conversation_id: Option<String>,
    pub creator: Option<TaskPrincipalInfo>,
    pub executor: Option<TaskPrincipalInfo>,
}

/// What the panel reads of a row of the agent dashboard.
#[derive(Debug, Clone, PartialEq, Eq)]
pub struct AgentConversationEntry {
    pub title: String,
    /// The row's status, as its label.
    pub status: String,
    pub creator_name: Option<String>,
    pub executor_name: Option<String>,
    pub executor_uid: Option<String>,
    /// Whether the row has an executor at all.
    pub has_executor: bool,
    pub executor_is_service_account: bool,
    pub initial_query: Option<String>,
    pub harness: Option<String>,
    pub working_directory: Option<String>,
    pub environment_id: Option<String>,
    pub server_conversation_token: Option<String>,
    pub local_conversation_id: Option<String>,
    /// Set when the row is backed by an agent task.
    pub ambient_agent_task_id: Option<String>,
}

/// The data the panel shows; a field left `None` is not shown.
#[derive(Debug, Clone, PartialEq, Eq)]
pub struct ConversationDetailsData {
    pub mode: PanelMode,
    pub title: String,
    pub creator: Option<PrincipalInfo>,
    pub executor: Option<PrincipalInfo>,
    pub source_prompt: Option<String>,
    pub copy_link_url: Option<String>,
    /// The harness the conversation or run used.
    pub harness: Option<String>,
}

/// The message of a task that failed: its status message; none for a task that did not fail.
pub open spec fn failure_message_spec(task: TaskSummary) -> Option<String> {
    if task.is_failure_like {
        task.status_message
    } else {
        None
    }
}

/// The harness of a task: the one its configuration names, `oz` for a configuration that
/// names none, and unknown without a configuration.
pub open spec fn task_harness_spec(task: TaskSummary) -> Option<Seq<char>> {
    match task.config {
        Some(c) => match c.harness {
            Some(h) => Some(h@),
            None => Some("oz"@),
        },
        None => None,
    }
}

/// An optional string by its view.
pub open spec fn opt_view(o: Option<String>) -> Option<Seq<char>> {
    match o {
        Some(s) => Some(s@),
        None => None,
    }
}

fn clone_opt(o: &Option<String>) -> (r: Option<String>)
    ensures
        r == *o,
{
    match o {
        Some(s) => Some(s.clone()),
        None => None,
    }
}

fn task_harness(task: &TaskSummary) -> (r: Option<String>)
    ensures
        opt_view(r) == task_harness_spec(*task),
{
    match &task.config {
        Some(c) => match &c.harness {
            Some(h) => Some(h.clone()),
            None => Some(String::from_str("oz")),
        },
        None => None,
    }
}

fn failure_message(task: &TaskSummary) -> (r: Option<String>)
    ensures
        r == failure_message_spec(*task),
{
    if task.is_failure_like {
        clone_opt(&task.status_message)
    } else {
        None
    }
}

fn principal_opt(p: &Option<TaskPrincipalInfo>) -> (r: Option<PrincipalInfo>)
    ensures
        p is None <==> r is None,
        p matches Some(x) ==> r matches Some(y) && y.display_name@ == match x.display_name {
            Some(n) => n@,
            None => x.uid@,
        } && y.is_service_account == x.is_service_account,
{
    match p {
        Some(x) => Some(PrincipalInfo::from_task_principal(x)),
        None => None,
    }
}

impl ConversationDetailsData {
    /// The panel of an agent task: the run's id, error (when it failed), environment and
    /// conversation; its title, prompt, creator, executor and harness.
    pub fn from_task(task: &TaskSummary, copy_link_url: Option<String>) -> (r: Self)
        ensures
            r.mode == (PanelMode::Task {
                task_id: Some(task.task_id),
                directory: None,
                display_status: Some(task.display_status),
                error_message: failure_message_spec(*task),
                environment_id: match task.config {
                    Some(c) => c.environment_id,
                    None => None,
                },
                conversation_id: task.conversation_id,
            }),
            r.title == task.title,
            r.source_prompt == Some(task.prompt),
            r.copy_link_url == copy_link_url,
            opt_view(r.harness) == task_harness_spec(*task),
            task.creator is None <==> r.creator is None,
            task.executor is None <==> r.executor is None,
            task.executor matches Some(x) ==> r.executor matches Some(y) && y.display_name@ == match x.display_name {
                Some(n) => n@,
                None => x.uid@,
            } && y.is_service_account == x.is_service_account,
    {
        let environment_id = match &task.config {
            Some(c) => clone_opt(&c.environment_id),
            None => None,
        };
        ConversationDetailsData {
            mode: PanelMode::Task {
                task_id: Some(task.task_id.clone()),
                directory: None,
                display_status: Some(task.display_status.clone()),
                error_message: failure_message(task),
                environment_id,
                conversation_id: clone_opt(&task.conversation_id),
            },
            title: task.title.clone(),
            creator: principal_opt(&task.creator),
            executor: principal_opt(&task.executor),
            source_prompt: Some(task.prompt.clone()),
            copy_link_url,
            harness: task_harness(task),
        }
    }

    /// The panel of a task that is no longer held locally: its id and the error, nothing
    /// else.
    pub fn from_task_id(task_id: String, error_message: Option<String>) -> (r: Self)
        ensures
            r.mode == (PanelMode::Task {
                task_id: Some(task_id),
                directory: None,
                display_status: None,
                error_message,
                environment_id: None,
                conversation_id: None,
            }),
            r.title@.len() == 0,
            r.creator is None,
            r.executor is None,
            r.source_prompt is None,
            r.copy_link_url is None,
            r.harness is None,
    {
        ConversationDetailsData {
            mode: PanelMode::Task {
                task_id: Some(task_id),
                directory: None,
                display_status: None,
                error_message,
                environment_id: None,
                conversation_id: None,
            },
            title: String::new(),
            creator: None,
            executor: None,
            source_prompt: None,
            copy_link_url: None,
            harness: None,
        }
    }

    /// The panel of a local conversation: titled by its title, else its latest query, else
    /// nothing; its harness, or `oz`.
    pub fn from_conversation(
        directory: Option<String>,
        server_conversation_token: Option<String>,
        title: Option<String>,
        latest_user_query: Option<String>,
        orchestration_harness: Option<String>,
        status: String,
    ) -> (r: Self)
        ensures
            r.mode == (PanelMode::Conversation {
                directory,
                server_conversation_id: server_conversation_token,
                ai_conversation_id: None,
                status: Some(status),
            }),
            r.title@ == match title {
                Some(t) => t@,
                None => match latest_user_query {
                    Some(q) => q@,
                    None => Seq::empty(),
                },
            },
            r.source_prompt == latest_user_query,
            opt_view(r.harness) == match orchestration_harness {
                Some(h) => Some(h@),
                None => Some("oz"@),
            },
            r.creator is None,
            r.executor is None,
            r.copy_link_url is None,
    {
        let t = match title {
            Some(t) => t,
            None => match &latest_user_query {
                Some(q) => q.clone(),
                None => String::new(),
            },
        };
        let harness = match orchestration_harness {
            Some(h) => h,
            None => String::from_str("oz"),
        };
        ConversationDetailsData {
            mode: PanelMode::Conversation {
                directory,
                server_conversation_id: server_conversation_token,
                ai_conversation_id: None,
                status: Some(status),
            },
            title: t,
            creator: None,
            executor: None,
            source_prompt: latest_user_query,
            copy_link_url: None,
            harness: Some(harness),
        }
    }

    /// The panel of a local conversation from the dashboard's precomputed fields.
    pub fn from_conversation_metadata(
        conversation_id: String,
        title: String,
        directory: Option<String>,
        server_conversation_id: Option<String>,
        status: Option<String>,
        creator_name: Option<String>,
        source_prompt: Option<String>,
        copy_link_url: Option<String>,
        harness: Option<String>,
    ) -> (r: Self)
        ensures
            r.mode == (PanelMode::Conversation {
                directory,
                server_conversation_id,
                ai_conversation_id: Some(conversation_id),
                status,
            }),
            r.title == title,
            creator_name is None <==> r.creator is None,
            creator_name matches Some(n) ==> r.creator matches Some(c) && c.display_name == n && !c.is_service_account,
            r.executor is None,
            r.source_prompt == source_prompt,
            r.copy_link_url == copy_link_url,
            r.harness == harness,
    {
        let creator = match creator_name {
            Some(n) => Some(PrincipalInfo::new(n)),
            None => None,
        };
        ConversationDetailsData {
            mode: PanelMode::Conversation {
                directory,
                server_conversation_id,
                ai_conversation_id: Some(conversation_id),
                status,
            },
            title,
            creator,
            executor: None,
            source_prompt,
            copy_link_url,
            harness,
        }
    }

    /// The panel of a dashboard row. A row backed by a task shows the run (its error when the
    /// task record is at hand and failed, and the executor); another row shows the
    /// conversation, without an executor.
    pub fn from_agent_conversation_entry(
        entry: &AgentConversationEntry,
        task: Option<&TaskSummary>,
        copy_link_url: Option<String>,
    ) -> (r: Self)
        ensures
            r.title == entry.title,
            r.source_prompt == entry.initial_query,
            r.copy_link_url == copy_link_url,
            r.harness == entry.harness,
            entry.creator_name is None <==> r.creator is None,
            entry.creator_name matches Some(n) ==> r.creator matches Some(c) && c.display_name == n
                && !c.is_service_account,
            match entry.ambient_agent_task_id {
                Some(task_id) => {
                    &&& r.mode == (PanelMode::Task {
                        task_id: Some(task_id),
                        directory: entry.working_directory,
                        display_status: Some(entry.status),
                        error_message: match task {
                            Some(t) => failure_message_spec(*t),
                            None => None,
                        },
                        environment_id: entry.environment_id,
                        conversation_id: entry.server_conversation_token,
                    })
                    &&& if entry.has_executor {
                        match (entry.executor_name, entry.executor_uid) {
                            (Some(n), _) => r.executor matches Some(p) && p.display_name == n
                                && p.is_service_account == entry.executor_is_service_account,
                            (None, Some(u)) => r.executor matches Some(p) && p.display_name == u
                                && p.is_service_account == entry.executor_is_service_account,
                            (None, None) => r.executor is None,
                        }
                    } else {
                        r.executor is None
                    }
                },
                None => {
                    &&& r.mode == (PanelMode::Conversation {
                        directory: entry.working_directory,
                        server_conversation_id: entry.server_conversation_token,
                        ai_conversation_id: entry.local_conversation_id,
                        status: Some(entry.status),
                    })
                    &&& r.executor is None
                },
            },
    {
        let creator = match &entry.creator_name {
            Some(n) => Some(PrincipalInfo::new(n.clone())),
            None => None,
        };
        match &entry.ambient_agent_task_id {
            Some(task_id) => {
                let executor = if entry.has_executor {
                    executor_principal(
                        clone_opt(&entry.executor_name),
                        clone_opt(&entry.executor_uid),
                        entry.executor_is_service_account,
                    )
                } else {
                    None
                };
                let error_message = match task {
                    Some(t) => failure_message(t),
                    None => None,
                };
                ConversationDetailsData {
                    mode: PanelMode::Task {
                        task_id: Some(task_id.clone()),
                        directory: clone_opt(&entry.working_directory),
                        display_status: Some(entry.status.clone()),
                        error_message,
                        environment_id: clone_opt(&entry.environment_id),
                        conversation_id: clone_opt(&entry.server_conversation_token),
                    },
                    title: entry.title.clone(),
                    creator,
                    executor,
                    source_prompt: clone_opt(&entry.initial_query),
                    copy_link_url,
                    harness: clone_opt(&entry.harness),
                }
            },
            None => ConversationDetailsData {
                mode: PanelMode::Conversation {
                    directory: clone_opt(&entry.working_directory),
                    server_conversation_id: clone_opt(&entry.server_conversation_token),
                    ai_conversation_id: clone_opt(&entry.local_conversation_id),
                    status: Some(entry.status.clone()),
                },
                title: entry.title.clone(),
                creator,
                executor: None,
                source_prompt: clone_opt(&entry.initial_query),
                copy_link_url,
                harness: clone_opt(&entry.harness),
            },
        }
    }

    /// The status shown: the run's in task mode, the conversation's otherwise.
    pub fn display_status(&self) -> (r: Option<String>)
        ensures
            r == match self.mode {
                PanelMode::Conversation { status, .. } => status,
                PanelMode::Task { display_status, .. } => display_status,
            },
    {
        match &self.mode {
            PanelMode::Conversation { status, .. } => clone_opt(status),
            PanelMode::Task { display_status, .. } => clone_opt(display_status),
        }
    }

    /// The working directory shown, in either mode.
    pub fn directory(&self) -> (r: Option<String>)
        ensures
            r == match self.mode {
                PanelMode::Conversation { directory, .. } => directory,
                PanelMode::Task { directory, .. } => directory,
            },
    {
        match &self.mode {
            PanelMode::Conversation { directory, .. } => clone_opt(directory),
            PanelMode::Task { directory, .. } => clone_opt(directory),
        }
    }

    /// What a copy action copies, and which button then shows that it did; nothing when the
    /// panel lacks the field (closing copies nothing).
    pub fn copy_target(&self, action: ConversationDetailsPanelAction) -> (r: Option<(String, CopyButtonKind)>)
        ensures
            r == copy_target_spec(self.mode, action),
    {
        match action {
            ConversationDetailsPanelAction::Close => None,
            ConversationDetailsPanelAction::CopyDirectory => match self.directory() {
                Some(d) => Some((d, CopyButtonKind::Directory)),
                None => None,
            },
            ConversationDetailsPanelAction::CopyConversationId => {
                let id = match &self.mode {
                    PanelMode::Conversation { server_conversation_id, .. } => clone_opt(server_conversation_id),
                    PanelMode::Task { conversation_id, .. } => clone_opt(conversation_id),
                };
                match id {
                    Some(i) => Some((i, CopyButtonKind::ConversationId)),
                    None => None,
                }
            },
            ConversationDetailsPanelAction::CopyRunId => match &self.mode {
                PanelMode::Task { task_id: Some(t), .. } => Some((t.clone(), CopyButtonKind::RunId)),
                _ => None,
            },
            ConversationDetailsPanelAction::CopyEnvironmentId => match &self.mode {
                PanelMode::Task { environment_id: Some(e), .. } => Some((e.clone(), CopyButtonKind::EnvironmentId)),
                _ => None,
            },
            ConversationDetailsPanelAction::CopyError => match &self.mode {
                PanelMode::Task { error_message: Some(m), .. } => Some((m.clone(), CopyButtonKind::Error)),
                _ => None,
            },
        }
    }
}

/// Which copy button shows that it copied.
#[derive(Debug, Clone, Copy, PartialEq, Eq, Structural)]
pub enum CopyButtonKind {
    Directory,
    ConversationId,
    RunId,
    EnvironmentId,
    Error,
}

/// What a copy action copies; see [`ConversationDetailsData::copy_target`].
pub open spec fn copy_target_spec(mode: PanelMode, action: ConversationDetailsPanelAction) -> Option<(String, CopyButtonKind)> {
    match action {
        ConversationDetailsPanelAction::Close => None,
        ConversationDetailsPanelAction::CopyDirectory => match mode {
            PanelMode::Conversation { directory: Some(d), .. } => Some((d, CopyButtonKind::Directory)),
            PanelMode::Task { directory: Some(d), .. } => Some((d, CopyButtonKind::Directory)),
            _ => None,
        },
        ConversationDetailsPanelAction::CopyConversationId => match mode {
            PanelMode::Conversation { server_conversation_id: Some(i), .. } => Some((i, CopyButtonKind::ConversationId)),
            PanelMode::Task { conversation_id: Some(i), .. } => Some((i, CopyButtonKind::ConversationId)),
            _ => None,
        },
        ConversationDetailsPanelAction::CopyRunId => match mode {
            PanelMode::Task { task_id: Some(t), .. } => Some((t, CopyButtonKind::RunId)),
            _ => None,
        },
        ConversationDetailsPanelAction::CopyEnvironmentId => match mode {
            PanelMode::Task { environment_id: Some(e), .. } => Some((e, CopyButtonKind::EnvironmentId)),
            _ => None,
        },
        ConversationDetailsPanelAction::CopyError => match mode {
            PanelMode::Task { error_message: Some(m), .. } => Some((m, CopyButtonKind::Error)),
            _ => None,
        },
    }
}

/// Which copy button shows its check mark. A copy marks its button; the feedback timer of a
/// copy clears the mark only while that button is still the one marked.
#[derive(Debug, Clone, Copy, PartialEq, Eq, Structural)]
pub struct CopyFeedback {
    pub last_copied: Option<CopyButtonKind>,
}

/// The mark after a copy through `kind`'s button.
pub open spec fn marked(kind: CopyButtonKind) -> CopyFeedback {
    CopyFeedback { last_copied: Some(kind) }
}

/// The mark after the feedback timer of a copy through `kind`'s button ran out: cleared when
/// that button is the one marked, else unchanged.
pub open spec fn expired(f: CopyFeedback, kind: CopyButtonKind) -> CopyFeedback {
    if f.last_copied == Some(kind) {
        CopyFeedback { last_copied: None }
    } else {
        f
    }
}

impl CopyFeedback {
    pub fn new() -> (r: Self)
        ensures
            r.last_copied is None,
    {
        CopyFeedback { last_copied: None }
    }

    /// A copy through `kind`'s button; see [`marked`].
    pub fn mark_copied(&mut self, kind: CopyButtonKind)
        ensures
            *final(self) == marked(kind),
    {
        self.last_copied = Some(kind);
    }

    /// The feedback timer of a copy through `kind`'s button ran out; see [`expired`].
    /// Returns whether the mark was cleared (and the panel must be redrawn).
    pub fn feedback_expired(&mut self, kind: CopyButtonKind) -> (cleared: bool)
        ensures
            *final(self) == expired(*old(self), kind),
            cleared == (old(self).last_copied == Some(kind)),
    {
        if self.last_copied == Some(kind) {
            self.last_copied = None;
            true
        } else {
            false
        }
    }

    /// New data clears the mark.
    pub fn reset(&mut self)
        ensures
            final(self).last_copied is None,
    {
        self.last_copied = None;
    }
}

/// The timer of an earlier copy never clears the mark of a later copy through another
/// button, and the timer of the latest copy does.
pub proof fn lemma_stale_feedback_keeps_newer_mark(earlier: CopyButtonKind, later: CopyButtonKind)
    ensures
        earlier != later ==> expired(marked(later), earlier) == marked(later),
        expired(marked(later), later).last_copied is None,
{
}

/// Actions dispatched within the panel.
#[derive(Debug, Clone, Copy, PartialEq, Eq)]
pub enum ConversationDetailsPanelAction {
    Close,
    CopyDirectory,
    CopyConversationId,
    CopyRunId,
    CopyEnvironmentId,
    CopyError,
}

/// Events the panel emits to its parent.
#[derive(Debug, Clone, Copy, PartialEq, Eq)]
pub enum ConversationDetailsPanelEvent {
    Close,
}

/// One row of the panel's field list. Rows whose value the library does not hold (times and
/// credits, the parsed skill) are named without a value; the view fills them in.
#[derive(Debug, Clone, PartialEq, Eq)]
pub enum PanelRow {
    Status(String),
    ErrorBanner(String),
    Creator(String),
    Executor(String),
    CreatedAt,
    RunTime,
    Credits,
    Directory(String),
    RunId(String),
    EnvironmentId(String),
    Harness(String),
    Skill,
    Prompt(String),
}

/// Which of the rows whose value the view holds are present.
#[derive(Debug, Clone, Copy, PartialEq, Eq)]
pub struct PanelExtras {
    pub has_created_at: bool,
    pub has_run_time: bool,
    pub has_credits: bool,
    pub has_skill_spec: bool,
}

/// Which row a value fills.
#[derive(Debug, Clone, Copy, PartialEq, Eq)]
pub enum TextRowKind {
    Status,
    ErrorBanner,
    Creator,
    Executor,
    Directory,
    RunId,
    EnvironmentId,
    Harness,
    Prompt,
}

/// The row of kind `kind` holding `v`.
pub open spec fn make_row(kind: TextRowKind, v: String) -> PanelRow {
    match kind {
        TextRowKind::Status => PanelRow::Status(v),
        TextRowKind::ErrorBanner => PanelRow::ErrorBanner(v),
        TextRowKind::Creator => PanelRow::Creator(v),
        TextRowKind::Executor => PanelRow::Executor(v),
        TextRowKind::Directory => PanelRow::Directory(v),
        TextRowKind::RunId => PanelRow::RunId(v),
        TextRowKind::EnvironmentId => PanelRow::EnvironmentId(v),
        TextRowKind::Harness => PanelRow::Harness(v),
        TextRowKind::Prompt => PanelRow::Prompt(v),
    }
}

/// The row of kind `kind` when there is a value, else nothing.
pub open spec fn row_of(o: Option<String>, kind: TextRowKind) -> Seq<PanelRow> {
    match o {
        Some(v) => seq![make_row(kind, v)],
        None => Seq::empty(),
    }
}

/// The row when `present`, else nothing.
pub open spec fn row_if(present: bool, row: PanelRow) -> Seq<PanelRow> {
    if present {
        seq![row]
    } else {
        Seq::empty()
    }
}

/// The error of a run, when the panel shows one.
pub open spec fn task_error(mode: PanelMode) -> Option<String> {
    match mode {
        PanelMode::Task { error_message, .. } => error_message,
        PanelMode::Conversation { .. } => None,
    }
}

/// The run id, when the panel shows a run that has one.
pub open spec fn task_run_id(mode: PanelMode) -> Option<String> {
    match mode {
        PanelMode::Task { task_id, .. } => task_id,
        PanelMode::Conversation { .. } => None,
    }
}

/// The environment id, when the panel shows a run that has one.
pub open spec fn task_environment_id(mode: PanelMode) -> Option<String> {
    match mode {
        PanelMode::Task { environment_id, .. } => environment_id,
        PanelMode::Conversation { .. } => None,
    }
}

/// The status shown, in either mode.
pub open spec fn status_of(mode: PanelMode) -> Option<String> {
    match mode {
        PanelMode::Conversation { status, .. } => status,
        PanelMode::Task { display_status, .. } => display_status,
    }
}

/// The directory shown, in either mode.
pub open spec fn directory_of(mode: PanelMode) -> Option<String> {
    match mode {
        PanelMode::Conversation { directory, .. } => directory,
        PanelMode::Task { directory, .. } => directory,
    }
}

/// The panel's rows, in order: status, error banner, creator, executor, created, run time,
/// credits, directory, run id, environment id, harness, skill, prompt; each only when the
/// panel has it.
pub open spec fn field_rows_spec(d: ConversationDetailsData, x: PanelExtras) -> Seq<PanelRow> {
    row_of(status_of(d.mode), TextRowKind::Status)
        + row_of(task_error(d.mode), TextRowKind::ErrorBanner)
        + row_of(
        match d.creator {
            Some(c) => Some(c.display_name),
            None => None,
        },
        TextRowKind::Creator,
    ) + row_of(
        match d.executor {
            Some(c) => Some(c.display_name),
            None => None,
        },
        TextRowKind::Executor,
    ) + row_if(x.has_created_at, PanelRow::CreatedAt) + row_if(x.has_run_time, PanelRow::RunTime) + row_if(
        x.has_credits,
        PanelRow::Credits,
    ) + row_of(directory_of(d.mode), TextRowKind::Directory) + row_of(
        task_run_id(d.mode),
        TextRowKind::RunId,
    ) + row_of(task_environment_id(d.mode), TextRowKind::EnvironmentId) + row_of(
        d.harness,
        TextRowKind::Harness,
    ) + row_if(x.has_skill_spec, PanelRow::Skill) + row_of(d.source_prompt, TextRowKind::Prompt)
}

/// The row, if any, as a sequence.
pub open spec fn opt_seq(row: Option<PanelRow>) -> Seq<PanelRow> {
    match row {
        Some(r) => seq![r],
        None => Seq::empty(),
    }
}

fn push_row(out: &mut Vec<PanelRow>, row: Option<PanelRow>)
    ensures
        final(out)@ == old(out)@ + opt_seq(row),
{
    if let Some(r) = row {
        out.push(r);
    }
    proof {
        assert(final(out)@ =~= old(out)@ + opt_seq(row));
    }
}

fn text_row(o: &Option<String>, kind: TextRowKind) -> (r: Option<PanelRow>)
    ensures
        opt_seq(r) == row_of(*o, kind),
{
    match o {
        Some(v) => {
            let v = v.clone();
            Some(
                match kind {
                    TextRowKind::Status => PanelRow::Status(v),
                    TextRowKind::ErrorBanner => PanelRow::ErrorBanner(v),
                    TextRowKind::Creator => PanelRow::Creator(v),
                    TextRowKind::Executor => PanelRow::Executor(v),
                    TextRowKind::Directory => PanelRow::Directory(v),
                    TextRowKind::RunId => PanelRow::RunId(v),
                    TextRowKind::EnvironmentId => PanelRow::EnvironmentId(v),
                    TextRowKind::Harness => PanelRow::Harness(v),
                    TextRowKind::Prompt => PanelRow::Prompt(v),
                },
            )
        },
        None => None,
    }
}

fn flag_row(present: bool, row: PanelRow) -> (r: Option<PanelRow>)
    ensures
        opt_seq(r) == row_if(present, row),
{
    if present {
        Some(row)
    } else {
        None
    }
}

impl ConversationDetailsData {
    /// The rows of the panel's field list; see [`field_rows_spec`].
    pub fn field_rows(&self, extras: PanelExtras) -> (r: Vec<PanelRow>)
        ensures
            r@ == field_rows_spec(*self, extras),
    {
        let status = self.display_status();
        let error = match &self.mode {
            PanelMode::Task { error_message, .. } => clone_opt(error_message),
            PanelMode::Conversation { .. } => None,
        };
        let creator = match &self.creator {
            Some(c) => Some(c.display_name.clone()),
            None => None,
        };
        let executor = match &self.executor {
            Some(c) => Some(c.display_name.clone()),
            None => None,
        };
        let directory = self.directory();
        let run_id = match &self.mode {
            PanelMode::Task { task_id, .. } => clone_opt(task_id),
            PanelMode::Conversation { .. } => None,
        };
        let environment_id = match &self.mode {
            PanelMode::Task { environment_id, .. } => clone_opt(environment_id),
            PanelMode::Conversation { .. } => None,
        };
        let mut out: Vec<PanelRow> = Vec::new();
        push_row(&mut out, text_row(&status, TextRowKind::Status));
        push_row(&mut out, text_row(&error, TextRowKind::ErrorBanner));
        push_row(&mut out, text_row(&creator, TextRowKind::Creator));
        push_row(&mut out, text_row(&executor, TextRowKind::Executor));
        push_row(&mut out, flag_row(extras.has_created_at, PanelRow::CreatedAt));
        push_row(&mut out, flag_row(extras.has_run_time, PanelRow::RunTime));
        push_row(&mut out, flag_row(extras.has_credits, PanelRow::Credits));
        push_row(&mut out, text_row(&directory, TextRowKind::Directory));
        push_row(&mut out, text_row(&run_id, TextRowKind::RunId));
        push_row(&mut out, text_row(&environment_id, TextRowKind::EnvironmentId));
        push_row(&mut out, text_row(&self.harness, TextRowKind::Harness));
        push_row(&mut out, flag_row(extras.has_skill_spec, PanelRow::Skill));
        push_row(&mut out, text_row(&self.source_prompt, TextRowKind::Prompt));
        proof {
            assert(Seq::<PanelRow>::empty() + row_of(status_of(self.mode), TextRowKind::Status) =~= row_of(
                status_of(self.mode),
                TextRowKind::Status,
            ));
        }
        out
    }
}

} // verus!
