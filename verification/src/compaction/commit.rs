//! What a finished summarisation leaves behind: the summary the model wrote, the user message
//! that asked for it, and which tool outputs to blank out before the next request.
use vstd::prelude::*;
use vstd::string::*;

use super::algorithm::{prune_decisions, prune_spec, MessageRef};
use super::config::CompactionConfig;
use crate::response_stream::new_uuid_string;

verus! {

/// What a message of a conversation is, as far as committing a summary reads it.
#[derive(Debug, Clone, PartialEq, Eq)]
pub enum TimedMessageKind {
    UserQuery,
    AgentOutput { text: String },
    Other,
}

/// A message with its id and its timestamp (seconds and nanoseconds), if it has one.
#[derive(Debug, Clone, PartialEq, Eq)]
pub struct TimedMessage {
    pub id: String,
    pub timestamp: Option<(i64, i32)>,
    pub kind: TimedMessageKind,
}

/// The time by which messages are ordered; a message without a timestamp counts as time zero.
pub open spec fn time_key(m: TimedMessage) -> (int, int) {
    match m.timestamp {
        Some((s, n)) => (s as int, n as int),
        None => (0, 0),
    }
}

/// Message `i` comes after message `j` in time order; messages of the same time keep the
/// order in which they are listed.
pub open spec fn comes_after(msgs: Seq<TimedMessage>, i: int, j: int) -> bool {
    let a = time_key(msgs[i]);
    let b = time_key(msgs[j]);
    a.0 > b.0 || (a.0 == b.0 && (a.1 > b.1 || (a.1 == b.1 && i > j)))
}

/// Message `a` is the latest agent output of `msgs`.
pub open spec fn is_latest_output(msgs: Seq<TimedMessage>, a: int) -> bool {
    &&& 0 <= a < msgs.len()
    &&& is_agent_output(msgs[a])
    &&& forall|k: int|
        0 <= k < msgs.len() && k != a && #[trigger] is_agent_output(msgs[k]) ==> comes_after(msgs, a, k)
}

/// The latest user query that comes before message `a`.
pub open spec fn is_latest_query_before(msgs: Seq<TimedMessage>, a: int, q: int) -> bool {
    &&& 0 <= q < msgs.len()
    &&& msgs[q].kind is UserQuery
    &&& comes_after(msgs, a, q)
    &&& forall|k: int|
        0 <= k < msgs.len() && k != q && (#[trigger] msgs[k]).kind is UserQuery && comes_after(
            msgs,
            a,
            k,
        ) ==> comes_after(msgs, q, k)
}

pub open spec fn is_agent_output(m: TimedMessage) -> bool {
    m.kind is AgentOutput
}

/// Where a summary is committed from.
#[derive(Debug, Clone, PartialEq, Eq)]
pub struct SummaryCommit {
    /// The message that holds the summary.
    pub assistant_msg_id: String,
    pub summary_text: String,
    /// The user message that asked for it, if one came before it.
    pub user_msg_id: Option<String>,
}

fn later(msgs: &[TimedMessage], i: usize, j: usize) -> (r: bool)
    requires
        i < msgs@.len(),
        j < msgs@.len(),
    ensures
        r == comes_after(msgs@, i as int, j as int),
{
    let (a0, a1): (i64, i32) = match msgs[i].timestamp {
        Some(t) => t,
        None => (0, 0),
    };
    let (b0, b1): (i64, i32) = match msgs[j].timestamp {
        Some(t) => t,
        None => (0, 0),
    };
    a0 > b0 || (a0 == b0 && (a1 > b1 || (a1 == b1 && i > j)))
}

/// Finds the summary that a summarisation produced: the latest agent output in time order
/// (messages of the same time keep their listed order), and the latest user query before it.
/// There is nothing to commit when no message is an agent output.
pub fn find_summary_commit(msgs: &[TimedMessage]) -> (r: Option<SummaryCommit>)
    ensures
        r is None <==> forall|k: int| 0 <= k < msgs@.len() ==> !is_agent_output(#[trigger] msgs@[k]),
        r matches Some(c) ==> exists|a: int|
            {
                &&& #[trigger] is_latest_output(msgs@, a)
                &&& msgs@[a].kind matches TimedMessageKind::AgentOutput { text }
                &&& c.summary_text@ == text@
                &&& c.assistant_msg_id@ == msgs@[a].id@
                &&& match c.user_msg_id {
                    Some(u) => exists|q: int| #[trigger] is_latest_query_before(msgs@, a, q) && u@ == msgs@[q].id@,
                    None => forall|k: int|
                        0 <= k < msgs@.len() && (#[trigger] msgs@[k]).kind is UserQuery ==> !comes_after(
                            msgs@,
                            a,
                            k,
                        ),
                }
            },
{
    let mut best: Option<usize> = None;
    let mut i: usize = 0;
    while i < msgs.len()
        invariant
            i <= msgs@.len(),
            match best {
                None => forall|k: int| 0 <= k < i ==> !is_agent_output(#[trigger] msgs@[k]),
                Some(b) => b < i && is_agent_output(msgs@[b as int]) && forall|k: int|
                    0 <= k < i && k != b && #[trigger] is_agent_output(msgs@[k]) ==> comes_after(
                        msgs@,
                        b as int,
                        k,
                    ),
            },
        decreases msgs@.len() - i,
    {
        if let TimedMessageKind::AgentOutput { .. } = &msgs[i].kind {
            match best {
                None => {
                    best = Some(i);
                },
                Some(b) => {
                    if later(msgs, i, b) {
                        best = Some(i);
                    }
                },
            }
        }
        i = i + 1;
    }
    let a = match best {
        None => return None,
        Some(a) => a,
    };
    assert(is_latest_output(msgs@, a as int));
    let mut user: Option<usize> = None;
    let mut j: usize = 0;
    while j < msgs.len()
        invariant
            j <= msgs@.len(),
            a < msgs@.len(),
            match user {
                None => forall|k: int|
                    0 <= k < j && (#[trigger] msgs@[k]).kind is UserQuery ==> !comes_after(msgs@, a as int, k),
                Some(q) => q < j && msgs@[q as int].kind is UserQuery && comes_after(msgs@, a as int, q as int)
                    && forall|k: int|
                    0 <= k < j && k != q && (#[trigger] msgs@[k]).kind is UserQuery && comes_after(
                        msgs@,
                        a as int,
                        k,
                    ) ==> comes_after(msgs@, q as int, k),
            },
        decreases msgs@.len() - j,
    {
        if let TimedMessageKind::UserQuery = &msgs[j].kind {
            if later(msgs, a, j) {
                match user {
                    None => {
                        user = Some(j);
                    },
                    Some(q) => {
                        if later(msgs, j, q) {
                            user = Some(j);
                        }
                    },
                }
            }
        }
        j = j + 1;
    }
    let summary_text = match &msgs[a].kind {
        TimedMessageKind::AgentOutput { text } => text.clone(),
        _ => String::new(),
    };
    let user_msg_id = match user {
        Some(q) => {
            assert(is_latest_query_before(msgs@, a as int, q as int));
            Some(msgs[q].id.clone())
        },
        None => None,
    };
    Some(SummaryCommit { assistant_msg_id: msgs[a].id.clone(), summary_text, user_msg_id })
}

/// The id under which a summary's trigger is recorded: the user message that asked for it,
/// or, when there is none, `compaction-trigger-` and a fresh random UUID.
pub fn commit_user_msg_id(user_msg_id: Option<String>) -> (r: String)
    ensures
        match user_msg_id {
            Some(u) => r == u,
            None => r@.len() == 55 && r@.subrange(0, 19) == "compaction-trigger-"@,
        },
{
    match user_msg_id {
        Some(u) => u,
        None => {
            let mut id = String::from_str("compaction-trigger-");
            proof {
                reveal_strlit("compaction-trigger-");
            }
            let uuid = new_uuid_string();
            id.append(uuid.as_str());
            proof {
                assert(id@.subrange(0, 19) =~= "compaction-trigger-"@);
            }
            id
        },
    }
}

/// The tool outputs to blank out before a request: none when pruning is off, otherwise those
/// that [`prune_decisions`] chooses.
pub fn prune_now<M: MessageRef>(cfg: &CompactionConfig, messages: &[M]) -> (r: Vec<(M::Id, M::CallId)>)
    ensures
        r@ == if cfg.prune {
            prune_spec(messages@)
        } else {
            Seq::empty()
        },
{
    if !cfg.prune {
        return Vec::new();
    }
    prune_decisions(messages)
}

/// A finished summarisation, as the conversation records it.
#[derive(Debug, Clone, PartialEq, Eq)]
pub struct CompletedCompaction {
    /// The user message that asked for the summary, or a `compaction-trigger-` marker.
    pub user_msg_id: String,
    /// The message that holds the summary.
    pub assistant_msg_id: String,
    /// The messages that the summary replaces.
    pub head_message_ids: Vec<String>,
    /// The first message kept after the summary, if any is kept.
    pub tail_start_id: Option<String>,
    pub summary_text: Option<String>,
    /// The summarisation was started automatically.
    pub auto: bool,
    /// The summarisation was started because the context overflowed.
    pub overflow: bool,
}

/// The summarisations a conversation has finished, in order.
#[derive(Debug, Clone, PartialEq, Eq)]
pub struct CompactionState {
    pub completed: Vec<CompletedCompaction>,
}

impl CompactionState {
    /// No summarisation yet.
    pub fn new() -> (r: Self)
        ensures
            r.completed@.len() == 0,
    {
        CompactionState { completed: Vec::new() }
    }

    /// Records a finished summarisation after the others.
    pub fn push_completed(&mut self, completed: CompletedCompaction)
        ensures
            final(self).completed@ == old(self).completed@.push(completed),
    {
        self.completed.push(completed);
    }
}

/// Whether `c` records the summary that `msgs` hold: the latest agent output `a` (its id and
/// text), the latest user query before it (or, with none, a `compaction-trigger-` marker of
/// 55 characters), the given head and tail, and `auto` and `overflow` both set as `overflow`.
pub open spec fn records_summary(
    c: CompletedCompaction,
    msgs: Seq<TimedMessage>,
    overflow: bool,
    head_message_ids: Seq<String>,
    tail_start_id: Option<String>,
) -> bool {
    exists|a: int|
        {
            &&& #[trigger] is_latest_output(msgs, a)
            &&& msgs[a].kind matches TimedMessageKind::AgentOutput { text }
            &&& c.summary_text matches Some(t) && t@ == text@
            &&& c.assistant_msg_id@ == msgs[a].id@
            &&& if exists|q: int| #[trigger] is_latest_query_before(msgs, a, q) {
                exists|q: int| #[trigger] is_latest_query_before(msgs, a, q) && c.user_msg_id@ == msgs[q].id@
            } else {
                c.user_msg_id@.len() == 55 && c.user_msg_id@.subrange(0, 19) == "compaction-trigger-"@
            }
        }
        && c.head_message_ids@ == head_message_ids
        && c.tail_start_id == tail_start_id
        && c.auto == overflow
        && c.overflow == overflow
}

/// Commits the summary that a summarisation left in `msgs` to `state`; see
/// [`records_summary`]. `head_message_ids` and `tail_start_id` are what [`super::algorithm::select`]
/// chose over the same messages in time order. Nothing is committed, and the answer is false,
/// when no message is an agent output.
pub fn commit_summarization(
    state: &mut CompactionState,
    msgs: &[TimedMessage],
    overflow: bool,
    head_message_ids: Vec<String>,
    tail_start_id: Option<String>,
) -> (r: bool)
    ensures
        r <==> exists|k: int| 0 <= k < msgs@.len() && is_agent_output(#[trigger] msgs@[k]),
        !r ==> final(state).completed@ == old(state).completed@,
        r ==> final(state).completed@.len() == old(state).completed@.len() + 1
            && final(state).completed@.drop_last() == old(state).completed@
            && records_summary(
            final(state).completed@.last(),
            msgs@,
            overflow,
            head_message_ids@,
            tail_start_id,
        ),
{
    let found = find_summary_commit(msgs);
    let commit = match found {
        Some(c) => c,
        None => {
            return false;
        },
    };
    let ghost had_query = commit.user_msg_id is Some;
    let user_msg_id = commit_user_msg_id(commit.user_msg_id.clone());
    let completed = CompletedCompaction {
        user_msg_id,
        assistant_msg_id: commit.assistant_msg_id,
        head_message_ids,
        tail_start_id,
        summary_text: Some(commit.summary_text),
        auto: overflow,
        overflow,
    };
    let ghost c = completed;
    state.push_completed(completed);
    proof {
        assert(final(state).completed@.drop_last() =~= old(state).completed@);
        assert(records_summary(c, msgs@, overflow, head_message_ids@, tail_start_id)) by {
            let a = choose|a: int| {
                &&& #[trigger] is_latest_output(msgs@, a)
                &&& msgs@[a].kind matches TimedMessageKind::AgentOutput { text }
                &&& commit.summary_text@ == text@
                &&& commit.assistant_msg_id@ == msgs@[a].id@
                &&& match commit.user_msg_id {
                    Some(u) => exists|q: int| #[trigger] is_latest_query_before(msgs@, a, q) && u@ == msgs@[q].id@,
                    None => forall|k: int|
                        0 <= k < msgs@.len() && (#[trigger] msgs@[k]).kind is UserQuery ==> !comes_after(
                            msgs@,
                            a,
                            k,
                        ),
                }
            };
            assert(is_latest_output(msgs@, a));
        }
    }
    true
}

} // verus!
