//! Agent response streams: their identifiers, and how a stream reacts to what arrives on
//! it: which events reach the conversation, when a failed request is retried, and when the
//! conversation is to be resumed once the stream ends.
use vstd::prelude::*;
use vstd::string::*;

use std::rc::Rc;
use vstd::cell::invcell::InvCell;
use vstd::predicate::Predicate;

use crate::text::str_eq;

verus! {

/// Creates a random version-4 UUID with `uuid::Uuid::new_v4` and formats it with its
/// `Display` impl. The value is random; the contract claims only what holds of every
/// outcome: the hyphenated form that `Display` writes is 36 characters long.
#[verifier::external_body]
pub(crate) fn new_uuid_string() -> (r: String)
    ensures
        r@.len() == 36,
{
    uuid::Uuid::new_v4().to_string()
}

/// The identifier of one response stream.
#[derive(Debug, Clone, PartialEq, Eq, Hash)]
pub struct ResponseStreamId(pub String);

impl ResponseStreamId {
    /// A fresh identifier for a locally started stream: a random UUID in hyphenated form.
    pub fn new_local() -> (r: Self)
        ensures
            r.0@.len() == 36,
    {
        ResponseStreamId(new_uuid_string())
    }

    /// A fresh identifier for a stream replayed from a shared session: the server's request id,
    /// a hyphen, and a random UUID, so that replaying one conversation several times never
    /// gives two streams one identifier.
    pub fn for_shared_session(request_id: &str) -> (r: Self)
        ensures
            r.0@.len() == request_id@.len() + 37,
            r.0@.subrange(0, request_id@.len() + 1int) == request_id@ + "-"@,
    {
        let mut id = String::from_str(request_id);
        id.append("-");
        let suffix = new_uuid_string();
        id.append(suffix.as_str());
        proof {
            reveal_strlit("-");
            assert(id@.subrange(0, request_id@.len() + 1int) =~= request_id@ + "-"@);
        }
        ResponseStreamId(id)
    }

    /// A fresh identifier for tests; the same as [`ResponseStreamId::new_local`].
    pub fn new_for_test() -> (r: Self)
        ensures
            r.0@.len() == 36,
    {
        Self::new_local()
    }

    /// The identifier's text.
    pub fn as_str(&self) -> (r: &str)
        ensures
            r@ == self.0@,
    {
        self.0.as_str()
    }
}

/// Most times a request is retried before its failure is surfaced.
pub const MAX_RETRIES: usize = 3;

/// A successful event of a response stream, as far as the stream itself reads it.
#[derive(Debug, Clone, PartialEq, Eq)]
pub enum StreamEvent {
    /// The stream started; the server names its output `request_id`.
    Init { request_id: String },
    /// The agent sent actions for the client to run.
    ClientActions,
    /// The stream finished; `done` when it finished normally or gave no reason.
    Finished { done: bool },
    /// Any other event.
    Other,
}

/// A failed event of a response stream.
#[derive(Debug, Clone, PartialEq, Eq)]
pub struct StreamError {
    /// Whether sending the request again may succeed.
    pub retryable: bool,
    /// The error's description.
    pub description: String,
}

/// What a stream does with one event.
#[derive(Debug, Clone, PartialEq, Eq)]
pub enum StreamEventOutcome {
    /// The event belongs to a request that was cancelled or retried: dropped.
    Ignored,
    /// The event is passed on. When a retried request finished normally, `retry_succeeded`
    /// holds the number of retries and the first error, for reporting.
    Emitted { retry_succeeded: Option<(usize, String)> },
    /// The failure is not passed on: the request is sent again under `request_id`.
    Retried { request_id: String },
    /// The failure is passed on to the conversation.
    Surfaced,
}

/// The state of one response stream.
pub struct ResponseStream {
    id: ResponseStreamId,
    retry_count: usize,
    original_error: Option<String>,
    has_received_client_actions: bool,
    can_attempt_resume_on_error: bool,
    should_resume_conversation_after_stream_finished: bool,
    current_request_id: Option<String>,
    can_cancel: bool,
    server_output_id: Option<String>,
    start_time_ms: i64,
    time_to_latest_event_ms: i128,
}

impl ResponseStream {
    /// Retries stay within [`MAX_RETRIES`].
    pub closed spec fn wf(&self) -> bool {
        self.retry_count <= MAX_RETRIES
    }

    pub closed spec fn retry_count_spec(&self) -> nat {
        self.retry_count as nat
    }

    pub closed spec fn has_received_client_actions_spec(&self) -> bool {
        self.has_received_client_actions
    }

    pub closed spec fn can_attempt_resume_spec(&self) -> bool {
        self.can_attempt_resume_on_error
    }

    pub closed spec fn should_resume_spec(&self) -> bool {
        self.should_resume_conversation_after_stream_finished
    }

    /// The request whose events the stream currently passes on, if any.
    pub closed spec fn current_request_spec(&self) -> Option<Seq<char>> {
        match self.current_request_id {
            Some(r) => Some(r@),
            None => None,
        }
    }

    pub closed spec fn original_error_spec(&self) -> Option<Seq<char>> {
        match self.original_error {
            Some(e) => Some(e@),
            None => None,
        }
    }

    pub closed spec fn server_output_id_spec(&self) -> Option<Seq<char>> {
        match self.server_output_id {
            Some(e) => Some(e@),
            None => None,
        }
    }

    pub closed spec fn can_cancel_spec(&self) -> bool {
        self.can_cancel
    }

    /// When the stream started, in milliseconds.
    pub closed spec fn start_time_spec(&self) -> int {
        self.start_time_ms as int
    }

    /// How long after the start the latest event of the current request arrived, in
    /// milliseconds (0 before any).
    pub closed spec fn time_to_latest_event_spec(&self) -> int {
        self.time_to_latest_event_ms as int
    }

    /// A stream whose first request is in flight. `can_attempt_resume_on_error` is false for
    /// a stream that is itself the resume of a failed conversation. The answer holds the
    /// stream and the id of its first request. `start_time_ms` is the time the stream starts,
    /// in milliseconds.
    pub fn new(can_attempt_resume_on_error: bool, start_time_ms: i64) -> (r: (Self, String))
        ensures
            r.0.wf(),
            r.0.retry_count_spec() == 0,
            !r.0.has_received_client_actions_spec(),
            r.0.can_attempt_resume_spec() == can_attempt_resume_on_error,
            !r.0.should_resume_spec(),
            r.0.current_request_spec() == Some(r.1@),
            r.0.original_error_spec() is None,
            r.0.server_output_id_spec() is None,
            r.0.can_cancel_spec(),
            r.0.start_time_spec() == start_time_ms,
            r.0.time_to_latest_event_spec() == 0,
    {
        let request_id = new_uuid_string();
        let stream = ResponseStream {
            id: ResponseStreamId::new_local(),
            retry_count: 0,
            original_error: None,
            has_received_client_actions: false,
            can_attempt_resume_on_error,
            should_resume_conversation_after_stream_finished: false,
            current_request_id: Some(request_id.clone()),
            can_cancel: true,
            server_output_id: None,
            start_time_ms,
            time_to_latest_event_ms: 0,
        };
        (stream, request_id)
    }

    pub closed spec fn id_spec(&self) -> Seq<char> {
        self.id.0@
    }

    /// The stream's identifier.
    pub fn id(&self) -> (r: &ResponseStreamId)
        ensures
            r.0@ == self.id_spec(),
    {
        &self.id
    }

    /// How long after the start the latest event of the current request arrived, in
    /// milliseconds.
    pub fn time_to_latest_event_ms(&self) -> (r: i128)
        ensures
            r == self.time_to_latest_event_spec(),
    {
        self.time_to_latest_event_ms
    }

    /// How many times the request has been retried.
    pub fn retry_count(&self) -> (r: usize)
        ensures
            r == self.retry_count_spec(),
    {
        self.retry_count
    }

    /// Whether the conversation is to be resumed once the stream has finished.
    pub fn should_resume_conversation_after_stream_finished(&self) -> (r: bool)
        ensures
            r == self.should_resume_spec(),
    {
        self.should_resume_conversation_after_stream_finished
    }

    /// The server's id for the output, once the stream has started.
    pub fn server_output_id(&self) -> (r: Option<String>)
        ensures
            match r {
                Some(s) => self.server_output_id_spec() == Some(s@),
                None => self.server_output_id_spec() is None,
            },
    {
        match &self.server_output_id {
            Some(s) => Some(s.clone()),
            None => None,
        }
    }

    fn is_current(&self, request_id: &str) -> (r: bool)
        ensures
            r == (self.current_request_spec() == Some(request_id@)),
    {
        match &self.current_request_id {
            Some(current) => str_eq(current.as_str(), request_id),
            None => false,
        }
    }

    /// Handles one event of request `request_id`.
    /// - Events of any request but the current one are ignored, and change nothing.
    /// - A successful event is passed on. The start of the stream records the server's output
    ///   id; actions for the client mark the request as having sent them; a normal finish after
    ///   retries reports the retries and the first error.
    /// - A failure is retried when no client action has arrived, the error is retryable, fewer
    ///   than [`MAX_RETRIES`] retries were made and the client is online: the retry counts,
    ///   forgets the client actions, and becomes the current request. Otherwise it is passed
    ///   on, and the conversation is to be resumed afterwards when client actions had arrived,
    ///   the error is retryable and this stream may resume. The first failure's description is
    ///   kept.
    pub fn handle_response_stream_event(
        &mut self,
        request_id: &str,
        event: Result<StreamEvent, StreamError>,
        is_online: bool,
        now_ms: i64,
    ) -> (r: StreamEventOutcome)
        requires
            old(self).wf(),
        ensures
            final(self).wf(),
            final(self).retry_count_spec() <= MAX_RETRIES,
            final(self).can_attempt_resume_spec() == old(self).can_attempt_resume_spec(),
            old(self).current_request_spec() != Some(request_id@) ==> r == StreamEventOutcome::Ignored
                && final(self).retry_count_spec() == old(self).retry_count_spec()
                && final(self).has_received_client_actions_spec()
                == old(self).has_received_client_actions_spec() && final(self).should_resume_spec()
                == old(self).should_resume_spec() && final(self).current_request_spec()
                == old(self).current_request_spec() && final(self).original_error_spec()
                == old(self).original_error_spec() && final(self).server_output_id_spec()
                == old(self).server_output_id_spec() && final(self).can_cancel_spec()
                == old(self).can_cancel_spec() && final(self).time_to_latest_event_spec()
                == old(self).time_to_latest_event_spec(),
            old(self).current_request_spec() == Some(request_id@) ==> final(self).time_to_latest_event_spec()
                == now_ms - old(self).start_time_spec(),
            final(self).start_time_spec() == old(self).start_time_spec(),
            old(self).current_request_spec() == Some(request_id@) ==> match event {
                Ok(e) => {
                    &&& r matches StreamEventOutcome::Emitted { retry_succeeded }
                    &&& final(self).retry_count_spec() == old(self).retry_count_spec()
                    &&& final(self).should_resume_spec() == old(self).should_resume_spec()
                    &&& final(self).current_request_spec() == old(self).current_request_spec()
                    &&& final(self).has_received_client_actions_spec() == (old(
                        self,
                    ).has_received_client_actions_spec() || e is ClientActions)
                    &&& (e matches StreamEvent::Init { request_id: sid }
                        ==> final(self).server_output_id_spec() == Some(sid@))
                    &&& (retry_succeeded matches Some((n, first)) <==> (e matches StreamEvent::Finished {
                        done,
                    } && done && old(self).retry_count_spec() > 0
                        && old(self).original_error_spec() is Some))
                    &&& (retry_succeeded matches Some((n, first)) ==> n == old(self).retry_count_spec()
                        && old(self).original_error_spec() == Some(first@))
                },
                Err(err) => {
                    let retry = !old(self).has_received_client_actions_spec() && err.retryable
                        && old(self).retry_count_spec() < MAX_RETRIES && is_online;
                    &&& (old(self).retry_count_spec() == 0 ==> final(self).original_error_spec()
                        == Some(err.description@))
                    &&& (old(self).retry_count_spec() > 0 ==> final(self).original_error_spec()
                        == old(self).original_error_spec())
                    &&& if retry {
                        &&& r matches StreamEventOutcome::Retried { request_id: new_id }
                        &&& final(self).current_request_spec() == Some(new_id@)
                        &&& final(self).retry_count_spec() == old(self).retry_count_spec() + 1
                        &&& !final(self).has_received_client_actions_spec()
                        &&& final(self).should_resume_spec() == old(self).should_resume_spec()
                    } else {
                        &&& r == StreamEventOutcome::Surfaced
                        &&& final(self).current_request_spec() == old(self).current_request_spec()
                        &&& final(self).retry_count_spec() == old(self).retry_count_spec()
                        &&& final(self).has_received_client_actions_spec()
                            == old(self).has_received_client_actions_spec()
                        &&& final(self).should_resume_spec() == (old(self).should_resume_spec() || (
                        old(self).has_received_client_actions_spec() && err.retryable
                            && old(self).can_attempt_resume_spec()))
                    }
                },
            },
    {
        if !self.is_current(request_id) {
            return StreamEventOutcome::Ignored;
        }
        self.time_to_latest_event_ms = now_ms as i128 - self.start_time_ms as i128;
        match event {
            Ok(e) => {
                let mut retry_succeeded: Option<(usize, String)> = None;
                match e {
                    StreamEvent::Init { request_id: server_id } => {
                        self.server_output_id = Some(server_id);
                    },
                    StreamEvent::ClientActions => {
                        self.has_received_client_actions = true;
                    },
                    StreamEvent::Finished { done } => {
                        if done && self.retry_count > 0 {
                            if let Some(first) = &self.original_error {
                                retry_succeeded = Some((self.retry_count, first.clone()));
                            }
                        }
                    },
                    StreamEvent::Other => {},
                }
                StreamEventOutcome::Emitted { retry_succeeded }
            },
            Err(err) => {
                if self.retry_count == 0 {
                    self.original_error = Some(err.description.clone());
                }
                let should_retry = !self.has_received_client_actions && err.retryable
                    && self.retry_count < MAX_RETRIES && is_online;
                if should_retry {
                    let new_id = self.retry();
                    return StreamEventOutcome::Retried { request_id: new_id };
                }
                if self.has_received_client_actions && err.retryable
                    && self.can_attempt_resume_on_error {
                    self.should_resume_conversation_after_stream_finished = true;
                }
                StreamEventOutcome::Surfaced
            },
        }
    }

    /// Sends the request again: the retry counts, client actions are forgotten, and the new
    /// request, whose id is returned, becomes the current one.
    fn retry(&mut self) -> (r: String)
        requires
            old(self).retry_count < MAX_RETRIES,
        ensures
            final(self).retry_count == old(self).retry_count + 1,
            !final(self).has_received_client_actions,
            final(self).current_request_id matches Some(id) && id@ == r@,
            final(self).can_cancel,
            final(self).original_error == old(self).original_error,
            final(self).can_attempt_resume_on_error == old(self).can_attempt_resume_on_error,
            final(self).should_resume_conversation_after_stream_finished
                == old(self).should_resume_conversation_after_stream_finished,
            final(self).server_output_id == old(self).server_output_id,
            final(self).start_time_ms == old(self).start_time_ms,
            final(self).time_to_latest_event_ms == old(self).time_to_latest_event_ms,
    {
        self.retry_count = self.retry_count + 1;
        self.has_received_client_actions = false;
        let request_id = new_uuid_string();
        self.current_request_id = Some(request_id.clone());
        self.can_cancel = true;
        request_id
    }

    /// Handles a request that could not be sent: its error is passed on, and the stream
    /// finishes as [`ResponseStream::on_response_stream_complete`] says. The answer says
    /// whether the stream reports that it finished.
    pub fn handle_failed_request(&mut self, request_id: &str) -> (r: bool)
        requires
            old(self).wf(),
        ensures
            final(self).wf(),
            r == (old(self).current_request_spec() == Some(request_id@)),
            r ==> !final(self).can_cancel_spec(),
            final(self).current_request_spec() == old(self).current_request_spec(),
            final(self).retry_count_spec() == old(self).retry_count_spec(),
            final(self).should_resume_spec() == old(self).should_resume_spec(),
    {
        self.on_response_stream_complete(request_id)
    }

    /// Handles the end of request `request_id`. Only the current request's end counts: the
    /// stream then reports that it finished, and can no longer be cancelled.
    pub fn on_response_stream_complete(&mut self, request_id: &str) -> (r: bool)
        requires
            old(self).wf(),
        ensures
            final(self).wf(),
            r == (old(self).current_request_spec() == Some(request_id@)),
            r ==> !final(self).can_cancel_spec(),
            !r ==> final(self).can_cancel_spec() == old(self).can_cancel_spec(),
            final(self).current_request_spec() == old(self).current_request_spec(),
            final(self).retry_count_spec() == old(self).retry_count_spec(),
            final(self).should_resume_spec() == old(self).should_resume_spec(),
    {
        if !self.is_current(request_id) {
            return false;
        }
        self.can_cancel = false;
        true
    }

    /// Cancels the stream: no later event of any request is passed on. The answer says
    /// whether the stream reports that it finished because of the cancellation, which it does
    /// unless it had already finished or been cancelled.
    pub fn cancel(&mut self) -> (r: bool)
        requires
            old(self).wf(),
        ensures
            final(self).wf(),
            final(self).current_request_spec() is None,
            !final(self).can_cancel_spec(),
            r == old(self).can_cancel_spec(),
            final(self).retry_count_spec() == old(self).retry_count_spec(),
            final(self).should_resume_spec() == old(self).should_resume_spec(),
    {
        self.current_request_id = None;
        if !self.can_cancel {
            return false;
        }
        self.can_cancel = false;
        true
    }
}

/// How a request routed to a user-configured provider is dispatched.
#[derive(Debug, Clone, PartialEq, Eq)]
pub struct ByopRouting {
    /// The task that this round's output is written to.
    pub target_task_id: String,
    /// The conversation's root task is still local and must first be created on the
    /// conversation (only in the first round).
    pub needs_create_task: bool,
    /// The model's context window in tokens, when the provider lists the model with one.
    pub context_window: Option<u32>,
    /// The conversation is titled in the background: only in the first round, and only when
    /// the title model is served by a user-configured provider.
    pub generates_title: bool,
}

/// The context window that the provider lists for `model_id`: that of the first entry for
/// the model, when it is positive.
pub open spec fn listed_context_window(models: Seq<(String, u32)>, model_id: Seq<char>) -> Option<u32>
    decreases models.len(),
{
    if models.len() == 0 {
        None
    } else if models[0].0@ == model_id {
        if models[0].1 > 0 {
            Some(models[0].1)
        } else {
            None
        }
    } else {
        listed_context_window(models.drop_first(), model_id)
    }
}

fn find_context_window(provider_models: &[(String, u32)], model_id: &str) -> (r: Option<u32>)
    ensures
        r == listed_context_window(provider_models@, model_id@),
{
    let mut i: usize = 0;
    proof {
        assert(provider_models@.skip(0) =~= provider_models@);
    }
    while i < provider_models.len()
        invariant
            i <= provider_models@.len(),
            listed_context_window(provider_models@, model_id@) == listed_context_window(
                provider_models@.skip(i as int),
                model_id@,
            ),
        decreases provider_models@.len() - i,
    {
        proof {
            assert(provider_models@.skip(i as int).drop_first() =~= provider_models@.skip(i + 1));
            assert(provider_models@.skip(i as int)[0] == provider_models@[i as int]);
        }
        if str_eq(provider_models[i].0.as_str(), model_id) {
            if provider_models[i].1 > 0 {
                return Some(provider_models[i].1);
            }
            return None;
        }
        i = i + 1;
    }
    proof {
        assert(provider_models@.skip(i as int) =~= Seq::<(String, u32)>::empty());
    }
    None
}

/// The routing of a request to a user-configured provider. `provider_models` lists the
/// provider's models with their context windows (0 where unset); `active_task_count` counts
/// the conversation's tasks that the server already knows; `title_model_is_byop` says whether
/// the active title model is itself served by a user-configured provider.
pub fn byop_routing(
    provider_models: &[(String, u32)],
    model_id: &str,
    root_task_id: String,
    byop_target_task_id: Option<String>,
    active_task_count: usize,
    title_model_is_byop: bool,
) -> (r: ByopRouting)
    ensures
        r.target_task_id@ == match byop_target_task_id {
            Some(t) => t@,
            None => root_task_id@,
        },
        r.needs_create_task == (active_task_count == 0),
        r.generates_title == (active_task_count == 0 && title_model_is_byop),
        r.context_window == listed_context_window(provider_models@, model_id@),
{
    let context_window = find_context_window(provider_models, model_id);
    let target_task_id = match byop_target_task_id {
        Some(t) => t,
        None => root_task_id,
    };
    let needs_create_task = active_task_count == 0;
    ByopRouting {
        target_task_id,
        needs_create_task,
        context_window,
        generates_title: needs_create_task && title_model_is_byop,
    }
}

/// The first query among a request's inputs, each given as its query when it is a user
/// query.
pub open spec fn first_query_spec(queries: Seq<Option<String>>) -> Option<String>
    decreases queries.len(),
{
    if queries.len() == 0 {
        None
    } else {
        match queries[0] {
            Some(q) => Some(q),
            None => first_query_spec(queries.drop_first()),
        }
    }
}

/// The query that titles a conversation in the background: the first user query among the
/// request's inputs, when a title is to be generated at all.
pub fn pending_title_query(generates_title: bool, queries: &[Option<String>]) -> (r: Option<String>)
    ensures
        r == if generates_title {
            first_query_spec(queries@)
        } else {
            None
        },
{
    if !generates_title {
        return None;
    }
    let mut i: usize = 0;
    proof {
        assert(queries@.skip(0) =~= queries@);
    }
    while i < queries.len()
        invariant
            generates_title,
            i <= queries@.len(),
            first_query_spec(queries@) == first_query_spec(queries@.skip(i as int)),
        decreases queries@.len() - i,
    {
        proof {
            assert(queries@.skip(i as int).drop_first() =~= queries@.skip(i + 1));
            assert(queries@.skip(i as int)[0] == queries@[i as int]);
        }
        match &queries[i] {
            Some(q) => {
                let found = q.clone();
                proof {
                    assert(first_query_spec(queries@.skip(i as int)) == Some(*q));
                }
                return Some(found);
            },
            None => {},
        }
        i = i + 1;
    }
    proof {
        assert(queries@.skip(i as int) =~= Seq::<Option<String>>::empty());
    }
    None
}

/// The overflow flag of the first request to summarize the conversation among a request's
/// inputs, each given as its flag when it is such a request.
pub open spec fn first_flag_spec(flags: Seq<Option<bool>>) -> Option<bool>
    decreases flags.len(),
{
    if flags.len() == 0 {
        None
    } else {
        match flags[0] {
            Some(f) => Some(f),
            None => first_flag_spec(flags.drop_first()),
        }
    }
}

/// Whether a stream is summarizing the conversation, and with which overflow flag: the flag
/// of the first summarization request among its inputs (`flags` holds, per input, its flag
/// when it is one), or nothing when there is none.
pub fn summarization_overflow(flags: &[Option<bool>]) -> (r: Option<bool>)
    ensures
        r == first_flag_spec(flags@),
{
    let mut i: usize = 0;
    proof {
        assert(flags@.skip(0) =~= flags@);
    }
    while i < flags.len()
        invariant
            i <= flags@.len(),
            first_flag_spec(flags@) == first_flag_spec(flags@.skip(i as int)),
        decreases flags@.len() - i,
    {
        proof {
            assert(flags@.skip(i as int).drop_first() =~= flags@.skip(i + 1));
            assert(flags@.skip(i as int)[0] == flags@[i as int]);
        }
        if let Some(f) = flags[i] {
            return Some(f);
        }
        i = i + 1;
    }
    None
}

/// Makes another pointer to the allocation of `rc` with `Rc::clone`, which, as std documents
/// it, creates a new `Rc` to the same allocation; the contract claims that both stand for
/// the same value.
#[verifier::external_body]
fn share_rc<V>(rc: &Rc<V>) -> (r: Rc<V>)
    ensures
        r == *rc,
{
    Rc::clone(rc)
}

/// What the cell of a [`Consumable`] may hold: its value, until it is taken.
pub struct HeldOrTaken<T> {
    pub value: T,
}

impl<T> Predicate<Option<T>> for HeldOrTaken<T> {
    open spec fn predicate(&self, v: Option<T>) -> bool {
        v is None || v == Some(self.value)
    }
}

/// A value that the copies of one event share and that at most one of them takes.
pub struct Consumable<T> {
    value: Rc<InvCell<Option<T>, HeldOrTaken<T>>>,
}

impl<T> Consumable<T> {
    /// The value the consumable was made with.
    pub closed spec fn original(&self) -> T {
        (*self.value).predicate().value
    }

    /// A consumable holding `value`.
    pub fn new(value: T) -> (r: Self)
        ensures
            r.original() == value,
    {
        let ghost pred = HeldOrTaken { value };
        Consumable { value: Rc::new(InvCell::new(Some(value), Ghost(pred))) }
    }

    /// Takes the value out: what comes back is the original value, or nothing when a copy
    /// took it already.
    pub fn consume(&self) -> (r: Option<T>)
        ensures
            r is None || r == Some(self.original()),
    {
        self.value.replace(None)
    }
}

impl<T> Clone for Consumable<T> {
    /// Another handle on the same value: taking it through either handle takes it for both.
    fn clone(&self) -> (r: Self)
        ensures
            r.original() == self.original(),
    {
        Consumable { value: share_rc(&self.value) }
    }
}

} // verus!
