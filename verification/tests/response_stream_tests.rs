use agent_core::response_stream::{
    byop_routing, pending_title_query, summarization_overflow, Consumable, ResponseStream, ResponseStreamId, StreamError, StreamEvent, StreamEventOutcome, MAX_RETRIES,
};

fn transient_error() -> StreamError {
    StreamError { retryable: true, description: "stream ended before the response finished".to_string() }
}

fn client_error() -> StreamError {
    StreamError { retryable: false, description: "invalid request".to_string() }
}

/// Feeds one event of the current request and says whether it was surfaced.
fn feed(
    stream: &mut ResponseStream,
    request_id: &mut String,
    event: Result<StreamEvent, StreamError>,
    online: bool,
) -> StreamEventOutcome {
    let outcome = stream.handle_response_stream_event(request_id, event, online, 1_500);
    if let StreamEventOutcome::Retried { request_id: next } = &outcome {
        *request_id = next.clone();
    }
    outcome
}

fn exhaust_recovery_budget(stream: &mut ResponseStream, request_id: &mut String) {
    for _ in 0..MAX_RETRIES {
        let outcome = feed(stream, request_id, Err(transient_error()), true);
        assert!(matches!(outcome, StreamEventOutcome::Retried { .. }));
    }
}

#[test]
fn pre_action_failures_retry() {
    for can_attempt_resume_on_error in [true, false] {
        let (mut stream, mut id) = ResponseStream::new(can_attempt_resume_on_error, 1_000);
        let outcome = feed(&mut stream, &mut id, Err(transient_error()), true);
        assert!(matches!(outcome, StreamEventOutcome::Retried { .. }));
        assert_eq!(stream.retry_count(), 1);
        assert!(!stream.should_resume_conversation_after_stream_finished());
    }
}

#[test]
fn pre_action_budget_exhaustion_is_terminal() {
    for online in [true, false] {
        let (mut stream, mut id) = ResponseStream::new(true, 1_000);
        exhaust_recovery_budget(&mut stream, &mut id);
        let outcome = feed(&mut stream, &mut id, Err(transient_error()), online);
        assert_eq!(outcome, StreamEventOutcome::Surfaced);
        assert_eq!(stream.retry_count(), MAX_RETRIES);
        assert!(!stream.should_resume_conversation_after_stream_finished());
    }
}

#[test]
fn non_recoverable_pre_action_failure_is_terminal() {
    let (mut stream, mut id) = ResponseStream::new(true, 1_000);
    assert_eq!(feed(&mut stream, &mut id, Err(client_error()), true), StreamEventOutcome::Surfaced);
    assert_eq!(stream.retry_count(), 0);
    assert!(!stream.should_resume_conversation_after_stream_finished());
}

#[test]
fn post_action_recoverable_failures_resume() {
    for (online, exhaust_retry_budget) in [(true, false), (false, false), (true, true)] {
        let (mut stream, mut id) = ResponseStream::new(true, 1_000);
        if exhaust_retry_budget {
            exhaust_recovery_budget(&mut stream, &mut id);
        }
        assert_eq!(
            feed(&mut stream, &mut id, Ok(StreamEvent::ClientActions), online),
            StreamEventOutcome::Emitted { retry_succeeded: None }
        );
        assert_eq!(feed(&mut stream, &mut id, Err(transient_error()), online), StreamEventOutcome::Surfaced);
        assert!(stream.should_resume_conversation_after_stream_finished());
    }
}

#[test]
fn post_action_failures_without_resume_eligibility_are_terminal() {
    let (mut stream, mut id) = ResponseStream::new(false, 1_000);
    feed(&mut stream, &mut id, Ok(StreamEvent::ClientActions), true);
    assert_eq!(feed(&mut stream, &mut id, Err(transient_error()), true), StreamEventOutcome::Surfaced);
    assert_eq!(stream.retry_count(), 0);
    assert!(!stream.should_resume_conversation_after_stream_finished());
}

#[test]
fn non_recoverable_post_action_failure_is_terminal() {
    let (mut stream, mut id) = ResponseStream::new(true, 1_000);
    feed(&mut stream, &mut id, Ok(StreamEvent::ClientActions), true);
    assert_eq!(feed(&mut stream, &mut id, Err(client_error()), true), StreamEventOutcome::Surfaced);
    assert!(!stream.should_resume_conversation_after_stream_finished());
}

#[test]
fn offline_pre_action_failure_is_surfaced_without_retry() {
    let (mut stream, mut id) = ResponseStream::new(true, 1_000);
    assert_eq!(feed(&mut stream, &mut id, Err(transient_error()), false), StreamEventOutcome::Surfaced);
    assert_eq!(stream.retry_count(), 0);
}

#[test]
fn events_of_retried_or_cancelled_requests_are_ignored() {
    let (mut stream, first) = ResponseStream::new(true, 1_000);
    let mut id = first.clone();
    feed(&mut stream, &mut id, Err(transient_error()), true);
    assert_ne!(id, first);
    assert_eq!(stream.time_to_latest_event_ms(), 500);
    assert_eq!(
        stream.handle_response_stream_event(&first, Ok(StreamEvent::Other), true, 2_000),
        StreamEventOutcome::Ignored
    );
    // A stale event does not count as the latest one.
    assert_eq!(stream.time_to_latest_event_ms(), 500);
    assert!(!stream.on_response_stream_complete(&first));
    assert!(stream.cancel());
    assert!(!stream.cancel());
    assert_eq!(
        stream.handle_response_stream_event(&id, Ok(StreamEvent::Other), true, 2_000),
        StreamEventOutcome::Ignored
    );
}

#[test]
fn a_finish_after_retries_reports_the_first_error() {
    let (mut stream, mut id) = ResponseStream::new(true, 1_000);
    feed(&mut stream, &mut id, Err(transient_error()), true);
    feed(&mut stream, &mut id, Err(StreamError { retryable: true, description: "second".to_string() }), true);
    assert_eq!(
        feed(&mut stream, &mut id, Ok(StreamEvent::Init { request_id: "srv-1".to_string() }), true),
        StreamEventOutcome::Emitted { retry_succeeded: None }
    );
    assert_eq!(stream.server_output_id(), Some("srv-1".to_string()));
    assert_eq!(
        feed(&mut stream, &mut id, Ok(StreamEvent::Finished { done: true }), true),
        StreamEventOutcome::Emitted {
            retry_succeeded: Some((2, "stream ended before the response finished".to_string()))
        }
    );
    assert!(stream.on_response_stream_complete(&id));
    assert!(!stream.cancel());
}

#[test]
fn first_round_creates_the_task_and_titles_the_conversation() {
    let models = vec![("gpt-x".to_string(), 0u32), ("model-a".to_string(), 128000u32)];
    let r = byop_routing(&models, "model-a", "root".to_string(), None, 0, true);
    assert_eq!(r.target_task_id, "root");
    assert!(r.needs_create_task);
    assert!(r.generates_title);
    assert_eq!(r.context_window, Some(128000));
    // A title model outside the user's providers titles nothing.
    assert!(!byop_routing(&models, "model-a", "root".to_string(), None, 0, false).generates_title);
}

#[test]
fn later_rounds_write_to_the_target_task() {
    let models = vec![("gpt-x".to_string(), 0u32)];
    let r = byop_routing(&models, "gpt-x", "root".to_string(), Some("sub-1".to_string()), 2, true);
    assert_eq!(r.target_task_id, "sub-1");
    assert!(!r.needs_create_task);
    assert!(!r.generates_title);
    // A zero context window counts as unset.
    assert_eq!(r.context_window, None);
    assert_eq!(byop_routing(&models, "other", "root".to_string(), None, 1, true).context_window, None);
}

#[test]
fn title_query_is_the_first_user_query() {
    let inputs = vec![None, Some("first".to_string()), Some("second".to_string())];
    assert_eq!(pending_title_query(true, &inputs).as_deref(), Some("first"));
    assert_eq!(pending_title_query(false, &inputs), None);
    assert_eq!(pending_title_query(true, &[None]), None);
}

#[test]
fn shared_session_ids_extend_the_request_id_with_a_fresh_uuid() {
    let a = ResponseStreamId::for_shared_session("req-1");
    let b = ResponseStreamId::for_shared_session("req-1");
    assert!(a.as_str().starts_with("req-1-"));
    assert_eq!(a.as_str().len(), "req-1-".len() + 36);
    assert_ne!(a, b);
}

#[test]
fn summarization_overflow_reads_the_first_summarization_input() {
    assert_eq!(summarization_overflow(&[]), None);
    assert_eq!(summarization_overflow(&[None, None]), None);
    assert_eq!(summarization_overflow(&[None, Some(true), Some(false)]), Some(true));
    assert_eq!(summarization_overflow(&[Some(false), Some(true)]), Some(false));
}

#[test]
fn a_consumable_is_taken_once_across_its_copies() {
    let first = Consumable::new("event".to_string());
    let second = first.clone();
    assert_eq!(second.consume().as_deref(), Some("event"));
    assert_eq!(first.consume(), None);
    assert_eq!(second.consume(), None);
}
