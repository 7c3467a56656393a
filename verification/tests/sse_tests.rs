use mcp_sessions::sse::SseMachine;
use mcp_sessions::sse::SsePhase;
use mcp_sessions::sse::SseTransportError;
use mcp_sessions::sse::TerminationReason;

fn streaming_machine() -> SseMachine {
    let mut m = SseMachine::new("http://h:9000/bar");
    let delivered = m.on_event("endpoint", "/messages");
    assert!(delivered.is_none());
    assert_eq!(m.current_phase(), SsePhase::Streaming);
    m
}

#[test]
fn handshake_resolves_relative_endpoint() {
    let mut m = SseMachine::new("http://h:9000/bar");
    assert_eq!(m.current_phase(), SsePhase::AwaitingEndpoint);
    assert!(m.post_target().is_none());

    m.on_event("endpoint", "/foo/123");
    assert_eq!(m.current_phase(), SsePhase::Streaming);
    assert_eq!(m.post_target(), Some("http://h:9000/foo/123".to_string()));
}

#[test]
fn handshake_keeps_absolute_endpoint() {
    let mut m = SseMachine::new("https://a.example/sse");
    m.on_event("endpoint", " https://b.example/messages \r\n");
    assert_eq!(m.post_target(), Some("https://b.example/messages".to_string()));
}

#[test]
fn non_endpoint_events_ignored_during_handshake() {
    let mut m = SseMachine::new("http://h/sse");
    let delivered = m.on_event("message", "{\"x\": 1}");
    assert!(delivered.is_none());
    assert_eq!(m.current_phase(), SsePhase::AwaitingEndpoint);
    assert!(m.post_target().is_none());
}

#[test]
fn stream_closed_before_endpoint_is_fatal_with_one_notification() {
    let mut m = SseMachine::new("http://h/sse");
    let reason = m.on_stream_closed();
    assert_eq!(reason, Some("sse_stream_closed_before_endpoint".to_string()));
    assert_eq!(m.current_phase(), SsePhase::Terminated);
    assert_eq!(m.current_termination(), Some(TerminationReason::Fatal));
    assert!(m.has_notified());
}

#[test]
fn stream_closed_while_streaming_is_transport_closed() {
    let mut m = streaming_machine();
    let reason = m.on_stream_closed();
    assert_eq!(reason, Some("sse_stream_closed".to_string()));
    assert_eq!(m.current_termination(), Some(TerminationReason::TransportClosed));
    assert!(m.has_notified());
}

#[test]
fn stream_error_reasons_differ_by_phase() {
    let mut early = SseMachine::new("http://h/sse");
    assert_eq!(early.on_stream_error(), Some("sse_stream_error_before_endpoint".to_string()));
    assert_eq!(early.current_termination(), Some(TerminationReason::Fatal));

    let mut late = streaming_machine();
    assert_eq!(late.on_stream_error(), Some("sse_stream_error".to_string()));
    assert_eq!(late.current_termination(), Some(TerminationReason::Fatal));
}

#[test]
fn bad_initial_response_is_fatal() {
    let mut m = SseMachine::new("http://h/sse");
    let reason = m.on_initial_response(502);
    assert_eq!(reason, Some("sse_initial_response_error".to_string()));
    assert_eq!(m.current_termination(), Some(TerminationReason::Fatal));

    let mut ok = SseMachine::new("http://h/sse");
    assert!(ok.on_initial_response(200).is_none());
    assert_eq!(ok.current_phase(), SsePhase::AwaitingEndpoint);
}

#[test]
fn malformed_message_is_dropped_next_valid_delivered() {
    let mut m = streaming_machine();

    let dropped = m.on_event("message", "{not json at all");
    assert!(dropped.is_none());
    assert_eq!(m.current_phase(), SsePhase::Streaming);

    let delivered = m.on_event("message", "{\"jsonrpc\": \"2.0\", \"id\": 1}");
    assert_eq!(delivered, Some("{\"jsonrpc\": \"2.0\", \"id\": 1}".to_string()));
    assert_eq!(m.current_phase(), SsePhase::Streaming);
}

#[test]
fn endpoint_event_rotates_post_url_while_streaming() {
    let mut m = streaming_machine();
    assert_eq!(m.post_target(), Some("http://h:9000/messages".to_string()));
    m.on_event("endpoint", " http://h:9000/next \n");
    assert_eq!(m.post_target(), Some("http://h:9000/next".to_string()));
    assert_eq!(m.current_phase(), SsePhase::Streaming);
}

#[test]
fn unknown_event_types_are_ignored_while_streaming() {
    let mut m = streaming_machine();
    let delivered = m.on_event("ping", "whatever");
    assert!(delivered.is_none());
    assert_eq!(m.current_phase(), SsePhase::Streaming);
}

#[test]
fn failed_post_terminates_session() {
    let mut m = streaming_machine();
    assert!(m.on_send_result(true).is_none());
    assert_eq!(m.current_phase(), SsePhase::Streaming);

    let reason = m.on_send_result(false);
    assert_eq!(reason, Some("post_send_error".to_string()));
    assert_eq!(m.current_termination(), Some(TerminationReason::Fatal));
    assert!(m.has_notified());
}

#[test]
fn transport_error_messages() {
    assert_eq!(
        SseTransportError::Connection("refused".to_string()).message(),
        "Connection error: refused",
    );
    assert_eq!(SseTransportError::Closed.message(), "Channel closed");
    assert_eq!(SseTransportError::Join("panic".to_string()).message(), "Join error: panic");
}

#[test]
fn cancellation_terminates_quietly() {
    let mut m = streaming_machine();
    m.on_cancelled();
    assert_eq!(m.current_phase(), SsePhase::Terminated);
    assert_eq!(m.current_termination(), Some(TerminationReason::Cancelled));
    assert!(!m.has_notified());
}
