use mcp_sessions::registry::ConnectionRegistry;
use mcp_sessions::registry::McpToolInfo;
use mcp_sessions::registry::Session;
use mcp_sessions::registry::SessionError;
use mcp_sessions::registry::ToolCallOutcome;
use mcp_sessions::registry::TransportKind;
use mcp_sessions::registry::parse_transport_kind;
use mcp_sessions::registry::schema_text_or_none;
use mcp_sessions::registry::tool_call_result;
use mcp_sessions::registry::tools_from_infos;
use mcp_sessions::TOOL_CALL_TIMEOUT_SECS;

fn tool(name: &str) -> McpToolInfo {
    McpToolInfo {
        name: name.to_string(),
        description: Some(format!("{} description", name)),
        input_schema: Some("{\"type\": \"object\"}".to_string()),
        output_schema: None,
    }
}

#[test]
fn connect_twice_same_id_rejected() {
    let mut reg = ConnectionRegistry::new();
    assert!(reg.register_session("srv", Session { transport: 1, heartbeat: 2 }).is_ok());
    let second = reg.register_session("srv", Session { transport: 3, heartbeat: 4 });
    assert_eq!(second, Err(SessionError::AlreadyConnected));
    // the first session is still the registered one
    let s = reg.session_of("srv").unwrap();
    assert_eq!(s.transport, 1);
    assert_eq!(s.heartbeat, 2);
}

#[test]
fn disconnect_clears_connection_and_cache() {
    let mut reg = ConnectionRegistry::new();
    reg.register_session("srv", Session { transport: 1, heartbeat: 1 }).unwrap();
    reg.record_tools("srv", vec![tool("alpha")]).unwrap();
    assert!(reg.is_connected("srv"));
    assert_eq!(reg.get_cached_tools("srv").unwrap().len(), 1);

    let t = reg.teardown("srv", "user_requested").unwrap();
    assert_eq!(t.session.transport, 1);
    assert!(!reg.is_connected("srv"));
    assert!(reg.get_cached_tools("srv").is_none());
}

#[test]
fn disconnect_twice_emits_one_notification() {
    let mut reg = ConnectionRegistry::new();
    reg.register_session("srv", Session { transport: 7, heartbeat: 8 }).unwrap();

    let first = reg.teardown("srv", "heartbeat_failed");
    let second = reg.teardown("srv", "heartbeat_failed");
    assert!(first.is_some());
    assert!(second.is_none());

    let notice = first.unwrap().notice;
    assert_eq!(notice.session_id, "srv");
    assert_eq!(notice.status, "disconnected");
    assert_eq!(notice.reason, "heartbeat_failed");
    assert_eq!(notice.error, "Transport closed: heartbeat_failed");
}

#[test]
fn sessions_are_independent() {
    let mut reg = ConnectionRegistry::new();
    reg.register_session("one", Session { transport: 1, heartbeat: 1 }).unwrap();
    reg.register_session("two", Session { transport: 2, heartbeat: 2 }).unwrap();
    reg.record_tools("one", vec![tool("a")]).unwrap();
    reg.record_tools("two", vec![tool("b"), tool("c")]).unwrap();

    reg.teardown("one", "sse_stream_closed").unwrap();

    assert!(!reg.is_connected("one"));
    assert!(reg.is_connected("two"));
    let cached = reg.get_cached_tools("two").unwrap();
    assert_eq!(cached.len(), 2);
    assert_eq!(cached[0].name, "b");
    assert_eq!(reg.session_of("two").unwrap().transport, 2);
}

#[test]
fn listing_replaces_the_whole_cache_entry() {
    let mut reg = ConnectionRegistry::new();
    reg.register_session("srv", Session { transport: 1, heartbeat: 1 }).unwrap();
    reg.record_tools("srv", vec![tool("a"), tool("b")]).unwrap();
    reg.record_tools("srv", vec![tool("c")]).unwrap();
    let cached = reg.get_cached_tools("srv").unwrap();
    assert_eq!(cached.len(), 1);
    assert_eq!(cached[0].name, "c");
}

#[test]
fn record_tools_requires_connection() {
    let mut reg = ConnectionRegistry::new();
    let r = reg.record_tools("ghost", vec![tool("a")]);
    assert_eq!(r, Err(SessionError::NotConnected));
    assert!(reg.get_cached_tools("ghost").is_none());
}

#[test]
fn disconnect_all_empties_registry_without_notices() {
    let mut reg = ConnectionRegistry::new();
    reg.register_session("one", Session { transport: 1, heartbeat: 1 }).unwrap();
    reg.register_session("two", Session { transport: 2, heartbeat: 2 }).unwrap();
    reg.record_tools("one", vec![tool("a")]).unwrap();

    let drained = reg.disconnect_all();
    assert_eq!(drained.len(), 2);
    assert!(!reg.is_connected("one"));
    assert!(!reg.is_connected("two"));
    assert!(reg.get_cached_tools("one").is_none());
}

#[test]
fn transport_tag_dispatch() {
    assert_eq!(parse_transport_kind("streamable_http"), Ok(TransportKind::StreamableHttp));
    assert_eq!(parse_transport_kind("sse"), Ok(TransportKind::Sse));
    assert_eq!(parse_transport_kind("SSE"), Err(SessionError::UnsupportedTransport));
    assert_eq!(parse_transport_kind("stdio"), Err(SessionError::UnsupportedTransport));
    assert_eq!(parse_transport_kind(""), Err(SessionError::UnsupportedTransport));
}

#[test]
fn timed_out_call_reports_failed_result_with_duration() {
    let elapsed_ms: i64 = (TOOL_CALL_TIMEOUT_SECS * 1000) as i64 + 12;
    let r = tool_call_result(ToolCallOutcome::TimedOut, elapsed_ms);
    assert!(!r.success);
    assert_eq!(r.raw_response, "{\"error\": \"Request timed out\"}");
    assert_eq!(r.error, Some("Request timed out after 30 seconds".to_string()));
    assert!(r.result.is_none());
    assert_eq!(r.duration_ms, elapsed_ms);
    assert!(r.duration_ms >= (TOOL_CALL_TIMEOUT_SECS * 1000) as i64);
}

#[test]
fn completed_call_keeps_server_error_flag() {
    let ok = tool_call_result(
        ToolCallOutcome::Completed {
            raw_response: "{\"content\": []}".to_string(),
            result_json: "[]".to_string(),
            is_error: false,
        },
        42,
    );
    assert!(ok.success);
    assert_eq!(ok.raw_response, "{\"content\": []}");
    assert_eq!(ok.result, Some("[]".to_string()));
    assert!(ok.error.is_none());
    assert_eq!(ok.duration_ms, 42);

    let failed = tool_call_result(
        ToolCallOutcome::Completed {
            raw_response: "{}".to_string(),
            result_json: "[]".to_string(),
            is_error: true,
        },
        7,
    );
    assert!(!failed.success);
}

#[test]
fn failed_call_wraps_message() {
    let r = tool_call_result(ToolCallOutcome::Failed { message: "boom".to_string() }, 3);
    assert!(!r.success);
    assert_eq!(r.raw_response, "{\"error\": \"boom\"}");
    assert_eq!(r.error, Some("boom".to_string()));
    assert!(r.result.is_none());
}

#[test]
fn empty_schema_objects_are_dropped() {
    assert_eq!(schema_text_or_none("{}".to_string()), None);
    assert_eq!(
        schema_text_or_none("{\"type\": \"object\"}".to_string()),
        Some("{\"type\": \"object\"}".to_string()),
    );
    assert_eq!(schema_text_or_none("".to_string()), Some("".to_string()));
}

#[test]
fn tools_conversion_keeps_fields_and_mints_ids() {
    let infos = vec![tool("alpha"), tool("beta")];
    let tools = tools_from_infos("srv", &infos);
    assert_eq!(tools.len(), 2);
    assert_eq!(tools[0].name, "alpha");
    assert_eq!(tools[0].server_id, "srv");
    assert_eq!(tools[0].description, Some("alpha description".to_string()));
    assert_eq!(tools[0].input_schema, Some("{\"type\": \"object\"}".to_string()));
    assert!(tools[0].output_schema.is_none());
    assert!(tools[0].extra.is_none());
    assert_eq!(tools[0].id.len(), 36);
    assert_eq!(tools[1].id.len(), 36);
    assert_ne!(tools[0].id, tools[1].id);
}
