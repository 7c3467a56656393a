use mcp_sessions::config::ConfigQueryHandler;
use mcp_sessions::config::ConfigStore;
use mcp_sessions::config::GetAllConfigQuery;
use mcp_sessions::config::GetConfigQuery;
use mcp_sessions::domain::CreateMcpServerCmd;
use mcp_sessions::domain::McpCallHistory;
use mcp_sessions::domain::McpServer;
use mcp_sessions::domain::McpServerStatus;
use mcp_sessions::domain::McpServerType;
use mcp_sessions::domain::UpdateMcpServerCmd;

#[test]
fn status_labels_are_lowercase() {
    assert_eq!(McpServerStatus::Connected.label(), "connected");
    assert_eq!(McpServerStatus::Disconnected.label(), "disconnected");
    assert_eq!(McpServerStatus::Connecting.label(), "connecting");
    assert_eq!(McpServerStatus::Error.label(), "error");
}

#[test]
fn status_parses_case_insensitively_with_disconnected_fallback() {
    assert_eq!(McpServerStatus::from("connected".to_string()), McpServerStatus::Connected);
    assert_eq!(McpServerStatus::from("CONNECTED".to_string()), McpServerStatus::Connected);
    assert_eq!(McpServerStatus::from("Connecting".to_string()), McpServerStatus::Connecting);
    assert_eq!(McpServerStatus::from("error".to_string()), McpServerStatus::Error);
    assert_eq!(McpServerStatus::from("gone".to_string()), McpServerStatus::Disconnected);
    assert_eq!(McpServerStatus::from("".to_string()), McpServerStatus::Disconnected);
    assert_eq!(McpServerStatus::default(), McpServerStatus::Disconnected);
}

#[test]
fn server_type_parses_with_sse_fallback() {
    assert_eq!(McpServerType::from("stdio".to_string()), McpServerType::Stdio);
    assert_eq!(
        McpServerType::from("streamable_http".to_string()),
        McpServerType::StreamableHttp,
    );
    assert_eq!(McpServerType::from("STDIO".to_string()), McpServerType::Stdio);
    assert_eq!(McpServerType::from("sse".to_string()), McpServerType::Sse);
    assert_eq!(McpServerType::from("anything".to_string()), McpServerType::Sse);
    assert_eq!(McpServerType::default(), McpServerType::Sse);
    assert_eq!(McpServerType::StreamableHttp.label(), "streamable_http");
}

#[test]
fn created_server_starts_disconnected_with_fresh_id() {
    let server = McpServer::from_create(CreateMcpServerCmd {
        name: "local".to_string(),
        url: "http://localhost:3000/sse".to_string(),
        server_type: McpServerType::Sse,
    });
    assert_eq!(server.id.len(), 36);
    assert_eq!(server.name, "local");
    assert_eq!(server.url, "http://localhost:3000/sse");
    assert_eq!(server.server_type, McpServerType::Sse);
    assert_eq!(server.status, McpServerStatus::Disconnected);
    assert!(server.last_error.is_none());
    assert_eq!(server.created_at, "");
    assert_eq!(server.updated_at, "");

    let other = McpServer::from_create(CreateMcpServerCmd {
        name: "local".to_string(),
        url: "http://localhost:3000/sse".to_string(),
        server_type: McpServerType::Sse,
    });
    assert_ne!(server.id, other.id);
}

#[test]
fn update_keeps_runtime_fields() {
    let existing = McpServer {
        id: "id-1".to_string(),
        name: "old".to_string(),
        url: "http://old/".to_string(),
        server_type: McpServerType::Sse,
        status: McpServerStatus::Connected,
        last_error: Some("previous".to_string()),
        created_at: "2024-01-01".to_string(),
        updated_at: "2024-01-02".to_string(),
    };
    let updated = McpServer::apply_update(
        existing,
        UpdateMcpServerCmd {
            id: "id-1".to_string(),
            name: "new".to_string(),
            url: "http://new/".to_string(),
            server_type: McpServerType::StreamableHttp,
        },
    );
    assert_eq!(updated.id, "id-1");
    assert_eq!(updated.name, "new");
    assert_eq!(updated.url, "http://new/");
    assert_eq!(updated.server_type, McpServerType::StreamableHttp);
    assert_eq!(updated.status, McpServerStatus::Connected);
    assert_eq!(updated.last_error, Some("previous".to_string()));
    assert_eq!(updated.created_at, "2024-01-01");
    assert_eq!(updated.updated_at, "");
}

#[test]
fn runtime_status_overlay() {
    let server = McpServer::from_create(CreateMcpServerCmd {
        name: "n".to_string(),
        url: "u".to_string(),
        server_type: McpServerType::Sse,
    });
    let name = server.name.clone();
    let connected = server.with_runtime_status(true);
    assert_eq!(connected.status, McpServerStatus::Connected);
    assert_eq!(connected.name, name);
    let disconnected = connected.with_runtime_status(false);
    assert_eq!(disconnected.status, McpServerStatus::Disconnected);
}

#[test]
fn call_history_entries() {
    let ok = McpCallHistory::for_success(
        "srv".to_string(),
        "echo".to_string(),
        Some("{\"x\": 1}".to_string()),
        "{\"content\": []}".to_string(),
        12,
    );
    assert_eq!(ok.id.len(), 36);
    assert_eq!(ok.server_id, "srv");
    assert_eq!(ok.tool_name, "echo");
    assert_eq!(ok.status, "success");
    assert_eq!(ok.output_result, Some("{\"content\": []}".to_string()));
    assert!(ok.error_message.is_none());
    assert_eq!(ok.duration_ms, Some(12));

    let err = McpCallHistory::for_error(
        "srv".to_string(),
        "echo".to_string(),
        None,
        "Not connected to server".to_string(),
        3,
    );
    assert_eq!(err.status, "error");
    assert!(err.output_result.is_none());
    assert_eq!(err.error_message, Some("Not connected to server".to_string()));
}

#[test]
fn config_store_and_query_handler() {
    let mut store = ConfigStore::new();
    assert!(store.get("heartbeat_interval").is_none());
    store.set("heartbeat_interval".to_string(), "30".to_string());
    store.set("theme".to_string(), "dark".to_string());
    store.set("heartbeat_interval".to_string(), "15".to_string());
    assert_eq!(store.get("heartbeat_interval"), Some(&"15".to_string()));
    assert_eq!(store.get("theme"), Some(&"dark".to_string()));

    let handler = ConfigQueryHandler::new(store);
    let found = handler.handle(GetConfigQuery { key: "theme".to_string() });
    assert_eq!(found, Ok(Some("dark".to_string())));
    let missing = handler.handle(GetConfigQuery { key: "absent".to_string() });
    assert_eq!(missing, Ok(None));

    let mut all = handler.handle_all(GetAllConfigQuery).unwrap();
    all.sort();
    assert_eq!(
        all,
        vec![
            ("heartbeat_interval".to_string(), "15".to_string()),
            ("theme".to_string(), "dark".to_string()),
        ],
    );
}
