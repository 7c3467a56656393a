//! Domain model: server, tool, call-history and webhook-message entities,
//! the commands and queries operating on them, and the repository interfaces
//! that a persistence layer implements.

use vstd::prelude::*;
use vstd::string::StringExecFns;

use crate::strutil::lower_seq;
use crate::strutil::eq_ignore_case;

verus! {

/// Application-level error, surfaced to callers as a typed result.
#[derive(Debug, Clone, PartialEq, Eq)]
pub enum AppError {
    Domain(String),
    Io(String),
    NotFound(String),
    Database(String),
    Unknown(String),
}

/// Connection status of a server, as shown to callers.
#[derive(Debug, Clone, PartialEq, Eq, Structural)]
pub enum McpServerStatus {
    Connected,
    Disconnected,
    Connecting,
    Error,
}

/// Which wire transport a server speaks.
#[derive(Debug, Clone, PartialEq, Eq, Structural)]
pub enum McpServerType {
    Sse,
    Stdio,
    StreamableHttp,
}

impl Default for McpServerStatus {
    fn default() -> (r: Self)
        ensures
            r == McpServerStatus::Disconnected,
    {
        McpServerStatus::Disconnected
    }
}

impl Default for McpServerType {
    fn default() -> (r: Self)
        ensures
            r == McpServerType::Sse,
    {
        McpServerType::Sse
    }
}

/// The status denoted by `s`, matched case-insensitively; anything
/// unrecognised counts as disconnected.
pub open spec fn status_of_str(s: Seq<char>) -> McpServerStatus {
    if lower_seq(s) == lower_seq("connected"@) {
        McpServerStatus::Connected
    } else if lower_seq(s) == lower_seq("connecting"@) {
        McpServerStatus::Connecting
    } else if lower_seq(s) == lower_seq("error"@) {
        McpServerStatus::Error
    } else {
        McpServerStatus::Disconnected
    }
}

/// The transport type denoted by `s`, matched case-insensitively; anything
/// unrecognised counts as the SSE transport.
pub open spec fn server_type_of_str(s: Seq<char>) -> McpServerType {
    if lower_seq(s) == lower_seq("stdio"@) {
        McpServerType::Stdio
    } else if lower_seq(s) == lower_seq("streamable_http"@) {
        McpServerType::StreamableHttp
    } else {
        McpServerType::Sse
    }
}

impl McpServerStatus {
    /// The lowercase wire label of this status.
    pub fn label(&self) -> (r: String)
        ensures
            self is Connected ==> r@ == "connected"@,
            self is Disconnected ==> r@ == "disconnected"@,
            self is Connecting ==> r@ == "connecting"@,
            self is Error ==> r@ == "error"@,
    {
        match self {
            McpServerStatus::Connected => String::from_str("connected"),
            McpServerStatus::Disconnected => String::from_str("disconnected"),
            McpServerStatus::Connecting => String::from_str("connecting"),
            McpServerStatus::Error => String::from_str("error"),
        }
    }
}

impl From<String> for McpServerStatus {
    fn from(s: String) -> (r: Self)
        ensures
            r == status_of_str(s@),
    {
        if eq_ignore_case(s.as_str(), "connected") {
            McpServerStatus::Connected
        } else if eq_ignore_case(s.as_str(), "connecting") {
            McpServerStatus::Connecting
        } else if eq_ignore_case(s.as_str(), "error") {
            McpServerStatus::Error
        } else {
            McpServerStatus::Disconnected
        }
    }
}

impl vstd::std_specs::convert::FromSpecImpl<String> for McpServerStatus {
    open spec fn obeys_from_spec() -> bool {
        true
    }

    open spec fn from_spec(s: String) -> Self {
        status_of_str(s@)
    }
}

impl McpServerType {
    /// The lowercase wire label of this transport type.
    pub fn label(&self) -> (r: String)
        ensures
            self is Sse ==> r@ == "sse"@,
            self is Stdio ==> r@ == "stdio"@,
            self is StreamableHttp ==> r@ == "streamable_http"@,
    {
        match self {
            McpServerType::Sse => String::from_str("sse"),
            McpServerType::Stdio => String::from_str("stdio"),
            McpServerType::StreamableHttp => String::from_str("streamable_http"),
        }
    }
}

impl From<String> for McpServerType {
    fn from(s: String) -> (r: Self)
        ensures
            r == server_type_of_str(s@),
    {
        if eq_ignore_case(s.as_str(), "stdio") {
            McpServerType::Stdio
        } else if eq_ignore_case(s.as_str(), "streamable_http") {
            McpServerType::StreamableHttp
        } else {
            McpServerType::Sse
        }
    }
}

impl vstd::std_specs::convert::FromSpecImpl<String> for McpServerType {
    open spec fn obeys_from_spec() -> bool {
        true
    }

    open spec fn from_spec(s: String) -> Self {
        server_type_of_str(s@)
    }
}

/// A configured server.
#[derive(Debug, Clone)]
pub struct McpServer {
    pub id: String,
    pub name: String,
    pub url: String,
    pub server_type: McpServerType,
    pub status: McpServerStatus,
    pub last_error: Option<String>,
    pub created_at: String,
    pub updated_at: String,
}

/// A tool exposed by a connected server, as handed to the UI layer.
#[derive(Debug, Clone)]
pub struct McpTool {
    pub id: String,
    pub server_id: String,
    pub name: String,
    pub description: Option<String>,
    pub input_schema: Option<String>,
    pub output_schema: Option<String>,
    pub extra: Option<String>,
    pub created_at: String,
}

/// One recorded tool invocation.
#[derive(Debug, Clone)]
pub struct McpCallHistory {
    pub id: String,
    pub server_id: String,
    pub tool_name: String,
    pub input_params: Option<String>,
    pub output_result: Option<String>,
    pub status: String,
    pub error_message: Option<String>,
    pub duration_ms: Option<i64>,
    pub created_at: String,
}

/// One message accepted by the ingestion endpoint.
#[derive(Debug, Clone)]
pub struct HttpReceivedMessage {
    pub id: String,
    pub request_id: String,
    pub content_type: Option<String>,
    pub file_name: Option<String>,
    pub file_path: Option<String>,
    pub file_size: Option<i64>,
    pub raw_data: Option<String>,
    pub created_at: String,
}

/// Relies on uuid::Uuid::new_v4 and its display form: a fresh random
/// identifier, rendered as the 36-character hyphenated UUID string. Nothing
/// more is promised of a random value.
#[verifier::external_body]
pub(crate) fn fresh_uuid_string() -> (r: String)
    ensures
        r@.len() == 36,
{
    uuid::Uuid::new_v4().to_string()
}

impl McpServer {
    /// A freshly created server record: disconnected, without error, with
    /// timestamps left empty for the store to fill in.
    pub fn from_create(cmd: CreateMcpServerCmd) -> (r: McpServer)
        ensures
            r.id@.len() == 36,
            r.name == cmd.name,
            r.url == cmd.url,
            r.server_type == cmd.server_type,
            r.status == McpServerStatus::Disconnected,
            r.last_error is None,
            r.created_at@ == Seq::<char>::empty(),
            r.updated_at@ == Seq::<char>::empty(),
    {
        McpServer {
            id: fresh_uuid_string(),
            name: cmd.name,
            url: cmd.url,
            server_type: cmd.server_type,
            status: McpServerStatus::Disconnected,
            last_error: None,
            created_at: String::new(),
            updated_at: String::new(),
        }
    }

    /// The update of an existing record: identity and configuration come
    /// from the command, runtime fields are carried over unchanged.
    pub fn apply_update(existing: McpServer, cmd: UpdateMcpServerCmd) -> (r: McpServer)
        ensures
            r.id == cmd.id,
            r.name == cmd.name,
            r.url == cmd.url,
            r.server_type == cmd.server_type,
            r.status == existing.status,
            r.last_error == existing.last_error,
            r.created_at == existing.created_at,
            r.updated_at@ == Seq::<char>::empty(),
    {
        McpServer {
            id: cmd.id,
            name: cmd.name,
            url: cmd.url,
            server_type: cmd.server_type,
            status: existing.status,
            last_error: existing.last_error,
            created_at: existing.created_at,
            updated_at: String::new(),
        }
    }

    /// The record with its status overlaid from the live registry: stored
    /// status is never trusted over the runtime connection state.
    pub fn with_runtime_status(self, connected: bool) -> (r: McpServer)
        ensures
            r.status == (if connected {
                McpServerStatus::Connected
            } else {
                McpServerStatus::Disconnected
            }),
            r.id == self.id,
            r.name == self.name,
            r.url == self.url,
            r.server_type == self.server_type,
            r.last_error == self.last_error,
            r.created_at == self.created_at,
            r.updated_at == self.updated_at,
    {
        McpServer {
            status: if connected {
                McpServerStatus::Connected
            } else {
                McpServerStatus::Disconnected
            },
            ..self
        }
    }
}

impl McpCallHistory {
    /// The history entry recorded for a call that produced a result.
    pub fn for_success(
        server_id: String,
        tool_name: String,
        input_params: Option<String>,
        raw_response: String,
        duration_ms: i64,
    ) -> (r: McpCallHistory)
        ensures
            r.id@.len() == 36,
            r.server_id == server_id,
            r.tool_name == tool_name,
            r.input_params == input_params,
            r.output_result == Some(raw_response),
            r.status@ == "success"@,
            r.error_message is None,
            r.duration_ms == Some(duration_ms),
            r.created_at@ == Seq::<char>::empty(),
    {
        McpCallHistory {
            id: fresh_uuid_string(),
            server_id,
            tool_name,
            input_params,
            output_result: Some(raw_response),
            status: String::from_str("success"),
            error_message: None,
            duration_ms: Some(duration_ms),
            created_at: String::new(),
        }
    }

    /// The history entry recorded for a call that failed outright.
    pub fn for_error(
        server_id: String,
        tool_name: String,
        input_params: Option<String>,
        error_message: String,
        duration_ms: i64,
    ) -> (r: McpCallHistory)
        ensures
            r.id@.len() == 36,
            r.server_id == server_id,
            r.tool_name == tool_name,
            r.input_params == input_params,
            r.output_result is None,
            r.status@ == "error"@,
            r.error_message == Some(error_message),
            r.duration_ms == Some(duration_ms),
            r.created_at@ == Seq::<char>::empty(),
    {
        McpCallHistory {
            id: fresh_uuid_string(),
            server_id,
            tool_name,
            input_params,
            output_result: None,
            status: String::from_str("error"),
            error_message: Some(error_message),
            duration_ms: Some(duration_ms),
            created_at: String::new(),
        }
    }
}

// ============ Commands ============
#[derive(Debug)]
pub struct CreateMcpServerCmd {
    pub name: String,
    pub url: String,
    pub server_type: McpServerType,
}

#[derive(Debug)]
pub struct UpdateMcpServerCmd {
    pub id: String,
    pub name: String,
    pub url: String,
    pub server_type: McpServerType,
}

#[derive(Debug)]
pub struct DeleteMcpServerCmd {
    pub id: String,
}

#[derive(Debug)]
pub struct ConnectMcpServerCmd {
    pub id: String,
}

#[derive(Debug)]
pub struct DisconnectMcpServerCmd {
    pub id: String,
}

#[derive(Debug)]
pub struct MarkMcpServerDisconnectedCmd {
    pub id: String,
    pub error: Option<String>,
}

/// Parameters are carried as JSON text; the transport layer forwards them
/// without interpreting them.
#[derive(Debug)]
pub struct CallMcpToolCmd {
    pub server_id: String,
    pub tool_name: String,
    pub params: Option<String>,
}

#[derive(Debug)]
pub struct RefreshMcpToolsCmd {
    pub server_id: String,
}

#[derive(Debug)]
pub struct SaveHttpReceivedMessageCmd {
    pub request_id: String,
    pub content_type: Option<String>,
    pub file_name: Option<String>,
    pub file_path: Option<String>,
    pub file_size: Option<i64>,
    pub raw_data: Option<String>,
}

#[derive(Debug)]
pub struct DeleteHttpReceivedMessageCmd {
    pub id: String,
}

// ============ Queries ============
#[derive(Debug)]
pub struct ListMcpServersQuery;

#[derive(Debug)]
pub struct GetMcpServerQuery {
    pub id: String,
}

#[derive(Debug)]
pub struct GetMcpToolsQuery {
    pub server_id: String,
}

#[derive(Debug)]
pub struct GetMcpCallHistoryQuery {
    pub server_id: Option<String>,
    pub limit: Option<i64>,
}

#[derive(Debug)]
pub struct ListHttpReceivedMessagesQuery {
    pub limit: Option<i64>,
}

// ============ Result types ============
/// Result of one tool invocation. The raw response and the decoded result
/// are carried as JSON text; `duration_ms` is reported for every outcome.
#[derive(Debug, Clone)]
pub struct McpToolCallResult {
    pub success: bool,
    pub raw_response: String,
    pub result: Option<String>,
    pub error: Option<String>,
    pub duration_ms: i64,
}

/// Result of listing tools, converted for the UI layer.
#[derive(Debug, Clone)]
pub struct McpToolsListResult {
    pub tools: Vec<McpTool>,
    pub raw_response: String,
}

// ============ Repository interfaces ============
pub trait IMcpServerRepository {
    fn create(&mut self, server: McpServer) -> Result<McpServer, AppError>;

    fn update(&mut self, server: McpServer) -> Result<McpServer, AppError>;

    fn delete(&mut self, id: &str) -> Result<(), AppError>;

    fn find_by_id(&self, id: &str) -> Result<Option<McpServer>, AppError>;

    fn list(&self) -> Result<Vec<McpServer>, AppError>;
}

pub trait IMcpCallHistoryRepository {
    fn create(&mut self, history: McpCallHistory) -> Result<McpCallHistory, AppError>;

    fn list(&self, server_id: Option<&str>, limit: Option<i64>) -> Result<
        Vec<McpCallHistory>,
        AppError,
    >;

    fn clear(&mut self, server_id: Option<&str>) -> Result<(), AppError>;
}

pub trait IHttpReceivedMessageRepository {
    fn create(&mut self, message: HttpReceivedMessage) -> Result<HttpReceivedMessage, AppError>;

    fn list(&self, limit: Option<i64>) -> Result<Vec<HttpReceivedMessage>, AppError>;

    fn delete(&mut self, id: &str) -> Result<(), AppError>;

    fn clear(&mut self) -> Result<(), AppError>;
}

} // verus!
