//! Connection management for sessions with remote tool-providing servers.
//!
//! The crate keeps a registry of live sessions, models the two-phase
//! server-sent-events transport as an explicit state machine, supervises each
//! session with a heartbeat policy, and caches each session's tool list in
//! memory until the session is torn down.

pub mod config;
pub mod domain;
pub mod framing;
pub mod heartbeat;
pub mod httpmsg;
pub mod registry;
pub mod sse;
pub mod strutil;

use vstd::prelude::*;

verus! {

/// Time units a tool invocation may run before it is reported as timed out.
pub const TOOL_CALL_TIMEOUT_SECS: u64 = 30;

/// Default number of time units between two heartbeat health checks.
pub const DEFAULT_HEARTBEAT_INTERVAL_SECS: u64 = 10;

/// Consecutive heartbeat failures after which a session is torn down.
pub const HEARTBEAT_FAILURE_THRESHOLD: u32 = 1;

} // verus!
