use mcp_sessions::heartbeat::HeartbeatDecision;
use mcp_sessions::heartbeat::HeartbeatState;
use mcp_sessions::heartbeat::heartbeat_interval_secs;
use mcp_sessions::heartbeat::is_transport_closed_msg;
use mcp_sessions::DEFAULT_HEARTBEAT_INTERVAL_SECS;
use mcp_sessions::HEARTBEAT_FAILURE_THRESHOLD;

#[test]
fn first_failure_tears_down_at_default_threshold() {
    let mut hb = HeartbeatState::new(HEARTBEAT_FAILURE_THRESHOLD);
    let d = hb.on_ping_result(false, false);
    assert_eq!(d, HeartbeatDecision::Teardown);
    assert_eq!(hb.consecutive_failures, 1);
}

#[test]
fn success_resets_failure_counter() {
    let mut hb = HeartbeatState::new(3);
    assert_eq!(hb.on_ping_result(false, false), HeartbeatDecision::Continue);
    assert_eq!(hb.on_ping_result(false, false), HeartbeatDecision::Continue);
    assert_eq!(hb.consecutive_failures, 2);
    assert_eq!(hb.on_ping_result(true, false), HeartbeatDecision::Continue);
    assert_eq!(hb.consecutive_failures, 0);
    assert_eq!(hb.on_ping_result(false, false), HeartbeatDecision::Continue);
    assert_eq!(hb.on_ping_result(false, false), HeartbeatDecision::Continue);
    assert_eq!(hb.on_ping_result(false, false), HeartbeatDecision::Teardown);
}

#[test]
fn closed_transport_tears_down_before_threshold() {
    let mut hb = HeartbeatState::new(5);
    assert_eq!(hb.on_ping_result(false, true), HeartbeatDecision::Teardown);
}

#[test]
fn transport_closed_classification() {
    assert!(is_transport_closed_msg("io error: Transport closed by peer"));
    assert!(is_transport_closed_msg("Connection reset"));
    assert!(is_transport_closed_msg("xx Connection reset by peer yy"));
    assert!(!is_transport_closed_msg("request timed out"));
    assert!(!is_transport_closed_msg(""));
    assert!(!is_transport_closed_msg("transport closed"));
}

#[test]
fn heartbeat_interval_parses_or_falls_back() {
    assert_eq!(heartbeat_interval_secs(None), DEFAULT_HEARTBEAT_INTERVAL_SECS);
    assert_eq!(heartbeat_interval_secs(Some(&"7".to_string())), 7);
    assert_eq!(heartbeat_interval_secs(Some(&"0".to_string())), 0);
    assert_eq!(heartbeat_interval_secs(Some(&"abc".to_string())), 10);
    assert_eq!(heartbeat_interval_secs(Some(&"".to_string())), 10);
    assert_eq!(heartbeat_interval_secs(Some(&"12x".to_string())), 10);
    assert_eq!(heartbeat_interval_secs(Some(&"-5".to_string())), 10);
    assert_eq!(
        heartbeat_interval_secs(Some(&"18446744073709551615".to_string())),
        u64::MAX,
    );
    assert_eq!(heartbeat_interval_secs(Some(&"18446744073709551616".to_string())), 10);
}
