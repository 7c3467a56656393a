//! The heartbeat supervisor's policy: how the per-session health-check loop
//! counts failures, when it decides to tear the session down, and how the
//! tick interval is read from configuration.

use vstd::prelude::*;

use crate::DEFAULT_HEARTBEAT_INTERVAL_SECS;
use crate::strutil::all_digits;
use crate::strutil::contains_spec;
use crate::strutil::contains_substr;
use crate::strutil::dec_val;
use crate::strutil::parse_u64;

verus! {

/// What the supervisor does after one health-check attempt.
#[derive(Debug, Clone, Copy, PartialEq, Eq, Structural)]
pub enum HeartbeatDecision {
    Continue,
    Teardown,
}

/// One heartbeat supervisor's transient state: how many health checks in a
/// row have failed, and the threshold at which the session is torn down.
pub struct HeartbeatState {
    pub consecutive_failures: u32,
    pub failure_threshold: u32,
}

/// The decision after a health check: success continues and resets the
/// count; a failure tears down once the consecutive count reaches the
/// threshold, or at once when the transport is known closed.
pub open spec fn ping_decision(
    failures: u32,
    threshold: u32,
    ok: bool,
    transport_closed: bool,
) -> HeartbeatDecision {
    if ok {
        HeartbeatDecision::Continue
    } else if failures + 1 >= threshold || transport_closed {
        HeartbeatDecision::Teardown
    } else {
        HeartbeatDecision::Continue
    }
}

impl HeartbeatState {
    pub fn new(failure_threshold: u32) -> (r: HeartbeatState)
        requires
            failure_threshold >= 1,
        ensures
            r.consecutive_failures == 0,
            r.failure_threshold == failure_threshold,
    {
        HeartbeatState { consecutive_failures: 0, failure_threshold }
    }

    /// Counts one health-check outcome. Success resets the consecutive
    /// failure count to zero; a failure increments it, and the decision
    /// follows `ping_decision`.
    pub fn on_ping_result(&mut self, ok: bool, transport_closed: bool) -> (d: HeartbeatDecision)
        requires
            old(self).consecutive_failures < u32::MAX,
        ensures
            final(self).failure_threshold == old(self).failure_threshold,
            d == ping_decision(
                old(self).consecutive_failures,
                old(self).failure_threshold,
                ok,
                transport_closed,
            ),
            ok ==> final(self).consecutive_failures == 0,
            !ok ==> final(self).consecutive_failures == old(self).consecutive_failures + 1,
    {
        if ok {
            self.consecutive_failures = 0;
            HeartbeatDecision::Continue
        } else {
            self.consecutive_failures = self.consecutive_failures + 1;
            if self.consecutive_failures >= self.failure_threshold || transport_closed {
                HeartbeatDecision::Teardown
            } else {
                HeartbeatDecision::Continue
            }
        }
    }
}

/// With the failure threshold at its default of one, a single failed health
/// check already decides teardown, whatever the failure was.
pub proof fn lemma_first_failure_tears_down(failures: u32, transport_closed: bool)
    ensures
        ping_decision(failures, crate::HEARTBEAT_FAILURE_THRESHOLD, false, transport_closed)
            == HeartbeatDecision::Teardown,
{
}

/// A health-check error counts as a closed transport when its message names
/// a closed or reset connection.
pub open spec fn transport_closed_msg(m: Seq<char>) -> bool {
    contains_spec(m, "Transport closed"@) || contains_spec(m, "Connection reset"@)
}

pub fn is_transport_closed_msg(msg: &str) -> (r: bool)
    ensures
        r == transport_closed_msg(msg@),
{
    contains_substr(msg, "Transport closed") || contains_substr(msg, "Connection reset")
}

/// The interval a configured value denotes: the value itself when it is a
/// number the supervisor can use, the default on anything else.
pub open spec fn config_interval(s: Seq<char>) -> u64 {
    if s.len() > 0 && all_digits(s) && dec_val(s) <= u64::MAX {
        dec_val(s) as u64
    } else {
        DEFAULT_HEARTBEAT_INTERVAL_SECS
    }
}

/// Reads the heartbeat interval from an optional configuration value,
/// falling back to the default when the value is absent or malformed.
pub fn heartbeat_interval_secs(value: Option<&String>) -> (r: u64)
    ensures
        match value {
            Some(s) => r == config_interval(s@),
            None => r == DEFAULT_HEARTBEAT_INTERVAL_SECS,
        },
{
    match value {
        Some(s) => match parse_u64(s.as_str()) {
            Some(n) => n,
            None => DEFAULT_HEARTBEAT_INTERVAL_SECS,
        },
        None => DEFAULT_HEARTBEAT_INTERVAL_SECS,
    }
}

} // verus!
