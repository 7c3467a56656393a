//! The two-phase state machine of the legacy SSE transport worker.
//!
//! The worker first negotiates a POST endpoint (`AwaitingEndpoint`): the only
//! event accepted there is an `endpoint` event whose payload names the URL,
//! absolute or resolved against the connection's origin. Only then does it
//! relay traffic (`Streaming`): `endpoint` events rotate the POST URL,
//! `message` events carry JSON payloads for the handler, and a malformed
//! payload is dropped without ending the session. Termination from any phase
//! emits at most one disconnect notification, guarded by a one-shot latch.

use vstd::prelude::*;
use vstd::string::StringExecFns;

use crate::strutil::is_origin_of;
use crate::strutil::resolve_spec;
use crate::strutil::str_eq;
use crate::strutil::trim_spec;
use crate::strutil::base_origin;
use crate::strutil::resolve_endpoint;
use crate::strutil::trim_ascii_ws;

verus! {

/// Whether serde_json accepts the text as a JSON document; a function of the
/// text alone.
pub uninterp spec fn json_accepts(s: Seq<char>) -> bool;

/// Relies on serde_json::from_str::<serde_json::Value>: the outcome depends
/// only on the text, and names whether it is an accepted JSON document.
#[verifier::external_body]
fn json_syntax_ok(s: &str) -> (r: bool)
    ensures
        r == json_accepts(s@),
{
    serde_json::from_str::<serde_json::Value>(s).is_ok()
}

/// The errors a transport worker can end with.
#[derive(Debug, Clone, PartialEq, Eq)]
pub enum SseTransportError {
    /// The connection failed or the server answered outside the protocol.
    Connection(String),
    /// The channel to the handler closed.
    Closed,
    /// The worker task could not be joined.
    Join(String),
}

impl SseTransportError {
    /// The error rendered for logs and notifications.
    pub fn message(&self) -> (r: String)
        ensures
            match self {
                SseTransportError::Connection(m) => r@ == "Connection error: "@ + m@,
                SseTransportError::Closed => r@ == "Channel closed"@,
                SseTransportError::Join(m) => r@ == "Join error: "@ + m@,
            },
    {
        match self {
            SseTransportError::Connection(m) => String::from_str("Connection error: ").concat(
                m.as_str(),
            ),
            SseTransportError::Closed => String::from_str("Channel closed"),
            SseTransportError::Join(m) => String::from_str("Join error: ").concat(m.as_str()),
        }
    }
}

/// The phases of the worker's run loop.
#[derive(Debug, Clone, Copy, PartialEq, Eq, Structural)]
pub enum SsePhase {
    AwaitingEndpoint,
    Streaming,
    Terminated,
}

/// Why a worker's run loop ended.
#[derive(Debug, Clone, Copy, PartialEq, Eq, Structural)]
pub enum TerminationReason {
    Cancelled,
    TransportClosed,
    Fatal,
}

/// What one decoded stream event does to the machine: the next phase, the
/// next POST URL, and the payload delivered to the handler, if any.
pub open spec fn event_transition(
    phase: SsePhase,
    post_url: Option<Seq<char>>,
    base: Seq<char>,
    name: Seq<char>,
    data: Seq<char>,
) -> (SsePhase, Option<Seq<char>>, Option<Seq<char>>) {
    match phase {
        SsePhase::AwaitingEndpoint => if name == "endpoint"@ {
            (SsePhase::Streaming, Some(resolve_spec(base, trim_spec(data))), None)
        } else {
            (SsePhase::AwaitingEndpoint, post_url, None)
        },
        SsePhase::Streaming => if name == "endpoint"@ {
            (SsePhase::Streaming, Some(trim_spec(data)), None)
        } else if name == "message"@ && json_accepts(data) {
            (SsePhase::Streaming, post_url, Some(data))
        } else {
            (SsePhase::Streaming, post_url, None)
        },
        SsePhase::Terminated => (SsePhase::Terminated, post_url, None),
    }
}

/// The state a transport worker carries between suspension points of its
/// I/O loop. The loop owns the sockets; every decision is made here.
pub struct SseMachine {
    base_url: String,
    post_url: Option<String>,
    phase: SsePhase,
    termination: Option<TerminationReason>,
    notified: bool,
}

impl SseMachine {
    /// The connection's origin, against which relative endpoints resolve.
    pub closed spec fn base(&self) -> Seq<char> {
        self.base_url@
    }

    /// The negotiated POST URL, if the handshake has completed.
    pub closed spec fn post(&self) -> Option<Seq<char>> {
        match self.post_url {
            Some(u) => Some(u@),
            None => None,
        }
    }

    pub closed spec fn phase(&self) -> SsePhase {
        self.phase
    }

    pub closed spec fn termination(&self) -> Option<TerminationReason> {
        self.termination
    }

    /// Whether the one disconnect notification has been claimed.
    pub closed spec fn notified(&self) -> bool {
        self.notified
    }

    /// In the streaming phase a POST URL is always known; a termination
    /// reason exists exactly in the terminated phase; and the notification
    /// latch can only be claimed by terminating.
    pub open spec fn wf(&self) -> bool {
        &&& self.phase() is Streaming ==> self.post() is Some
        &&& (self.phase() is Terminated <==> self.termination() is Some)
        &&& !(self.phase() is Terminated) ==> !self.notified()
    }

    /// A fresh machine for a worker about to open `url`.
    pub fn new(url: &str) -> (r: SseMachine)
        ensures
            r.wf(),
            r.phase() is AwaitingEndpoint,
            r.post() is None,
            r.termination() is None,
            !r.notified(),
            is_origin_of(url@, r.base()),
    {
        SseMachine {
            base_url: base_origin(url),
            post_url: None,
            phase: SsePhase::AwaitingEndpoint,
            termination: None,
            notified: false,
        }
    }

    pub fn current_phase(&self) -> (r: SsePhase)
        ensures
            r == self.phase(),
    {
        self.phase
    }

    pub fn current_termination(&self) -> (r: Option<TerminationReason>)
        ensures
            r == self.termination(),
    {
        self.termination
    }

    pub fn has_notified(&self) -> (r: bool)
        ensures
            r == self.notified(),
    {
        self.notified
    }

    /// The URL to POST outbound messages to, once negotiated.
    pub fn post_target(&self) -> (r: Option<String>)
        ensures
            match r {
                Some(u) => self.post() == Some(u@),
                None => self.post() is None,
            },
    {
        match &self.post_url {
            Some(u) => Some(u.clone()),
            None => None,
        }
    }

    /// Checks the status of the initial GET response. Anything but a 2xx
    /// status ends the handshake fatally, with the one notification.
    pub fn on_initial_response(&mut self, status: u16) -> (r: Option<String>)
        requires
            old(self).wf(),
            old(self).phase() is AwaitingEndpoint,
        ensures
            final(self).wf(),
            final(self).base() == old(self).base(),
            200 <= status < 300 ==> *final(self) == *old(self) && r is None,
            !(200 <= status < 300) ==> final(self).phase() is Terminated
                && final(self).termination() == Some(TerminationReason::Fatal)
                && final(self).notified()
                && match r {
                    Some(m) => m@ == "sse_initial_response_error"@,
                    None => false,
                },
    {
        if 200 <= status && status < 300 {
            None
        } else {
            self.phase = SsePhase::Terminated;
            self.termination = Some(TerminationReason::Fatal);
            self.notified = true;
            Some(String::from_str("sse_initial_response_error"))
        }
    }

    /// Feeds one decoded server-sent event to the machine, following
    /// `event_transition`. In the handshake phase only an `endpoint` event is
    /// meaningful; in the streaming phase an `endpoint` event rotates the
    /// POST URL and a well-formed `message` payload is returned for
    /// delivery, while a malformed one is dropped without ending the
    /// session.
    pub fn on_event(&mut self, name: &str, data: &str) -> (r: Option<String>)
        requires
            old(self).wf(),
            !(old(self).phase() is Terminated),
        ensures
            final(self).wf(),
            final(self).base() == old(self).base(),
            final(self).notified() == old(self).notified(),
            final(self).termination() == old(self).termination(),
            ({
                let (p2, u2, d2) = event_transition(
                    old(self).phase(),
                    old(self).post(),
                    old(self).base(),
                    name@,
                    data@,
                );
                final(self).phase() == p2 && final(self).post() == u2 && match r {
                    Some(m) => d2 == Some(m@),
                    None => d2 is None,
                }
            }),
    {
        match self.phase {
            SsePhase::AwaitingEndpoint => {
                if str_eq(name, "endpoint") {
                    let trimmed = trim_ascii_ws(data);
                    let full = resolve_endpoint(self.base_url.as_str(), trimmed.as_str());
                    self.post_url = Some(full);
                    self.phase = SsePhase::Streaming;
                }
                None
            },
            SsePhase::Streaming => {
                if str_eq(name, "endpoint") {
                    self.post_url = Some(trim_ascii_ws(data));
                    None
                } else if str_eq(name, "message") {
                    proof {
                        assert(name@ != "endpoint"@) by {
                            reveal_strlit("message");
                            reveal_strlit("endpoint");
                            assert("message"@.len() == 7);
                            assert("endpoint"@.len() == 8);
                        }
                    }
                    if json_syntax_ok(data) {
                        Some(data.to_owned())
                    } else {
                        None
                    }
                } else {
                    None
                }
            },
            SsePhase::Terminated => None,
        }
    }

    /// A stream error is fatal in either phase; the notification reason says
    /// whether the endpoint had been negotiated yet.
    pub fn on_stream_error(&mut self) -> (r: Option<String>)
        requires
            old(self).wf(),
            !(old(self).phase() is Terminated),
        ensures
            final(self).wf(),
            final(self).base() == old(self).base(),
            final(self).post() == old(self).post(),
            final(self).phase() is Terminated,
            final(self).termination() == Some(TerminationReason::Fatal),
            final(self).notified(),
            match r {
                Some(m) => (old(self).phase() is AwaitingEndpoint ==> m@
                    == "sse_stream_error_before_endpoint"@) && (old(self).phase() is Streaming
                    ==> m@ == "sse_stream_error"@),
                None => false,
            },
    {
        let reason = match self.phase {
            SsePhase::AwaitingEndpoint => String::from_str("sse_stream_error_before_endpoint"),
            _ => String::from_str("sse_stream_error"),
        };
        self.phase = SsePhase::Terminated;
        self.termination = Some(TerminationReason::Fatal);
        self.notified = true;
        Some(reason)
    }

    /// Stream closure before the endpoint event is fatal; afterwards it is
    /// an orderly transport close. Either way the session is over and the
    /// one notification is emitted.
    pub fn on_stream_closed(&mut self) -> (r: Option<String>)
        requires
            old(self).wf(),
            !(old(self).phase() is Terminated),
        ensures
            final(self).wf(),
            final(self).base() == old(self).base(),
            final(self).post() == old(self).post(),
            final(self).phase() is Terminated,
            final(self).notified(),
            old(self).phase() is AwaitingEndpoint ==> final(self).termination() == Some(
                TerminationReason::Fatal,
            ) && match r {
                Some(m) => m@ == "sse_stream_closed_before_endpoint"@,
                None => false,
            },
            old(self).phase() is Streaming ==> final(self).termination() == Some(
                TerminationReason::TransportClosed,
            ) && match r {
                Some(m) => m@ == "sse_stream_closed"@,
                None => false,
            },
    {
        let r = match self.phase {
            SsePhase::AwaitingEndpoint => {
                self.termination = Some(TerminationReason::Fatal);
                String::from_str("sse_stream_closed_before_endpoint")
            },
            _ => {
                self.termination = Some(TerminationReason::TransportClosed);
                String::from_str("sse_stream_closed")
            },
        };
        self.phase = SsePhase::Terminated;
        self.notified = true;
        Some(r)
    }

    /// An external cancellation wins over any pending work and ends the loop
    /// quietly: cancellation is driven by an explicit disconnect, which does
    /// its own teardown, so no notification is emitted here.
    pub fn on_cancelled(&mut self)
        requires
            old(self).wf(),
            !(old(self).phase() is Terminated),
        ensures
            final(self).wf(),
            final(self).base() == old(self).base(),
            final(self).post() == old(self).post(),
            final(self).phase() is Terminated,
            final(self).termination() == Some(TerminationReason::Cancelled),
            final(self).notified() == old(self).notified(),
    {
        self.phase = SsePhase::Terminated;
        self.termination = Some(TerminationReason::Cancelled);
    }

    /// Reports how POSTing one outbound message went. A failed send is
    /// fatal: there is no retry policy, since a silent partial delivery
    /// would corrupt protocol ordering.
    pub fn on_send_result(&mut self, ok: bool) -> (r: Option<String>)
        requires
            old(self).wf(),
            old(self).phase() is Streaming,
        ensures
            final(self).wf(),
            final(self).base() == old(self).base(),
            final(self).post() == old(self).post(),
            ok ==> *final(self) == *old(self) && r is None,
            !ok ==> final(self).phase() is Terminated && final(self).termination() == Some(
                TerminationReason::Fatal,
            ) && final(self).notified() && match r {
                Some(m) => m@ == "post_send_error"@,
                None => false,
            },
    {
        if ok {
            None
        } else {
            self.phase = SsePhase::Terminated;
            self.termination = Some(TerminationReason::Fatal);
            self.notified = true;
            Some(String::from_str("post_send_error"))
        }
    }
}

/// One malformed `message` payload in the streaming phase is dropped without
/// leaving the phase or touching the POST URL, and a well-formed payload
/// that follows is still delivered to the handler.
pub proof fn lemma_bad_frame_keeps_session(
    post_url: Option<Seq<char>>,
    base: Seq<char>,
    bad: Seq<char>,
    good: Seq<char>,
)
    requires
        !json_accepts(bad),
        json_accepts(good),
    ensures
        ({
            let (p1, u1, d1) = event_transition(SsePhase::Streaming, post_url, base, "message"@, bad);
            let (p2, u2, d2) = event_transition(p1, u1, base, "message"@, good);
            d1 is None && p1 is Streaming && u1 == post_url && d2 == Some(good)
        }),
{
    assert("message"@ != "endpoint"@) by {
        reveal_strlit("message");
        reveal_strlit("endpoint");
        assert("message"@.len() == 7);
        assert("endpoint"@.len() == 8);
    }
}

} // verus!
