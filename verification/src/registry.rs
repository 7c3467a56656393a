//! The connection registry: the single source of truth for which sessions
//! are live, together with the in-memory tool cache and the shared teardown
//! path that emits exactly one disconnect notification per real transition
//! from connected to disconnected.

use vstd::prelude::*;
use vstd::string::StringExecFns;

use crate::domain::McpToolCallResult;

verus! {

/// Error taxonomy for session operations.
#[derive(Debug, Clone, PartialEq, Eq)]
pub enum SessionError {
    AlreadyConnected,
    NotConnected,
    UnsupportedTransport,
    HandshakeFailed(String),
    TransportError(String),
    Timeout,
    ParseError(String),
}

/// The closed set of wire transports a session can use.
#[derive(Debug, Clone, Copy, PartialEq, Eq, Structural)]
pub enum TransportKind {
    StreamableHttp,
    Sse,
}

/// Dispatch on the transport tag supplied at connect time. The tags are
/// case-sensitive; anything else is a request-time error.
pub fn parse_transport_kind(tag: &str) -> (r: Result<TransportKind, SessionError>)
    ensures
        tag@ == "streamable_http"@ ==> r == Ok::<TransportKind, SessionError>(
            TransportKind::StreamableHttp,
        ),
        tag@ == "sse"@ ==> r == Ok::<TransportKind, SessionError>(TransportKind::Sse),
        tag@ != "streamable_http"@ && tag@ != "sse"@ ==> r == Err::<
            TransportKind,
            SessionError,
        >(SessionError::UnsupportedTransport),
{
    proof {
        reveal_strlit("streamable_http");
        reveal_strlit("sse");
    }
    if crate::strutil::str_eq(tag, "streamable_http") {
        proof {
            assert(tag@ != "sse"@) by {
                assert("streamable_http"@.len() == 15);
                assert("sse"@.len() == 3);
            }
        }
        Ok(TransportKind::StreamableHttp)
    } else if crate::strutil::str_eq(tag, "sse") {
        Ok(TransportKind::Sse)
    } else {
        Err(SessionError::UnsupportedTransport)
    }
}

/// One live session: the handles under which the owning runtime keeps the
/// session's transport and its heartbeat cancellation signal.
#[derive(Debug, Clone, Copy, PartialEq, Eq, Structural)]
pub struct Session {
    pub transport: u64,
    pub heartbeat: u64,
}

/// A tool as reported by a connected server.
#[derive(Debug, Clone)]
pub struct McpToolInfo {
    pub name: String,
    pub description: Option<String>,
    pub input_schema: Option<String>,
    pub output_schema: Option<String>,
}

/// Result of listing tools: the converted tools plus the raw response text.
#[derive(Debug, Clone)]
pub struct McpToolsListResultInternal {
    pub tools: Vec<McpToolInfo>,
    pub raw_response: String,
}

/// The disconnect notification published on each real connected-to-
/// disconnected transition.
#[derive(Debug, Clone)]
pub struct DisconnectNotice {
    pub session_id: String,
    pub status: String,
    pub error: String,
    pub reason: String,
}

/// What a teardown hands back to the runtime: the session whose handles must
/// be released, and the one notification to publish.
#[derive(Debug, Clone)]
pub struct Teardown {
    pub session: Session,
    pub notice: DisconnectNotice,
}

/// The map denoted by an association list keyed by session id.
pub open spec fn assoc_map<V>(es: Seq<(String, V)>) -> Map<Seq<char>, V>
    decreases es.len(),
{
    if es.len() == 0 {
        Map::empty()
    } else {
        assoc_map(es.drop_last()).insert(es.last().0@, es.last().1)
    }
}

/// No key occurs twice in the association list.
pub open spec fn assoc_unique<V>(es: Seq<(String, V)>) -> bool {
    forall|a: int, b: int|
        #![trigger es[a], es[b]]
        0 <= a < b < es.len() ==> es[a].0@ != es[b].0@
}

pub(crate) proof fn lemma_assoc_contains<V>(es: Seq<(String, V)>, k: Seq<char>)
    ensures
        assoc_map(es).contains_key(k) <==> exists|a: int|
            0 <= a < es.len() && (#[trigger] es[a]).0@ == k,
    decreases es.len(),
{
    if es.len() > 0 {
        let es0 = es.drop_last();
        lemma_assoc_contains(es0, k);
        if es.last().0@ == k {
            assert(es[es.len() - 1].0@ == k);
        } else {
            if assoc_map(es).contains_key(k) {
                let a = choose|a: int| 0 <= a < es0.len() && (#[trigger] es0[a]).0@ == k;
                assert(es[a].0@ == k);
            }
            if exists|a: int| 0 <= a < es.len() && (#[trigger] es[a]).0@ == k {
                let a = choose|a: int| 0 <= a < es.len() && (#[trigger] es[a]).0@ == k;
                assert(a != es.len() - 1);
                assert(es0[a].0@ == k);
            }
        }
    }
}

pub(crate) proof fn lemma_assoc_lookup<V>(es: Seq<(String, V)>, a: int)
    requires
        assoc_unique(es),
        0 <= a < es.len(),
    ensures
        assoc_map(es).contains_key(es[a].0@),
        assoc_map(es)[es[a].0@] == es[a].1,
    decreases es.len(),
{
    if a < es.len() - 1 {
        let es0 = es.drop_last();
        assert(assoc_unique(es0));
        lemma_assoc_lookup(es0, a);
        assert(es.last().0@ != es[a].0@);
    }
}

pub(crate) proof fn lemma_assoc_remove<V>(es: Seq<(String, V)>, i: int)
    requires
        assoc_unique(es),
        0 <= i < es.len(),
    ensures
        assoc_map(es.remove(i)) == assoc_map(es).remove(es[i].0@),
        assoc_unique(es.remove(i)),
    decreases es.len(),
{
    let k = es[i].0@;
    assert forall|a: int, b: int|
        #![trigger es.remove(i)[a], es.remove(i)[b]]
        0 <= a < b < es.remove(i).len() implies es.remove(i)[a].0@ != es.remove(i)[b].0@ by {
        let a2 = if a < i { a } else { a + 1 };
        let b2 = if b < i { b } else { b + 1 };
        assert(es.remove(i)[a] == es[a2]);
        assert(es.remove(i)[b] == es[b2]);
    }
    if i == es.len() - 1 {
        assert(es.remove(i) =~= es.drop_last());
        lemma_assoc_contains(es.drop_last(), k);
        assert forall|a: int|
            0 <= a < es.drop_last().len() implies (#[trigger] es.drop_last()[a]).0@ != k by {
            assert(es[a].0@ != es[es.len() - 1].0@);
        }
        assert(!assoc_map(es.drop_last()).contains_key(k));
        assert(assoc_map(es.drop_last()) =~= assoc_map(es.drop_last()).insert(
            k,
            es[i].1,
        ).remove(k));
    } else {
        let es0 = es.drop_last();
        assert(assoc_unique(es0));
        lemma_assoc_remove(es0, i);
        assert(es.remove(i).drop_last() =~= es0.remove(i));
        assert(es.remove(i).last() == es.last());
        assert(es.last().0@ != k);
        assert(assoc_map(es.remove(i)) =~= assoc_map(es).remove(k)) by {
            assert(assoc_map(es.remove(i)) == assoc_map(es0.remove(i)).insert(
                es.last().0@,
                es.last().1,
            ));
            assert(assoc_map(es0.remove(i)) == assoc_map(es0).remove(k));
            assert(assoc_map(es).remove(k) =~= assoc_map(es0).remove(k).insert(
                es.last().0@,
                es.last().1,
            ));
        }
    }
}

pub(crate) proof fn lemma_assoc_push<V>(es: Seq<(String, V)>, e: (String, V))
    ensures
        assoc_map(es.push(e)) == assoc_map(es).insert(e.0@, e.1),
    decreases es.len(),
{
    assert(es.push(e).drop_last() =~= es);
    assert(es.push(e).last() == e);
}

pub(crate) proof fn lemma_assoc_push_unique<V>(es: Seq<(String, V)>, e: (String, V))
    requires
        assoc_unique(es),
        forall|a: int| 0 <= a < es.len() ==> (#[trigger] es[a]).0@ != e.0@,
    ensures
        assoc_unique(es.push(e)),
{
    assert forall|a: int, b: int|
        #![trigger es.push(e)[a], es.push(e)[b]]
        0 <= a < b < es.push(e).len() implies es.push(e)[a].0@ != es.push(e)[b].0@ by {
        assert(es.push(e)[a] == es[a]);
        if b < es.len() {
            assert(es.push(e)[b] == es[b]);
        } else {
            assert(es.push(e)[b] == e);
        }
    }
}

/// A connect is accepted only when no session is live for the id.
pub open spec fn connect_accepts(m: Map<Seq<char>, Session>, id: Seq<char>) -> bool {
    !m.contains_key(id)
}

/// The session table after a connect attempt: unchanged when the id is
/// already live, extended by the new session otherwise.
pub open spec fn connect_next(m: Map<Seq<char>, Session>, id: Seq<char>, s: Session) -> Map<
    Seq<char>,
    Session,
> {
    if m.contains_key(id) {
        m
    } else {
        m.insert(id, s)
    }
}

/// A teardown emits its one notification exactly when a session is live.
pub open spec fn teardown_emits(m: Map<Seq<char>, Session>, id: Seq<char>) -> bool {
    m.contains_key(id)
}

/// The session table after a teardown.
pub open spec fn teardown_next(m: Map<Seq<char>, Session>, id: Seq<char>) -> Map<
    Seq<char>,
    Session,
> {
    m.remove(id)
}

/// Index of the entry for `id`, if one exists.
pub(crate) fn find_idx<V>(es: &Vec<(String, V)>, id: &str) -> (r: Option<usize>)
    ensures
        match r {
            Some(i) => i < es@.len() && es@[i as int].0@ == id@,
            None => forall|a: int| 0 <= a < es@.len() ==> (#[trigger] es@[a]).0@ != id@,
        },
{
    let key: String = id.to_owned();
    let mut i: usize = 0;
    while i < es.len()
        invariant
            0 <= i <= es@.len(),
            key@ == id@,
            forall|a: int| 0 <= a < i ==> (#[trigger] es@[a]).0@ != id@,
        decreases es@.len() - i,
    {
        if es[i].0 == key {
            return Some(i);
        }
        i = i + 1;
    }
    None
}

/// The registry of live sessions and the tool cache, both keyed by session
/// id. Callers reach them only through the methods below; an owning runtime
/// guards the whole value with its own synchronisation.
pub struct ConnectionRegistry {
    sessions: Vec<(String, Session)>,
    tools: Vec<(String, Vec<McpToolInfo>)>,
}

impl ConnectionRegistry {
    /// The live sessions, as a map from session id to session.
    pub closed spec fn sessions_map(&self) -> Map<Seq<char>, Session> {
        assoc_map(self.sessions@)
    }

    /// The cached tool lists, as a map from session id to tools.
    pub closed spec fn tools_map(&self) -> Map<Seq<char>, Vec<McpToolInfo>> {
        assoc_map(self.tools@)
    }

    /// Internal well-formedness: each id occurs at most once per table, and
    /// a tool list is cached only for a live session.
    pub closed spec fn wf(&self) -> bool {
        &&& assoc_unique(self.sessions@)
        &&& assoc_unique(self.tools@)
        &&& forall|k: Seq<char>|
            #[trigger] self.tools_map().contains_key(k) ==> self.sessions_map().contains_key(k)
    }

    pub fn new() -> (r: ConnectionRegistry)
        ensures
            r.wf(),
            r.sessions_map() == Map::<Seq<char>, Session>::empty(),
            r.tools_map() == Map::<Seq<char>, Vec<McpToolInfo>>::empty(),
    {
        ConnectionRegistry { sessions: Vec::new(), tools: Vec::new() }
    }

    /// Membership check: whether `id` has a live session.
    pub fn is_connected(&self, id: &str) -> (r: bool)
        requires
            self.wf(),
        ensures
            r == self.sessions_map().contains_key(id@),
    {
        proof {
            lemma_assoc_contains(self.sessions@, id@);
        }
        find_idx(&self.sessions, id).is_some()
    }

    /// The session registered under `id`, if any.
    pub fn session_of(&self, id: &str) -> (r: Option<Session>)
        requires
            self.wf(),
        ensures
            match r {
                Some(s) => self.sessions_map().contains_key(id@) && s == self.sessions_map()[id@],
                None => !self.sessions_map().contains_key(id@),
            },
    {
        proof {
            lemma_assoc_contains(self.sessions@, id@);
        }
        match find_idx(&self.sessions, id) {
            Some(i) => {
                proof {
                    lemma_assoc_lookup(self.sessions@, i as int);
                }
                Some(self.sessions[i].1)
            },
            None => None,
        }
    }

    /// Registers a new session under `id`. Fails, changing nothing, when a
    /// session for `id` is already present: at most one live session exists
    /// per id at any time.
    pub fn register_session(&mut self, id: &str, session: Session) -> (r: Result<
        (),
        SessionError,
    >)
        requires
            old(self).wf(),
        ensures
            final(self).wf(),
            final(self).sessions_map() == connect_next(old(self).sessions_map(), id@, session),
            final(self).tools_map() == old(self).tools_map(),
            connect_accepts(old(self).sessions_map(), id@) ==> r == Ok::<(), SessionError>(()),
            !connect_accepts(old(self).sessions_map(), id@) ==> r == Err::<(), SessionError>(
                SessionError::AlreadyConnected,
            ),
    {
        proof {
            lemma_assoc_contains(self.sessions@, id@);
        }
        match find_idx(&self.sessions, id) {
            Some(_) => Err(SessionError::AlreadyConnected),
            None => {
                let key: String = id.to_owned();
                proof {
                    lemma_assoc_push(self.sessions@, (key, session));
                    lemma_assoc_push_unique(self.sessions@, (key, session));
                }
                self.sessions.push((key, session));
                proof {
                    assert forall|k: Seq<char>| #[trigger]
                        self.tools_map().contains_key(k) implies self.sessions_map().contains_key(
                        k,
                    ) by {
                        assert(old(self).tools_map().contains_key(k));
                        assert(old(self).sessions_map().contains_key(k));
                    }
                }
                Ok(())
            },
        }
    }

    /// Atomically replaces the cached tool list for `id`, provided a session
    /// for `id` is live; otherwise reports `NotConnected` and caches nothing.
    pub fn record_tools(&mut self, id: &str, tools: Vec<McpToolInfo>) -> (r: Result<
        (),
        SessionError,
    >)
        requires
            old(self).wf(),
        ensures
            final(self).wf(),
            final(self).sessions_map() == old(self).sessions_map(),
            !old(self).sessions_map().contains_key(id@) ==> r == Err::<(), SessionError>(
                SessionError::NotConnected,
            ) && final(self).tools_map() == old(self).tools_map(),
            old(self).sessions_map().contains_key(id@) ==> r == Ok::<(), SessionError>(())
                && final(self).tools_map() == old(self).tools_map().insert(id@, tools),
    {
        proof {
            lemma_assoc_contains(self.sessions@, id@);
        }
        if find_idx(&self.sessions, id).is_none() {
            return Err(SessionError::NotConnected);
        }
        let key: String = id.to_owned();
        match find_idx(&self.tools, id) {
            Some(i) => {
                proof {
                    lemma_assoc_remove(self.tools@, i as int);
                }
                let ghost mid = self.tools@.remove(i as int);
                self.tools.remove(i);
                proof {
                    lemma_assoc_push(mid, (key, tools));
                    lemma_assoc_contains(mid, id@);
                    assert(forall|a: int|
                        0 <= a < mid.len() ==> (#[trigger] mid[a]).0@ != id@) by {
                        lemma_assoc_contains(mid, id@);
                    }
                    lemma_assoc_push_unique(mid, (key, tools));
                    assert(assoc_map(mid.push((key, tools))) =~= assoc_map(
                        old(self).tools@,
                    ).insert(id@, tools));
                }
                self.tools.push((key, tools));
                proof {
                    self.lemma_cache_within_after_insert(*old(self), id@);
                }
                Ok(())
            },
            None => {
                proof {
                    lemma_assoc_push(self.tools@, (key, tools));
                    lemma_assoc_push_unique(self.tools@, (key, tools));
                }
                self.tools.push((key, tools));
                proof {
                    self.lemma_cache_within_after_insert(*old(self), id@);
                }
                Ok(())
            },
        }
    }

    /// After caching tools for a live id, the cache still only names live
    /// ids.
    proof fn lemma_cache_within_after_insert(&self, pre: ConnectionRegistry, id: Seq<char>)
        requires
            pre.wf(),
            pre.sessions_map().contains_key(id),
            self.sessions_map() == pre.sessions_map(),
            forall|k: Seq<char>|
                #[trigger] self.tools_map().contains_key(k) ==> k == id
                    || pre.tools_map().contains_key(k),
        ensures
            forall|k: Seq<char>|
                #[trigger] self.tools_map().contains_key(k) ==> self.sessions_map().contains_key(
                    k,
                ),
    {
    }

    /// The cached tool list for `id`, if one is present.
    pub fn get_cached_tools<'a>(&'a self, id: &str) -> (r: Option<&'a Vec<McpToolInfo>>)
        requires
            self.wf(),
        ensures
            match r {
                Some(v) => self.tools_map().contains_key(id@) && *v == self.tools_map()[id@],
                None => !self.tools_map().contains_key(id@),
            },
    {
        proof {
            lemma_assoc_contains(self.tools@, id@);
        }
        match find_idx(&self.tools, id) {
            Some(i) => {
                proof {
                    lemma_assoc_lookup(self.tools@, i as int);
                }
                Some(&self.tools[i].1)
            },
            None => None,
        }
    }

    /// The shared teardown path. When a session for `id` is live it is
    /// removed together with its tool cache entry, and the one disconnect
    /// notification for this transition is returned. When no session is
    /// live the call is a silent no-op and nothing is emitted.
    pub fn teardown(&mut self, id: &str, reason: &str) -> (r: Option<Teardown>)
        requires
            old(self).wf(),
        ensures
            final(self).wf(),
            final(self).sessions_map() == teardown_next(old(self).sessions_map(), id@),
            final(self).tools_map() == old(self).tools_map().remove(id@),
            r is Some <==> teardown_emits(old(self).sessions_map(), id@),
            match r {
                Some(t) => t.session == old(self).sessions_map()[id@]
                    && t.notice.session_id@ == id@
                    && t.notice.status@ == "disconnected"@
                    && t.notice.error@ == "Transport closed: "@ + reason@
                    && t.notice.reason@ == reason@,
                None => true,
            },
    {
        proof {
            lemma_assoc_contains(self.sessions@, id@);
        }
        match find_idx(&self.sessions, id) {
            None => {
                proof {
                    lemma_assoc_contains(self.tools@, id@);
                    assert(!self.sessions_map().contains_key(id@));
                    assert(!self.tools_map().contains_key(id@));
                    assert(assoc_map(self.sessions@) =~= assoc_map(self.sessions@).remove(id@));
                    assert(assoc_map(self.tools@) =~= assoc_map(self.tools@).remove(id@));
                }
                None
            },
            Some(i) => {
                proof {
                    lemma_assoc_lookup(self.sessions@, i as int);
                    lemma_assoc_remove(self.sessions@, i as int);
                }
                let entry = self.sessions.remove(i);
                let session = entry.1;
                match find_idx(&self.tools, id) {
                    Some(j) => {
                        proof {
                            lemma_assoc_remove(self.tools@, j as int);
                        }
                        self.tools.remove(j);
                    },
                    None => {
                        proof {
                            lemma_assoc_contains(self.tools@, id@);
                            assert(assoc_map(self.tools@) =~= assoc_map(self.tools@).remove(id@));
                        }
                    },
                }
                proof {
                    assert forall|k: Seq<char>| #[trigger]
                        self.tools_map().contains_key(k) implies self.sessions_map().contains_key(
                        k,
                    ) by {
                        assert(old(self).tools_map().contains_key(k));
                        assert(k != id@);
                        assert(old(self).sessions_map().contains_key(k));
                    }
                }
                let notice = DisconnectNotice {
                    session_id: id.to_owned(),
                    status: String::from_str("disconnected"),
                    error: String::from_str("Transport closed: ").concat(reason),
                    reason: reason.to_owned(),
                };
                Some(Teardown { session, notice })
            },
        }
    }

    /// Bulk teardown at process shutdown: empties both tables and hands every
    /// session back for its handles to be released. No notifications are
    /// produced.
    pub fn disconnect_all(&mut self) -> (r: Vec<(String, Session)>)
        requires
            old(self).wf(),
        ensures
            final(self).wf(),
            final(self).sessions_map() == Map::<Seq<char>, Session>::empty(),
            final(self).tools_map() == Map::<Seq<char>, Vec<McpToolInfo>>::empty(),
            assoc_map(r@) == old(self).sessions_map(),
            assoc_unique(r@),
    {
        let mut out: Vec<(String, Session)> = Vec::new();
        core::mem::swap(&mut out, &mut self.sessions);
        self.tools.clear();
        out
    }
}

/// A rendered schema document, kept only when it says anything: an empty
/// JSON object stands for no schema.
pub fn schema_text_or_none(s: String) -> (r: Option<String>)
    ensures
        s@ == "{}"@ ==> r is None,
        s@ != "{}"@ ==> match r {
            Some(v) => v == s,
            None => false,
        },
{
    if crate::strutil::str_eq(s.as_str(), "{}") {
        None
    } else {
        Some(s)
    }
}

fn clone_opt_string(o: &Option<String>) -> (r: Option<String>)
    ensures
        r == *o,
{
    match o {
        Some(s) => Some(s.clone()),
        None => None,
    }
}

/// Converts the tools a server reported into UI-layer tool records, giving
/// each a fresh identifier under the session's id.
pub fn tools_from_infos(server_id: &str, infos: &Vec<McpToolInfo>) -> (r: Vec<crate::domain::McpTool>)
    ensures
        r@.len() == infos@.len(),
        forall|i: int|
            0 <= i < r@.len() ==> {
                let t = #[trigger] r@[i];
                &&& t.id@.len() == 36
                &&& t.server_id@ == server_id@
                &&& t.name == infos@[i].name
                &&& t.description == infos@[i].description
                &&& t.input_schema == infos@[i].input_schema
                &&& t.output_schema == infos@[i].output_schema
                &&& t.extra is None
                &&& t.created_at@ == Seq::<char>::empty()
            },
{
    let mut out: Vec<crate::domain::McpTool> = Vec::new();
    let mut i: usize = 0;
    while i < infos.len()
        invariant
            0 <= i <= infos@.len(),
            out@.len() == i,
            forall|k: int|
                0 <= k < i ==> {
                    let t = #[trigger] out@[k];
                    &&& t.id@.len() == 36
                    &&& t.server_id@ == server_id@
                    &&& t.name == infos@[k].name
                    &&& t.description == infos@[k].description
                    &&& t.input_schema == infos@[k].input_schema
                    &&& t.output_schema == infos@[k].output_schema
                    &&& t.extra is None
                    &&& t.created_at@ == Seq::<char>::empty()
                },
        decreases infos@.len() - i,
    {
        let info = &infos[i];
        let tool = crate::domain::McpTool {
            id: crate::domain::fresh_uuid_string(),
            server_id: server_id.to_owned(),
            name: info.name.clone(),
            description: clone_opt_string(&info.description),
            input_schema: clone_opt_string(&info.input_schema),
            output_schema: clone_opt_string(&info.output_schema),
            extra: None,
            created_at: String::new(),
        };
        out.push(tool);
        i = i + 1;
    }
    out
}

/// A `connect` followed immediately by a second `connect` with the same id
/// is rejected and creates no second session: the second attempt leaves the
/// table exactly as the first attempt left it.
pub proof fn lemma_second_connect_rejected(
    m: Map<Seq<char>, Session>,
    id: Seq<char>,
    s1: Session,
    s2: Session,
)
    requires
        connect_accepts(m, id),
    ensures
        connect_next(m, id, s1)[id] == s1,
        !connect_accepts(connect_next(m, id, s1), id),
        connect_next(connect_next(m, id, s1), id, s2) == connect_next(m, id, s1),
{
}

/// After a disconnect, the id is no longer connected and the tool cache
/// holds no entry for it.
pub proof fn lemma_disconnect_clears(
    m: Map<Seq<char>, Session>,
    t: Map<Seq<char>, Vec<McpToolInfo>>,
    id: Seq<char>,
)
    ensures
        !teardown_next(m, id).contains_key(id),
        !t.remove(id).contains_key(id),
{
}

/// Tearing down twice in a row emits exactly one notification when the id
/// was connected and none when it was not: the second call is a silent
/// no-op that changes nothing.
pub proof fn lemma_teardown_idempotent(m: Map<Seq<char>, Session>, id: Seq<char>)
    ensures
        ({
            let once = teardown_next(m, id);
            let n1: int = if teardown_emits(m, id) { 1 } else { 0 };
            let n2: int = if teardown_emits(once, id) { 1 } else { 0 };
            n1 + n2 == (if m.contains_key(id) { 1int } else { 0int }) && teardown_next(once, id)
                == once
        }),
{
    assert(m.remove(id).remove(id) =~= m.remove(id));
}

/// Operations on one session id leave every other id untouched, in both
/// the session table and the tool cache: sessions are fully independent.
pub proof fn lemma_sessions_independent(
    m: Map<Seq<char>, Session>,
    t: Map<Seq<char>, Vec<McpToolInfo>>,
    id1: Seq<char>,
    id2: Seq<char>,
    s: Session,
    tools: Vec<McpToolInfo>,
)
    requires
        id1 != id2,
    ensures
        connect_next(m, id1, s).contains_key(id2) == m.contains_key(id2),
        m.contains_key(id2) ==> connect_next(m, id1, s)[id2] == m[id2],
        teardown_next(m, id1).contains_key(id2) == m.contains_key(id2),
        m.contains_key(id2) ==> teardown_next(m, id1)[id2] == m[id2],
        t.insert(id1, tools).contains_key(id2) == t.contains_key(id2),
        t.contains_key(id2) ==> t.insert(id1, tools)[id2] == t[id2],
        t.remove(id1).contains_key(id2) == t.contains_key(id2),
        t.contains_key(id2) ==> t.remove(id1)[id2] == t[id2],
{
}

/// How one tool invocation against a live transport ended, as observed by
/// the runtime that raced the call against the timeout.
#[derive(Debug, Clone)]
pub enum ToolCallOutcome {
    /// The server answered; `is_error` is its own error flag.
    Completed { raw_response: String, result_json: String, is_error: bool },
    /// The call failed with a transport or protocol error.
    Failed { message: String },
    /// The timeout won the race; the session itself is left untouched.
    TimedOut,
}

/// Shapes the caller-visible result of one tool invocation. A timeout is an
/// expected operational condition, reported as a failed result rather than an
/// error; the measured duration is carried for every outcome.
pub fn tool_call_result(outcome: ToolCallOutcome, duration_ms: i64) -> (r: McpToolCallResult)
    ensures
        r.duration_ms == duration_ms,
        match outcome {
            ToolCallOutcome::Completed { raw_response, result_json, is_error } => r.success
                == !is_error && r.raw_response == raw_response && match r.result {
                Some(v) => v == result_json,
                None => false,
            } && r.error is None,
            ToolCallOutcome::Failed { message } => r.success == false && r.raw_response@
                == "{\"error\": \""@ + message@ + "\"}"@ && r.result is None && match r.error {
                Some(e) => e == message,
                None => false,
            },
            ToolCallOutcome::TimedOut => r.success == false && r.raw_response@
                == "{\"error\": \"Request timed out\"}"@ && r.result is None && match r.error {
                Some(e) => e@ == "Request timed out after 30 seconds"@,
                None => false,
            },
        },
{
    match outcome {
        ToolCallOutcome::Completed { raw_response, result_json, is_error } => McpToolCallResult {
            success: !is_error,
            raw_response,
            result: Some(result_json),
            error: None,
            duration_ms,
        },
        ToolCallOutcome::Failed { message } => {
            let raw = String::from_str("{\"error\": \"").concat(message.as_str()).concat("\"}");
            McpToolCallResult {
                success: false,
                raw_response: raw,
                result: None,
                error: Some(message),
                duration_ms,
            }
        },
        ToolCallOutcome::TimedOut => McpToolCallResult {
            success: false,
            raw_response: String::from_str("{\"error\": \"Request timed out\"}"),
            result: None,
            error: Some(String::from_str("Request timed out after 30 seconds")),
            duration_ms,
        },
    }
}

} // verus!
