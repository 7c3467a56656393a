//! Decoding of the server-sent-events wire format, line by line.
//!
//! Each line is either blank — which dispatches the accumulated event — or
//! carries a field: the name stands before the first colon, the value after
//! it, less one leading space; a line without a colon is a name with an
//! empty value, and a line starting with a colon is a comment. An `event`
//! field sets the event type, a `data` field accumulates payload lines, and
//! every other field is ignored by this consumer, which reads only the type
//! and the payload.

use vstd::prelude::*;
use vstd::string::StrSliceExecFns;
use vstd::string::StringExecFns;

use crate::strutil::str_eq;

verus! {

/// One dispatched wire event: its type and its payload.
#[derive(Debug, Clone, PartialEq, Eq)]
pub struct SseWireEvent {
    pub event: String,
    pub data: String,
}

/// The field name of a line: everything before its first colon.
pub open spec fn field_name(line: Seq<char>) -> Seq<char>
    decreases line.len(),
{
    if line.len() == 0 {
        Seq::empty()
    } else if line[0] == ':' {
        Seq::empty()
    } else {
        seq![line[0]] + field_name(line.drop_first())
    }
}

/// Everything after the first colon of a line; empty when it has none.
pub open spec fn after_colon(line: Seq<char>) -> Seq<char>
    decreases line.len(),
{
    if line.len() == 0 {
        Seq::empty()
    } else if line[0] == ':' {
        line.drop_first()
    } else {
        after_colon(line.drop_first())
    }
}

/// The field value of a line: what follows the first colon, less one
/// leading space.
pub open spec fn field_value(line: Seq<char>) -> Seq<char> {
    let v = after_colon(line);
    if v.len() > 0 && v[0] == ' ' {
        v.drop_first()
    } else {
        v
    }
}

proof fn lemma_field_parts(line: Seq<char>, i: int)
    requires
        0 <= i <= line.len(),
        forall|k: int| 0 <= k < i ==> #[trigger] line[k] != ':',
        i < line.len() ==> line[i] == ':',
    ensures
        field_name(line) == line.subrange(0, i),
        after_colon(line) == if i < line.len() {
            line.subrange(i + 1, line.len() as int)
        } else {
            Seq::<char>::empty()
        },
    decreases i,
{
    if i == 0 {
        if line.len() == 0 {
            assert(field_name(line) =~= line.subrange(0, 0));
        } else {
            assert(line[0] == ':');
            assert(field_name(line) =~= line.subrange(0, 0));
            assert(line.drop_first() =~= line.subrange(1, line.len() as int));
        }
    } else {
        assert(line[0] != ':');
        let rest = line.drop_first();
        lemma_field_parts(rest, i - 1);
        assert(seq![line[0]] + rest.subrange(0, i - 1) =~= line.subrange(0, i));
        if i < line.len() {
            assert(rest.subrange(i, rest.len() as int) =~= line.subrange(
                i + 1,
                line.len() as int,
            ));
        }
    }
}

/// What one line does to the accumulating event state, and what it
/// dispatches: a blank line releases the accumulated event — typed
/// `message` unless an `event` field named it — provided at least one
/// `data` field was seen; `data` lines are joined with line feeds.
pub open spec fn line_transition(
    etype: Seq<char>,
    data: Seq<char>,
    has_data: bool,
    line: Seq<char>,
) -> (Seq<char>, Seq<char>, bool, Option<(Seq<char>, Seq<char>)>) {
    if line.len() == 0 {
        if has_data {
            let out_type = if etype.len() == 0 {
                "message"@
            } else {
                etype
            };
            (Seq::empty(), Seq::empty(), false, Some((out_type, data)))
        } else {
            (Seq::empty(), Seq::empty(), false, None)
        }
    } else if field_name(line) == "event"@ {
        (field_value(line), data, has_data, None)
    } else if field_name(line) == "data"@ {
        let joined = if has_data {
            data + seq!['\n'] + field_value(line)
        } else {
            field_value(line)
        };
        (etype, joined, true, None)
    } else {
        (etype, data, has_data, None)
    }
}

/// The lines denoted by `s`, processed character by character: `\n`, `\r`
/// and `\r\n` all end a line, a `\n` directly after a `\r` is swallowed,
/// and what follows the last terminator is left over as a partial line.
/// `cur` is the partial line already read; `pending_cr` says the previous
/// character was a `\r`, so that one following `\n` must be swallowed.
pub open spec fn split_lines(s: Seq<char>, cur: Seq<char>, pending_cr: bool) -> (
    Seq<Seq<char>>,
    Seq<char>,
    bool,
)
    decreases s.len(),
{
    if s.len() == 0 {
        (Seq::empty(), cur, pending_cr)
    } else {
        let c = s[0];
        let rest = s.drop_first();
        if pending_cr && c == '\n' {
            split_lines(rest, cur, false)
        } else if c == '\n' {
            let (ls, leftover, p) = split_lines(rest, Seq::empty(), false);
            (seq![cur] + ls, leftover, p)
        } else if c == '\r' {
            let (ls, leftover, p) = split_lines(rest, Seq::empty(), true);
            (seq![cur] + ls, leftover, p)
        } else {
            split_lines(rest, cur.push(c), false)
        }
    }
}

/// Splits a stream of text chunks into lines, keeping a partial line and
/// the carriage-return lookahead between chunks.
pub struct LineSplitter {
    buf: String,
    pending_cr: bool,
}

impl LineSplitter {
    /// The partial line carried over from previous chunks.
    pub closed spec fn cur(&self) -> Seq<char> {
        self.buf@
    }

    /// Whether the previous character was a carriage return, so that one
    /// following line feed is still to be swallowed.
    pub closed spec fn pending(&self) -> bool {
        self.pending_cr
    }

    pub fn new() -> (r: LineSplitter)
        ensures
            r.cur() == Seq::<char>::empty(),
            !r.pending(),
    {
        LineSplitter { buf: String::new(), pending_cr: false }
    }

    /// Feeds one chunk of text and returns the lines completed by it,
    /// terminators stripped.
    pub fn push_text(&mut self, chunk: &str) -> (r: Vec<String>)
        ensures
            ({
                let (ls, leftover, p) = split_lines(
                    old(self).cur() + chunk@,
                    Seq::empty(),
                    old(self).pending(),
                );
                r@.map_values(|l: String| l@) == ls && final(self).cur() == leftover
                    && final(self).pending() == p
            }),
    {
        let text: String = self.buf.clone().concat(chunk);
        let n: usize = text.as_str().unicode_len();
        let ghost p0: bool = self.pending_cr;
        let mut out: Vec<String> = Vec::new();
        let mut start: usize = 0;
        let mut i: usize = 0;
        let mut pending: bool = self.pending_cr;
        proof {
            assert(out@.map_values(|l: String| l@) =~= Seq::<Seq<char>>::empty());
            assert(text@.subrange(0, n as int) =~= text@);
            assert(text@.subrange(0, 0) =~= Seq::<char>::empty());
        }
        while i < n
            invariant
                0 <= start <= i <= n,
                n == text@.len(),
                pending ==> start == i,
                split_lines(text@, Seq::empty(), p0) == ({
                    let (ls2, l2, p2) = split_lines(
                        text@.subrange(i as int, n as int),
                        text@.subrange(start as int, i as int),
                        pending,
                    );
                    (out@.map_values(|l: String| l@) + ls2, l2, p2)
                }),
            decreases n - i,
        {
            let ghost prev_rest = text@.subrange(i as int, n as int);
            let ghost prev_cur = text@.subrange(start as int, i as int);
            let ghost pend_old = pending;
            proof {
                assert(prev_rest[0] == text@[i as int]);
                assert(prev_rest.drop_first() =~= text@.subrange(i + 1, n as int));
            }
            let c: char = text.as_str().get_char(i);
            if pending && c == '\n' {
                i = i + 1;
                start = i;
                pending = false;
                proof {
                    assert(prev_cur =~= Seq::<char>::empty());
                    assert(text@.subrange(start as int, i as int) =~= prev_cur);
                }
            } else if c == '\n' || c == '\r' {
                let line: String = String::from_str(text.as_str().substring_char(start, i));
                let ghost out_old = out@;
                out.push(line);
                i = i + 1;
                start = i;
                pending = c == '\r';
                proof {
                    let f = |l: String| l@;
                    let (ls3, l3, p3) = split_lines(
                        text@.subrange(i as int, n as int),
                        Seq::<char>::empty(),
                        pending,
                    );
                    assert(split_lines(prev_rest, prev_cur, pend_old) == (
                        seq![prev_cur] + ls3,
                        l3,
                        p3,
                    ));
                    assert(out@.map_values(f) =~= out_old.map_values(f).push(prev_cur));
                    assert(out_old.map_values(f) + (seq![prev_cur] + ls3) =~= out@.map_values(f)
                        + ls3);
                    assert(text@.subrange(start as int, i as int) =~= Seq::<char>::empty());
                }
            } else {
                i = i + 1;
                pending = false;
                proof {
                    assert(text@.subrange(start as int, i as int) =~= prev_cur.push(
                        text@[i - 1],
                    ));
                }
            }
        }
        proof {
            assert(text@.subrange(n as int, n as int) =~= Seq::<char>::empty());
            assert(out@.map_values(|l: String| l@) + Seq::<Seq<char>>::empty() =~= out@.map_values(
                |l: String| l@,
            ));
            assert(text@ == old(self).buf@ + chunk@);
        }
        let leftover: String = String::from_str(text.as_str().substring_char(start, n));
        self.buf = leftover;
        self.pending_cr = pending;
        out
    }
}

/// The state accumulated between dispatches: the event type buffer, the
/// data buffer, and whether any `data` field has been seen since the last
/// blank line.
pub struct SseFieldDecoder {
    event_type: String,
    data: String,
    has_data: bool,
}

impl SseFieldDecoder {
    pub closed spec fn etype(&self) -> Seq<char> {
        self.event_type@
    }

    pub closed spec fn data_buf(&self) -> Seq<char> {
        self.data@
    }

    pub closed spec fn has_data(&self) -> bool {
        self.has_data
    }

    pub fn new() -> (r: SseFieldDecoder)
        ensures
            r.etype() == Seq::<char>::empty(),
            r.data_buf() == Seq::<char>::empty(),
            !r.has_data(),
    {
        SseFieldDecoder { event_type: String::new(), data: String::new(), has_data: false }
    }

    /// Feeds one line, stripped of its terminator, following
    /// `line_transition`.
    pub fn on_line(&mut self, line: &str) -> (r: Option<SseWireEvent>)
        ensures
            ({
                let (t2, d2, h2, out) = line_transition(
                    old(self).etype(),
                    old(self).data_buf(),
                    old(self).has_data(),
                    line@,
                );
                final(self).etype() == t2 && final(self).data_buf() == d2 && final(self).has_data()
                    == h2 && match r {
                    Some(ev) => out == Some((ev.event@, ev.data@)),
                    None => out is None,
                }
            }),
    {
        let n: usize = line.unicode_len();
        if n == 0 {
            let had = self.has_data;
            let out = if had {
                let ev_type = if self.event_type.as_str().is_empty() {
                    String::from_str("message")
                } else {
                    self.event_type.clone()
                };
                Some(SseWireEvent { event: ev_type, data: self.data.clone() })
            } else {
                None
            };
            self.event_type = String::new();
            self.data = String::new();
            self.has_data = false;
            return out;
        }
        let mut i: usize = 0;
        while i < n
            invariant_except_break
                0 <= i <= n,
                n == line@.len(),
                forall|k: int| 0 <= k < i ==> #[trigger] line@[k] != ':',
            ensures
                0 <= i <= n,
                n == line@.len(),
                forall|k: int| 0 <= k < i ==> #[trigger] line@[k] != ':',
                i < n ==> line@[i as int] == ':',
            decreases n - i,
        {
            if line.get_char(i) == ':' {
                break ;
            }
            i = i + 1;
        }
        proof {
            lemma_field_parts(line@, i as int);
        }
        let name: &str = line.substring_char(0, i);
        let value_start: usize = if i == n {
            n
        } else if i + 1 < n && line.get_char(i + 1) == ' ' {
            i + 2
        } else {
            i + 1
        };
        let value: &str = line.substring_char(value_start, n);
        proof {
            assert(value@ =~= field_value(line@));
        }
        if str_eq(name, "event") {
            self.event_type = String::from_str(value);
            None
        } else if str_eq(name, "data") {
            if self.has_data {
                self.data.append("\n");
                self.data.append(value);
                proof {
                    assert("\n"@ =~= seq!['\n']) by {
                        reveal_strlit("\n");
                    }
                    assert(self.data@ =~= old(self).data@ + seq!['\n'] + field_value(line@));
                }
            } else {
                self.data = String::from_str(value);
            }
            self.has_data = true;
            None
        } else {
            None
        }
    }
}

} // verus!
