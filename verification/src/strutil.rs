//! Verified string helpers used by the transport and heartbeat logic:
//! prefix tests, substring search, ASCII case folding, and trimming.

use vstd::prelude::*;
use vstd::string::StrSliceExecFns;
use vstd::string::StringExecFns;

verus! {

/// `p` is a prefix of `s`.
pub open spec fn starts_with_spec(s: Seq<char>, p: Seq<char>) -> bool {
    p.len() <= s.len() && s.subrange(0, p.len() as int) == p
}

/// `p` occurs in `s` at position `i`.
pub open spec fn match_at(s: Seq<char>, p: Seq<char>, i: int) -> bool {
    0 <= i && i + p.len() <= s.len() && s.subrange(i, i + p.len()) == p
}

/// `p` occurs somewhere in `s`.
pub open spec fn contains_spec(s: Seq<char>, p: Seq<char>) -> bool {
    exists|i: int| match_at(s, p, i)
}

/// `p` occurs in `s` at position `i` and nowhere earlier.
pub open spec fn first_match_at(s: Seq<char>, p: Seq<char>, i: int) -> bool {
    match_at(s, p, i) && forall|k: int| 0 <= k < i ==> !match_at(s, p, k)
}

/// The ASCII lowercase counterpart of `c`; other characters are unchanged.
pub open spec fn lower_char(c: char) -> char {
    if 'A' <= c && c <= 'Z' {
        ((c as u32) + 32) as char
    } else {
        c
    }
}

/// `s` folded to ASCII lowercase, character by character.
pub open spec fn lower_seq(s: Seq<char>) -> Seq<char> {
    s.map_values(|c: char| lower_char(c))
}

pub fn starts_with_lit(s: &str, p: &str) -> (r: bool)
    ensures
        r == starts_with_spec(s@, p@),
{
    let n: usize = p.unicode_len();
    if n > s.unicode_len() {
        return false;
    }
    let mut i: usize = 0;
    while i < n
        invariant
            0 <= i <= n,
            n == p@.len(),
            n <= s@.len(),
            forall|k: int| 0 <= k < i ==> s@[k] == p@[k],
        decreases n - i,
    {
        if s.get_char(i) != p.get_char(i) {
            assert(!starts_with_spec(s@, p@)) by {
                assert(s@.subrange(0, n as int)[i as int] != p@[i as int]);
            }
            return false;
        }
        i = i + 1;
    }
    assert(s@.subrange(0, n as int) =~= p@);
    true
}

/// Whether `p` occurs in `s` starting at index `i`.
fn matches_at(s: &str, p: &str, i: usize) -> (r: bool)
    requires
        i + p@.len() <= s@.len(),
        s@.len() <= usize::MAX,
    ensures
        r == match_at(s@, p@, i as int),
{
    let n: usize = p.unicode_len();
    let mut j: usize = 0;
    while j < n
        invariant
            0 <= j <= n,
            n == p@.len(),
            i + n <= s@.len() <= usize::MAX,
            forall|k: int| 0 <= k < j ==> s@[i + k] == p@[k],
        decreases n - j,
    {
        if s.get_char(i + j) != p.get_char(j) {
            assert(!match_at(s@, p@, i as int)) by {
                assert(s@.subrange(i as int, i + n) =~= p@ ==> s@[i + j] == p@[j as int]);
            }
            return false;
        }
        j = j + 1;
    }
    assert(s@.subrange(i as int, i + n) =~= p@);
    true
}

/// Position of the first occurrence of `p` in `s`, if any.
pub fn find_substr(s: &str, p: &str) -> (r: Option<usize>)
    ensures
        match r {
            Some(i) => first_match_at(s@, p@, i as int),
            None => !contains_spec(s@, p@),
        },
{
    let sn: usize = s.unicode_len();
    let pn: usize = p.unicode_len();
    if pn > sn {
        assert(!contains_spec(s@, p@)) by {
            assert(forall|i: int| !match_at(s@, p@, i));
        }
        return None;
    }
    if pn == 0 {
        assert(match_at(s@, p@, 0)) by {
            assert(s@.subrange(0, 0) =~= p@);
        }
        return Some(0);
    }
    let bound: usize = sn - pn;
    let mut i: usize = 0;
    while i <= bound
        invariant
            0 <= i <= bound + 1,
            bound == sn - pn,
            sn == s@.len(),
            pn == p@.len(),
            1 <= pn <= sn,
            forall|k: int| 0 <= k < i ==> !match_at(s@, p@, k),
        decreases bound - i + 1,
    {
        if matches_at(s, p, i) {
            return Some(i);
        }
        i = i + 1;
    }
    assert(!contains_spec(s@, p@)) by {
        assert(forall|k: int| match_at(s@, p@, k) ==> 0 <= k <= bound);
    }
    None
}

pub fn contains_substr(s: &str, p: &str) -> (r: bool)
    ensures
        r == contains_spec(s@, p@),
{
    find_substr(s, p).is_some()
}

/// Exact string equality, stated over the views.
pub fn str_eq(a: &str, b: &str) -> (r: bool)
    ensures
        r == (a@ == b@),
{
    a.to_owned() == b.to_owned()
}

/// Case-insensitive (ASCII) prefix test.
pub fn starts_with_ci(s: &str, p: &str) -> (r: bool)
    ensures
        r == starts_with_spec(lower_seq(s@), lower_seq(p@)),
{
    let n: usize = p.unicode_len();
    if n > s.unicode_len() {
        return false;
    }
    let mut i: usize = 0;
    while i < n
        invariant
            0 <= i <= n,
            n == p@.len(),
            n <= s@.len(),
            forall|k: int| 0 <= k < i ==> lower_char(s@[k]) == lower_char(p@[k]),
        decreases n - i,
    {
        let sc: u32 = s.get_char(i) as u32;
        let pc: u32 = p.get_char(i) as u32;
        let sl: u32 = if 65 <= sc && sc <= 90 { sc + 32 } else { sc };
        let pl: u32 = if 65 <= pc && pc <= 90 { pc + 32 } else { pc };
        if sl != pl {
            assert(lower_char(s@[i as int]) as u32 == sl);
            assert(lower_char(p@[i as int]) as u32 == pl);
            assert(!starts_with_spec(lower_seq(s@), lower_seq(p@))) by {
                assert(lower_seq(s@).subrange(0, n as int) =~= lower_seq(p@)
                    ==> lower_seq(s@)[i as int] == lower_seq(p@)[i as int]);
            }
            return false;
        }
        assert(lower_char(s@[i as int]) == lower_char(p@[i as int])) by {
            assert(lower_char(s@[i as int]) as u32 == sl);
            assert(lower_char(p@[i as int]) as u32 == pl);
        }
        i = i + 1;
    }
    assert(lower_seq(s@).subrange(0, n as int) =~= lower_seq(p@));
    true
}

/// Case-insensitive (ASCII) equality test.
pub fn eq_ignore_case(s: &str, p: &str) -> (r: bool)
    ensures
        r == (lower_seq(s@) == lower_seq(p@)),
{
    if s.unicode_len() != p.unicode_len() {
        assert(lower_seq(s@).len() != lower_seq(p@).len());
        return false;
    }
    let r = starts_with_ci(s, p);
    proof {
        let ls = lower_seq(s@);
        let lp = lower_seq(p@);
        assert(ls.len() == s@.len() && lp.len() == p@.len());
        assert(ls.subrange(0, lp.len() as int) =~= ls);
        if r {
            assert(ls =~= lp);
        }
    }
    r
}

/// ASCII whitespace as trimmed from server-sent event payloads.
pub open spec fn is_ascii_ws(c: char) -> bool {
    c == ' ' || c == '\t' || c == '\r' || c == '\n'
}

fn ws_char(c: char) -> (r: bool)
    ensures
        r == is_ascii_ws(c),
{
    c == ' ' || c == '\t' || c == '\r' || c == '\n'
}

/// `s` without its leading whitespace.
pub open spec fn drop_leading_ws(s: Seq<char>) -> Seq<char>
    decreases s.len(),
{
    if s.len() > 0 && is_ascii_ws(s[0]) {
        drop_leading_ws(s.drop_first())
    } else {
        s
    }
}

/// `s` without its trailing whitespace.
pub open spec fn drop_trailing_ws(s: Seq<char>) -> Seq<char>
    decreases s.len(),
{
    if s.len() > 0 && is_ascii_ws(s.last()) {
        drop_trailing_ws(s.drop_last())
    } else {
        s
    }
}

/// `s` with leading and trailing ASCII whitespace removed.
pub open spec fn trim_spec(s: Seq<char>) -> Seq<char> {
    drop_trailing_ws(drop_leading_ws(s))
}

proof fn lemma_drop_leading_ws(s: Seq<char>, a: int)
    requires
        0 <= a <= s.len(),
        forall|k: int| 0 <= k < a ==> is_ascii_ws(#[trigger] s[k]),
        a == s.len() || !is_ascii_ws(s[a]),
    ensures
        drop_leading_ws(s) == s.subrange(a, s.len() as int),
    decreases a,
{
    if a == 0 {
        assert(s.subrange(0, s.len() as int) =~= s);
    } else {
        assert(is_ascii_ws(s[0]));
        lemma_drop_leading_ws(s.drop_first(), a - 1);
        assert(s.drop_first().subrange(a - 1, s.len() - 1) =~= s.subrange(a, s.len() as int));
    }
}

proof fn lemma_drop_trailing_ws(s: Seq<char>, b: int)
    requires
        0 <= b <= s.len(),
        forall|k: int| b <= k < s.len() ==> is_ascii_ws(#[trigger] s[k]),
        b == 0 || !is_ascii_ws(s[b - 1]),
    ensures
        drop_trailing_ws(s) == s.subrange(0, b),
    decreases s.len() - b,
{
    if b == s.len() {
        assert(s.subrange(0, b) =~= s);
    } else {
        assert(is_ascii_ws(s.last()));
        lemma_drop_trailing_ws(s.drop_last(), b);
        assert(s.drop_last().subrange(0, b) =~= s.subrange(0, b));
    }
}

/// Copy of `s` with leading and trailing ASCII whitespace removed.
pub fn trim_ascii_ws(s: &str) -> (r: String)
    ensures
        r@ == trim_spec(s@),
{
    let n: usize = s.unicode_len();
    let mut a: usize = 0;
    while a < n
        invariant_except_break
            0 <= a <= n,
            n == s@.len(),
            forall|k: int| 0 <= k < a ==> is_ascii_ws(s@[k]),
        ensures
            0 <= a <= n,
            n == s@.len(),
            forall|k: int| 0 <= k < a ==> is_ascii_ws(s@[k]),
            a < n ==> !is_ascii_ws(s@[a as int]),
        decreases n - a,
    {
        if !ws_char(s.get_char(a)) {
            break ;
        }
        a = a + 1;
    }
    let mut b: usize = n;
    while b > a
        invariant_except_break
            a <= b <= n,
            n == s@.len(),
            forall|k: int| b <= k < n ==> is_ascii_ws(s@[k]),
        ensures
            a <= b <= n,
            n == s@.len(),
            forall|k: int| b <= k < n ==> is_ascii_ws(s@[k]),
            b > a ==> !is_ascii_ws(s@[b - 1]),
        decreases b,
    {
        if !ws_char(s.get_char(b - 1)) {
            break ;
        }
        b = b - 1;
    }
    let t: &str = s.substring_char(a, b);
    let r = String::from_str(t);
    proof {
        lemma_drop_leading_ws(s@, a as int);
        let t1 = s@.subrange(a as int, s@.len() as int);
        assert forall|k: int| (b - a) <= k < t1.len() implies is_ascii_ws(#[trigger] t1[k]) by {
            assert(t1[k] == s@[a + k]);
        }
        if b > a {
            assert(!is_ascii_ws(s@[b - 1]));
            assert(t1[b - a - 1] == s@[b - 1]);
        }
        lemma_drop_trailing_ws(t1, b - a);
        assert(t1.subrange(0, b - a) =~= s@.subrange(a as int, b as int));
    }
    r
}

/// A decimal digit, compared by code point.
pub open spec fn is_dec_digit(c: char) -> bool {
    48 <= c as int <= 57
}

pub open spec fn digit_val(c: char) -> nat {
    (c as int - 48) as nat
}

pub open spec fn all_digits(s: Seq<char>) -> bool {
    forall|k: int| 0 <= k < s.len() ==> is_dec_digit(#[trigger] s[k])
}

/// The number denoted by a sequence of decimal digits, most significant first.
pub open spec fn dec_val(s: Seq<char>) -> nat
    decreases s.len(),
{
    if s.len() == 0 {
        0
    } else {
        dec_val(s.drop_last()) * 10 + digit_val(s.last())
    }
}

proof fn lemma_dec_val_prefix_le(s: Seq<char>, k: int)
    requires
        0 <= k <= s.len(),
    ensures
        dec_val(s.take(k)) <= dec_val(s),
    decreases s.len() - k,
{
    if k == s.len() {
        assert(s.take(k) =~= s);
    } else {
        lemma_dec_val_prefix_le(s, k + 1);
        assert(s.take(k + 1).drop_last() =~= s.take(k));
        assert(s.take(k + 1).last() == s[k]);
    }
}

/// Parses a non-empty all-digit string as a `u64`; anything else is `None`.
pub fn parse_u64(s: &str) -> (r: Option<u64>)
    ensures
        match r {
            Some(v) => s@.len() > 0 && all_digits(s@) && dec_val(s@) <= u64::MAX && v == dec_val(
                s@,
            ),
            None => s@.len() == 0 || !all_digits(s@) || dec_val(s@) > u64::MAX,
        },
{
    let n: usize = s.unicode_len();
    if n == 0 {
        return None;
    }
    let mut acc: u64 = 0;
    let mut i: usize = 0;
    while i < n
        invariant
            0 <= i <= n,
            n == s@.len() <= usize::MAX,
            forall|k: int| 0 <= k < i ==> is_dec_digit(#[trigger] s@[k]),
            acc == dec_val(s@.take(i as int)),
        decreases n - i,
    {
        let c: char = s.get_char(i);
        let v: u32 = c as u32;
        if v < 48 || v > 57 {
            return None;
        }
        let d: u64 = (v - 48) as u64;
        proof {
            assert(s@.take(i + 1).drop_last() =~= s@.take(i as int));
            assert(s@.take(i + 1).last() == s@[i as int]);
        }
        let m: u64 = match acc.checked_mul(10) {
            Some(m) => m,
            None => {
                proof {
                    lemma_dec_val_prefix_le(s@, i + 1);
                }
                return None;
            },
        };
        acc = match m.checked_add(d) {
            Some(x) => x,
            None => {
                proof {
                    lemma_dec_val_prefix_le(s@, i + 1);
                }
                return None;
            },
        };
        i = i + 1;
    }
    proof {
        assert(s@.take(n as int) =~= s@);
    }
    Some(acc)
}

/// The digit character for `d` in `0 ..= 9`.
pub open spec fn digit_char(d: nat) -> char {
    if d == 0 {
        '0'
    } else if d == 1 {
        '1'
    } else if d == 2 {
        '2'
    } else if d == 3 {
        '3'
    } else if d == 4 {
        '4'
    } else if d == 5 {
        '5'
    } else if d == 6 {
        '6'
    } else if d == 7 {
        '7'
    } else if d == 8 {
        '8'
    } else {
        '9'
    }
}

/// The decimal rendering of `n`, most significant digit first.
pub open spec fn dec_str(n: nat) -> Seq<char>
    decreases n,
{
    if n < 10 {
        seq![digit_char(n)]
    } else {
        dec_str(n / 10).push(digit_char(n % 10))
    }
}

fn append_digit(out: &mut String, d: u64)
    requires
        d < 10,
    ensures
        final(out)@ == old(out)@ + seq![digit_char(d as nat)],
{
    if d == 0 {
        out.append("0");
        proof {
            reveal_strlit("0");
            assert("0"@ =~= seq![digit_char(0)]);
        }
    } else if d == 1 {
        out.append("1");
        proof {
            reveal_strlit("1");
            assert("1"@ =~= seq![digit_char(1)]);
        }
    } else if d == 2 {
        out.append("2");
        proof {
            reveal_strlit("2");
            assert("2"@ =~= seq![digit_char(2)]);
        }
    } else if d == 3 {
        out.append("3");
        proof {
            reveal_strlit("3");
            assert("3"@ =~= seq![digit_char(3)]);
        }
    } else if d == 4 {
        out.append("4");
        proof {
            reveal_strlit("4");
            assert("4"@ =~= seq![digit_char(4)]);
        }
    } else if d == 5 {
        out.append("5");
        proof {
            reveal_strlit("5");
            assert("5"@ =~= seq![digit_char(5)]);
        }
    } else if d == 6 {
        out.append("6");
        proof {
            reveal_strlit("6");
            assert("6"@ =~= seq![digit_char(6)]);
        }
    } else if d == 7 {
        out.append("7");
        proof {
            reveal_strlit("7");
            assert("7"@ =~= seq![digit_char(7)]);
        }
    } else if d == 8 {
        out.append("8");
        proof {
            reveal_strlit("8");
            assert("8"@ =~= seq![digit_char(8)]);
        }
    } else {
        out.append("9");
        proof {
            reveal_strlit("9");
            assert("9"@ =~= seq![digit_char(9)]);
        }
    }
}

fn push_dec_digits(n: u64, out: &mut String)
    ensures
        final(out)@ == old(out)@ + dec_str(n as nat),
    decreases n,
{
    if n >= 10 {
        push_dec_digits(n / 10, out);
        append_digit(out, n % 10);
        assert(final(out)@ =~= old(out)@ + dec_str(n as nat));
    } else {
        append_digit(out, n);
        assert(final(out)@ =~= old(out)@ + dec_str(n as nat));
    }
}

/// The decimal rendering of `n` as a `String`.
pub fn u64_to_dec_string(n: u64) -> (r: String)
    ensures
        r@ == dec_str(n as nat),
{
    let mut out = String::new();
    push_dec_digits(n, &mut out);
    proof {
        assert(out@ =~= dec_str(n as nat));
    }
    out
}

/// Characters that end the authority part of a URL.
pub open spec fn is_origin_sep(c: char) -> bool {
    c == '/' || c == '?' || c == '#'
}

/// `j` is where the authority that begins at `start` ends in `s`.
pub open spec fn origin_end_at(s: Seq<char>, start: int, j: int) -> bool {
    start <= j <= s.len() && (j == s.len() || is_origin_sep(s[j])) && forall|k: int|
        start <= k < j ==> !is_origin_sep(#[trigger] s[k])
}

/// `r` is the `scheme://host[:port]` part of `url`, written as it stands in
/// `url`; a string without a scheme separator stands for itself.
pub open spec fn is_origin_of(url: Seq<char>, r: Seq<char>) -> bool {
    &&& !contains_spec(url, "://"@) ==> r == url
    &&& forall|i: int, j: int|
        first_match_at(url, "://"@, i) && origin_end_at(url, i + 3, j) ==> r == url.subrange(0, j)
}

/// The `scheme://host[:port]` part of `url`, written as it stands in `url`.
/// A string without a scheme separator is returned unchanged.
pub fn base_origin(url: &str) -> (r: String)
    ensures
        is_origin_of(url@, r@),
{
    proof {
        reveal_strlit("://");
    }
    match find_substr(url, "://") {
        None => url.to_owned(),
        Some(i) => {
            let n: usize = url.unicode_len();
            let mut j: usize = i + 3;
            while j < n
                invariant_except_break
                    i + 3 <= j <= n,
                    n == url@.len(),
                    forall|k: int| i + 3 <= k < j ==> !is_origin_sep(#[trigger] url@[k]),
                ensures
                    i + 3 <= j <= n,
                    n == url@.len(),
                    forall|k: int| i + 3 <= k < j ==> !is_origin_sep(#[trigger] url@[k]),
                    j < n ==> is_origin_sep(url@[j as int]),
                decreases n - j,
            {
                let c: char = url.get_char(j);
                if c == '/' || c == '?' || c == '#' {
                    break ;
                }
                j = j + 1;
            }
            let t: &str = url.substring_char(0, j);
            let r = String::from_str(t);
            proof {
                assert forall|i2: int, j2: int|
                    first_match_at(url@, "://"@, i2) && origin_end_at(url@, i2 + 3, j2) implies r@
                    == url@.subrange(0, j2) by {
                    assert(i2 == i);
                    assert(origin_end_at(url@, i + 3, j as int));
                    if j2 < j {
                        assert(!is_origin_sep(url@[j2]));
                    }
                    if j2 > j {
                        assert(!is_origin_sep(url@[j as int]));
                    }
                    assert(j2 == j);
                }
            }
            r
        },
    }
}

/// An endpoint resolved against a base origin: absolute URLs stand for
/// themselves, anything else is appended to the base.
pub open spec fn resolve_spec(base: Seq<char>, ep: Seq<char>) -> Seq<char> {
    if starts_with_spec(ep, "http://"@) || starts_with_spec(ep, "https://"@) {
        ep
    } else {
        base + ep
    }
}

/// Resolves an endpoint against a base origin: absolute URLs are kept,
/// anything else is appended to the base.
pub fn resolve_endpoint(base: &str, endpoint: &str) -> (r: String)
    ensures
        r@ == resolve_spec(base@, endpoint@),
{
    if starts_with_lit(endpoint, "http://") || starts_with_lit(endpoint, "https://") {
        endpoint.to_owned()
    } else {
        base.to_owned().concat(endpoint)
    }
}

/// `i` is the position of the last `.` in `s`.
pub open spec fn last_dot_at(s: Seq<char>, i: int) -> bool {
    0 <= i < s.len() && s[i] == '.' && forall|k: int| i < k < s.len() ==> #[trigger] s[k] != '.'
}

/// The characters after the last `.` of `name`; the whole name when it has no dot.
pub fn extension_of(name: &str) -> (r: String)
    ensures
        (forall|k: int| 0 <= k < name@.len() ==> #[trigger] name@[k] != '.') ==> r@ == name@,
        forall|i: int|
            last_dot_at(name@, i) ==> r@ == name@.subrange(i + 1, name@.len() as int),
{
    let n: usize = name.unicode_len();
    let mut b: usize = n;
    while b > 0
        invariant_except_break
            0 <= b <= n,
            n == name@.len(),
            forall|k: int| b <= k < n ==> #[trigger] name@[k] != '.',
        ensures
            0 <= b <= n,
            n == name@.len(),
            forall|k: int| b <= k < n ==> #[trigger] name@[k] != '.',
            b > 0 ==> name@[b - 1] == '.',
        decreases b,
    {
        if name.get_char(b - 1) == '.' {
            break ;
        }
        b = b - 1;
    }
    if b == 0 {
        let r = name.to_owned();
        r
    } else {
        let t: &str = name.substring_char(b, n);
        let r = String::from_str(t);
        proof {
            assert(last_dot_at(name@, b - 1));
            assert forall|i: int| last_dot_at(name@, i) implies r@ == name@.subrange(
                i + 1,
                name@.len() as int,
            ) by {
                if i < b - 1 {
                    assert(name@[b - 1] == '.');
                }
                if i > b - 1 {
                    assert(name@[i] == '.');
                }
                assert(i == b - 1);
            }
        }
        r
    }
}

} // verus!
