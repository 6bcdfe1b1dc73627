//! Hosted applets report the local URL they serve on in their startup
//! line on stderr (e.g. `Tool running at http://127.0.0.1:PORT — press
//! Ctrl+C to quit`); the launcher opens its own window on that URL.
use vstd::prelude::*;
use vstd::string::*;

use crate::text::{is_whitespace, whitespace};

verus! {

/// First position at or after `k` where `http://` starts in `s`.
pub open spec fn find_http_from(s: Seq<char>, k: int) -> Option<int>
    decreases s.len() - k,
{
    if k < 0 || k + 7 > s.len() {
        None
    } else if s.subrange(k, k + 7) == "http://"@ {
        Some(k)
    } else {
        find_http_from(s, k + 1)
    }
}

/// First position at or after `k` holding whitespace, or `s.len()`.
pub open spec fn whitespace_from(s: Seq<char>, k: int) -> int
    decreases s.len() - k,
{
    if k < 0 || k >= s.len() {
        s.len() as int
    } else if is_whitespace(s[k]) {
        k
    } else {
        whitespace_from(s, k + 1)
    }
}

/// The URL a stderr line reports: from the first `http://` up to the
/// next whitespace or the end of the line.
pub open spec fn spec_ready_url(line: Seq<char>) -> Option<Seq<char>> {
    match find_http_from(line, 0) {
        Some(k) => Some(line.subrange(k, whitespace_from(line, k))),
        None => None,
    }
}

/// The URL in a hosted applet's stderr line, if the line has one.
pub fn ready_url(line: &str) -> (res: Option<String>)
    ensures
        res.deep_view() == spec_ready_url(line@),
{
    let n = line.unicode_len();
    proof {
        reveal_strlit("http://");
        assert("http://"@ =~= seq!['h', 't', 't', 'p', ':', '/', '/']);
    }
    let mut k: usize = 0;
    let mut found = false;
    if n < 7 {
        return None;
    }
    while k <= n - 7
        invariant_except_break
            "http://"@ == seq!['h', 't', 't', 'p', ':', '/', '/'],
            n == line@.len(),
            find_http_from(line@, 0) == find_http_from(line@, k as int),
            !found,
        invariant
            n == line@.len(),
            7 <= n,
            k <= n,
        ensures
            found ==> k + 7 <= n && find_http_from(line@, 0) == Some(k as int),
            !found ==> find_http_from(line@, 0) is None,
        decreases n - k,
    {
        let sub = line.substring_char(k, k + 7);
        if crate::text::str_eq(sub, "http://") {
            found = true;
            break;
        }
        k = k + 1;
    }
    if !found {
        return None;
    }
    let mut e: usize = k;
    while e < n && !whitespace(line.get_char(e))
        invariant
            n == line@.len(),
            k <= e <= n,
            whitespace_from(line@, k as int) == whitespace_from(line@, e as int),
        decreases n - e,
    {
        e = e + 1;
    }
    Some(line.substring_char(k, e).to_owned())
}

/// Whether `http://` starts at position `q` of `s`.
pub open spec fn http_at(s: Seq<char>, q: int) -> bool {
    0 <= q && q + 7 <= s.len() && s.subrange(q, q + 7) == "http://"@
}

proof fn lemma_find_http_from(s: Seq<char>, k: int)
    requires
        0 <= k,
    ensures
        match find_http_from(s, k) {
            Some(p) => k <= p && http_at(s, p) && forall|q: int| k <= q < p ==> !#[trigger] http_at(s, q),
            None => forall|q: int| k <= q ==> !#[trigger] http_at(s, q),
        },
    decreases s.len() - k,
{
    if k + 7 <= s.len() && s.subrange(k, k + 7) != "http://"@ {
        lemma_find_http_from(s, k + 1);
    }
}

proof fn lemma_whitespace_from(s: Seq<char>, k: int)
    requires
        0 <= k <= s.len(),
    ensures
        k <= whitespace_from(s, k) <= s.len(),
        forall|q: int| k <= q < whitespace_from(s, k) ==> !is_whitespace(#[trigger] s[q]),
        whitespace_from(s, k) == s.len() || is_whitespace(s[whitespace_from(s, k)]),
    decreases s.len() - k,
{
    if k < s.len() && !is_whitespace(s[k]) {
        lemma_whitespace_from(s, k + 1);
    }
}

/// The ready URL is read from the first `http://` of the line up to the
/// next whitespace: it starts with `http://`, holds no whitespace, is
/// followed in the line by whitespace or the end, and no earlier
/// position starts `http://`. A line without `http://` reports nothing.
pub proof fn law_ready_url_is_first_http_word(line: Seq<char>)
    ensures
        match spec_ready_url(line) {
            Some(u) => exists|p: int|
                {
                    &&& #[trigger] http_at(line, p)
                    &&& p + u.len() <= line.len()
                    &&& line.subrange(p, p + u.len()) == u
                    &&& u.len() >= 7
                    &&& u.subrange(0, 7) == "http://"@
                    &&& forall|i: int| 0 <= i < u.len() ==> !is_whitespace(#[trigger] u[i])
                    &&& (p + u.len() == line.len() || is_whitespace(line[p + u.len()]))
                    &&& forall|q: int| 0 <= q < p ==> !#[trigger] http_at(line, q)
                },
            None => forall|q: int| 0 <= q ==> !#[trigger] http_at(line, q),
        },
{
    lemma_find_http_from(line, 0);
    if let Some(p) = find_http_from(line, 0) {
        lemma_whitespace_from(line, p);
        reveal_strlit("http://");
        let e = whitespace_from(line, p);
        let u = line.subrange(p, e);
        assert(line.subrange(p, p + 7) == "http://"@);
        assert(forall|q: int| p <= q < p + 7 ==> line[q] == "http://"@[q - p]);
        assert(!is_whitespace('h'));
        assert(!is_whitespace(':'));
        assert(!is_whitespace('/'));
        assert(!is_whitespace('t'));
        assert(!is_whitespace('p'));
        assert forall|q: int| p <= q < p + 7 implies !is_whitespace(#[trigger] line[q]) by {
            assert(line.subrange(p, p + 7)[q - p] == line[q]);
        }
        assert(e >= p + 7) by {
            if e < p + 7 {
                assert(is_whitespace(line[e]));
            }
        }
        assert(u.subrange(0, 7) =~= line.subrange(p, p + 7));
        assert forall|i: int| 0 <= i < u.len() implies !is_whitespace(#[trigger] u[i]) by {
            assert(u[i] == line[p + i]);
        }
        assert(line.subrange(p, p + u.len()) == u);
        assert(http_at(line, p));
    }
}

} // verus!
