//! Parsing and validation of incoming `securexe://` links.
//!
//! `owner`/`repo`/`commit` are validated against a strict charset before a
//! [`RunRequest`] can be built, because they end up as local filesystem
//! path segments (`~/.securexe/apps/<slug>/<commit>/...`); `exp`/`sig` are
//! required and checked against the website's signing key, since the OS
//! gives the launcher no way to know which page a custom-scheme link came
//! from.
use vstd::prelude::*;
use vstd::string::*;

use crate::error::{LauncherError, SpecError};
use crate::signature::{
    check_view, link_message, run_message, signed_outcome, verify_at, verify_link_at,
};
use crate::clock::now_unix_seconds;
use crate::text::{ascii_alnum, hex_digit, is_ascii_alnum, is_hex_digit, str_eq};

verus! {

/// The parts of a parsed URL the launcher reads: scheme, host (if any),
/// and the decoded `name=value` pairs of the query, in order.
pub struct UrlParts {
    pub scheme: String,
    pub host: Option<String>,
    pub query: Vec<(String, String)>,
}

/// The mathematical value of [`UrlParts`].
pub type UrlView = (Seq<char>, Option<Seq<char>>, Seq<(Seq<char>, Seq<char>)>);

impl View for UrlParts {
    type V = (Seq<char>, Option<Seq<char>>, Seq<(Seq<char>, Seq<char>)>);

    open spec fn view(&self) -> (Seq<char>, Option<Seq<char>>, Seq<(Seq<char>, Seq<char>)>) {
        (self.scheme@, self.host.deep_view(), self.query.deep_view())
    }
}

/// What `url::Url::parse` makes of `raw`: on success its `scheme()`,
/// `host_str()` and `query_pairs()`; on failure the parse error's text.
pub uninterp spec fn spec_url_parse(raw: Seq<char>) -> Result<
    (Seq<char>, Option<Seq<char>>, Seq<(Seq<char>, Seq<char>)>),
    Seq<char>,
>;

/// The view of a URL parse result.
pub open spec fn url_result_view(r: Result<UrlParts, String>) -> Result<UrlView, Seq<char>> {
    match r {
        Ok(p) => Ok(p@),
        Err(e) => Err(e@),
    }
}

/// Parses a URL with `url::Url::parse` and reads off its scheme, host and
/// query pairs (`scheme()`, `host_str()`, `query_pairs()`); on failure,
/// the error's `Display` text.
#[verifier::external_body]
pub(crate) fn parse_url(raw: &str) -> (res: Result<UrlParts, String>)
    ensures
        url_result_view(res) == spec_url_parse(raw@),
{
    match url::Url::parse(raw) {
        Ok(u) => Ok(UrlParts {
            scheme: u.scheme().to_string(),
            host: u.host_str().map(|h| h.to_string()),
            query: u.query_pairs().map(|(k, v)| (k.into_owned(), v.into_owned())).collect(),
        }),
        Err(e) => Err(e.to_string()),
    }
}

/// The value of the last `key=...` pair in `query`, if any (later pairs
/// override earlier ones).
pub open spec fn query_value(query: Seq<(Seq<char>, Seq<char>)>, key: Seq<char>) -> Option<Seq<char>>
    decreases query.len(),
{
    if query.len() == 0 {
        None
    } else if query.last().0 == key {
        Some(query.last().1)
    } else {
        query_value(query.drop_last(), key)
    }
}

/// Index of the first `c` in `s`, or `s.len()` if there is none.
pub open spec fn index_of(s: Seq<char>, c: char) -> int
    decreases s.len(),
{
    if s.len() == 0 {
        0
    } else if s[0] == c {
        0
    } else {
        1 + index_of(s.drop_first(), c)
    }
}

/// `owner/repo` split at the first `/` (`splitn(2, '/')`): the part
/// before it (all of `s` if there is none)…
pub open spec fn owner_part(s: Seq<char>) -> Seq<char> {
    s.take(index_of(s, '/'))
}

/// …and the part after it (empty if there is none).
pub open spec fn repo_part(s: Seq<char>) -> Seq<char> {
    if index_of(s, '/') < s.len() {
        s.skip(index_of(s, '/') + 1)
    } else {
        Seq::empty()
    }
}

proof fn lemma_index_of(s: Seq<char>, c: char, k: int)
    requires
        0 <= k <= s.len(),
        forall|j: int| 0 <= j < k ==> s[j] != c,
        k == s.len() || s[k] == c,
    ensures
        index_of(s, c) == k,
    decreases s.len(),
{
    if s.len() > 0 && k > 0 {
        lemma_index_of(s.drop_first(), c, k - 1);
    }
}

/// Characters allowed in a path segment: ASCII letters, digits, `-`,
/// `_`, `.`.
pub open spec fn is_segment_char(c: char) -> bool {
    is_ascii_alnum(c) || c == '-' || c == '_' || c == '.'
}

/// Safe both as a URL path segment and as a filesystem path segment: 1 to
/// 100 allowed characters (all ASCII, so characters and bytes agree), not
/// starting with `.` — so no `/`, no `.` or `..` traversal, no hidden
/// (dot-file) segment and no empty one.
pub open spec fn spec_is_safe_segment(s: Seq<char>) -> bool {
    &&& 0 < s.len() <= 100
    &&& s[0] != '.'
    &&& forall|i: int| 0 <= i < s.len() ==> is_segment_char(#[trigger] s[i])
}

/// A commit: 1 to 64 hex digits.
pub open spec fn spec_is_safe_commit(s: Seq<char>) -> bool {
    &&& 0 < s.len() <= 64
    &&& forall|i: int| 0 <= i < s.len() ==> is_hex_digit(#[trigger] s[i])
}

/// A username: 1 to 64 ASCII letters, digits or `-`.
pub open spec fn spec_is_safe_username(s: Seq<char>) -> bool {
    &&& 0 < s.len() <= 64
    &&& forall|i: int| 0 <= i < s.len() ==> (is_ascii_alnum(#[trigger] s[i]) || s[i] == '-')
}

/// An `owner/repo` pair whose two halves are both safe segments.
pub open spec fn spec_is_safe_repo_path(s: Seq<char>) -> bool {
    spec_is_safe_segment(owner_part(s)) && spec_is_safe_segment(repo_part(s))
}

fn is_safe_segment(s: &str) -> (res: bool)
    ensures
        res == spec_is_safe_segment(s@),
{
    let n = s.unicode_len();
    if n == 0 || n > 100 {
        return false;
    }
    if s.get_char(0) == '.' {
        return false;
    }
    let mut i: usize = 0;
    while i < n
        invariant
            n == s@.len(),
            i <= n,
            forall|j: int| 0 <= j < i ==> is_segment_char(#[trigger] s@[j]),
        decreases n - i,
    {
        let c = s.get_char(i);
        if !(ascii_alnum(c) || c == '-' || c == '_' || c == '.') {
            return false;
        }
        i = i + 1;
    }
    true
}

/// Whether `s` is a valid commit: 1 to 64 hex digits. Also applied to the
/// commit the orchestrator resolves before it is used as a path segment.
pub fn is_safe_commit(s: &str) -> (res: bool)
    ensures
        res == spec_is_safe_commit(s@),
{
    let n = s.unicode_len();
    if n == 0 || n > 64 {
        return false;
    }
    let mut i: usize = 0;
    while i < n
        invariant
            n == s@.len(),
            i <= n,
            forall|j: int| 0 <= j < i ==> is_hex_digit(#[trigger] s@[j]),
        decreases n - i,
    {
        if !hex_digit(s.get_char(i)) {
            return false;
        }
        i = i + 1;
    }
    true
}

/// GitHub usernames are alphanumeric plus hyphens; this is a little looser
/// (up to 64, no placement rule for hyphens) since it only bounds what is
/// stored locally and sent on to the worker.
fn is_safe_username(s: &str) -> (res: bool)
    ensures
        res == spec_is_safe_username(s@),
{
    let n = s.unicode_len();
    if n == 0 || n > 64 {
        return false;
    }
    let mut i: usize = 0;
    while i < n
        invariant
            n == s@.len(),
            i <= n,
            forall|j: int| 0 <= j < i ==> (is_ascii_alnum(#[trigger] s@[j]) || s@[j] == '-'),
        decreases n - i,
    {
        let c = s.get_char(i);
        if !(ascii_alnum(c) || c == '-') {
            return false;
        }
        i = i + 1;
    }
    true
}

/// Splits `owner/repo` at its first `/` (`splitn(2, '/')`, missing parts
/// empty).
pub fn split_repo_path(s: &str) -> (res: (String, String))
    ensures
        res.0@ == owner_part(s@),
        res.1@ == repo_part(s@),
{
    let n = s.unicode_len();
    let mut k: usize = 0;
    while k < n && s.get_char(k) != '/'
        invariant
            n == s@.len(),
            k <= n,
            forall|j: int| 0 <= j < k ==> s@[j] != '/',
        decreases n - k,
    {
        k = k + 1;
    }
    proof {
        lemma_index_of(s@, '/', k as int);
    }
    let owner = s.substring_char(0, k).to_owned();
    let repo = if k < n {
        s.substring_char(k + 1, n).to_owned()
    } else {
        String::new()
    };
    proof {
        assert(s@.subrange(0, k as int) =~= s@.take(k as int));
        if k < n {
            assert(s@.subrange(k + 1, n as int) =~= s@.skip(k + 1));
        }
    }
    (owner, repo)
}

/// Whether `s` is an `owner/repo` pair of two safe segments — the check
/// every command that takes a repo from the webview applies first.
pub fn is_safe_repo_path(s: &str) -> (res: bool)
    ensures
        res == spec_is_safe_repo_path(s@),
{
    let (owner, repo) = split_repo_path(s);
    is_safe_segment(owner.as_str()) && is_safe_segment(repo.as_str())
}


/// A parsed, validated, signature-checked
/// `securexe://run?repo=owner/repo&commit=<sha>&exp=<unix_ts>&sig=<hex>`
/// request.
pub struct RunRequest {
    pub owner: String,
    pub repo: String,
    pub commit: Option<String>,
}

impl View for RunRequest {
    type V = (Seq<char>, Seq<char>, Option<Seq<char>>);

    open spec fn view(&self) -> (Seq<char>, Seq<char>, Option<Seq<char>>) {
        (self.owner@, self.repo@, self.commit.deep_view())
    }
}

/// Storage-form slug of an app: `owner__repo`.
pub open spec fn slug_of(owner: Seq<char>, repo: Seq<char>) -> Seq<char> {
    owner + "__"@ + repo
}

/// `owner/repo`.
pub open spec fn repo_path_of(owner: Seq<char>, repo: Seq<char>) -> Seq<char> {
    owner + "/"@ + repo
}

impl RunRequest {
    /// Storage-form slug (`owner__repo`) — what the orchestrator's
    /// `/download` endpoint takes.
    pub fn slug(&self) -> (res: String)
        ensures
            res@ == slug_of(self.owner@, self.repo@),
    {
        let mut s = self.owner.clone();
        s.append("__");
        s.append(self.repo.as_str());
        s
    }

    /// `owner/repo`.
    pub fn repo_path(&self) -> (res: String)
        ensures
            res@ == repo_path_of(self.owner@, self.repo@),
    {
        let mut s = self.owner.clone();
        s.append("/");
        s.append(self.repo.as_str());
        s
    }
}

/// A parsed, signature-checked `securexe://link?user=...&exp=...&sig=...`
/// request — hands off a device-linking token minted by the website.
pub struct LinkRequest {
    pub user: String,
    pub exp: String,
    pub sig: String,
}

impl View for LinkRequest {
    type V = (Seq<char>, Seq<char>, Seq<char>);

    open spec fn view(&self) -> (Seq<char>, Seq<char>, Seq<char>) {
        (self.user@, self.exp@, self.sig@)
    }
}

/// The host of a URL, or empty (`host_str().unwrap_or_default()`).
pub open spec fn host_or_empty(host: Option<Seq<char>>) -> Seq<char> {
    match host {
        Some(h) => h,
        None => Seq::empty(),
    }
}

/// `"<what> '<value>'"`, the shape of every rejection naming a value.
pub open spec fn quoted(what: Seq<char>, value: Seq<char>) -> Seq<char> {
    what + " '"@ + value + "'"@
}

/// The commit a run link pins: its `commit` parameter when present and
/// non-empty.
pub open spec fn pinned_commit(query: Seq<(Seq<char>, Seq<char>)>) -> Option<Seq<char>> {
    match query_value(query, "commit"@) {
        Some(c) => if c.len() > 0 {
            Some(c)
        } else {
            None
        },
        None => None,
    }
}

/// What a run link's scheme, action and parameters make of it when the
/// clock reads `now` — in the order the checks are made.
pub open spec fn run_request_outcome(url: UrlView, now: u64) -> Result<
    (Seq<char>, Seq<char>, Option<Seq<char>>),
    SpecError,
> {
    let (scheme, host, query) = url;
    if scheme != "securexe"@ {
        Err(SpecError::InvalidUrl(quoted("unsupported scheme"@, scheme)))
    } else if host_or_empty(host) != "run"@ {
        Err(SpecError::InvalidUrl(quoted("unsupported action"@, host_or_empty(host))))
    } else {
        match query_value(query, "repo"@) {
            None => Err(SpecError::InvalidUrl("missing repo"@)),
            Some(rp) => {
                let owner = owner_part(rp);
                let repo = repo_part(rp);
                if !spec_is_safe_segment(owner) || !spec_is_safe_segment(repo) {
                    Err(SpecError::InvalidUrl(quoted("invalid repo"@, rp)))
                } else if pinned_commit(query) is Some && !spec_is_safe_commit(
                    pinned_commit(query)->0,
                ) {
                    Err(SpecError::InvalidUrl(quoted("invalid commit"@, pinned_commit(query)->0)))
                } else {
                    match query_value(query, "exp"@) {
                        None => Err(SpecError::Unauthorized("missing exp"@)),
                        Some(exp) => match query_value(query, "sig"@) {
                            None => Err(SpecError::Unauthorized("missing sig"@)),
                            Some(sig) => match signed_outcome(
                                run_message(repo_path_of(owner, repo), pinned_commit(query), exp),
                                exp,
                                sig,
                                now,
                            ) {
                                Ok(_) => Ok((owner, repo, pinned_commit(query))),
                                Err(e) => Err(e),
                            },
                        },
                    }
                }
            },
        }
    }
}

/// What a device-linking link makes of it when the clock reads `now`.
pub open spec fn link_request_outcome(url: UrlView, now: u64) -> Result<
    (Seq<char>, Seq<char>, Seq<char>),
    SpecError,
> {
    let (scheme, host, query) = url;
    if scheme != "securexe"@ {
        Err(SpecError::InvalidUrl(quoted("unsupported scheme"@, scheme)))
    } else if host_or_empty(host) != "link"@ {
        Err(SpecError::InvalidUrl(quoted("unsupported action"@, host_or_empty(host))))
    } else {
        match query_value(query, "user"@) {
            None => Err(SpecError::InvalidUrl("missing user"@)),
            Some(user) => if !spec_is_safe_username(user) {
                Err(SpecError::InvalidUrl(quoted("invalid user"@, user)))
            } else {
                match query_value(query, "exp"@) {
                    None => Err(SpecError::Unauthorized("missing exp"@)),
                    Some(exp) => match query_value(query, "sig"@) {
                        None => Err(SpecError::Unauthorized("missing sig"@)),
                        Some(sig) => match signed_outcome(link_message(user, exp), exp, sig, now) {
                            Ok(_) => Ok((user, exp, sig)),
                            Err(e) => Err(e),
                        },
                    },
                }
            },
        }
    }
}

/// What a raw run link makes of it at time `now`, parse errors included.
pub open spec fn run_url_outcome(raw: Seq<char>, now: u64) -> Result<
    (Seq<char>, Seq<char>, Option<Seq<char>>),
    SpecError,
> {
    match spec_url_parse(raw) {
        Err(e) => Err(SpecError::InvalidUrl(e)),
        Ok(url) => run_request_outcome(url, now),
    }
}

/// What a raw device-linking link makes of it at time `now`.
pub open spec fn link_url_outcome(raw: Seq<char>, now: u64) -> Result<
    (Seq<char>, Seq<char>, Seq<char>),
    SpecError,
> {
    match spec_url_parse(raw) {
        Err(e) => Err(SpecError::InvalidUrl(e)),
        Ok(url) => link_request_outcome(url, now),
    }
}

/// The view of a parse result.
pub open spec fn request_view<T: View>(r: Result<T, LauncherError>) -> Result<T::V, SpecError> {
    match r {
        Ok(v) => Ok(v@),
        Err(e) => Err(e@),
    }
}

/// The value of the last `key=...` pair in `query`, if any.
fn last_value(query: &Vec<(String, String)>, key: &str) -> (res: Option<String>)
    ensures
        res.deep_view() == query_value(query.deep_view(), key@),
{
    let ghost q = query.deep_view();
    let mut found: Option<String> = None;
    let mut i: usize = 0;
    while i < query.len()
        invariant
            q == query.deep_view(),
            i <= query.len(),
            found.deep_view() == query_value(q.take(i as int), key@),
        decreases query.len() - i,
    {
        assert(q.take(i + 1).drop_last() =~= q.take(i as int));
        assert(q.take(i + 1).last() == (query[i as int].0@, query[i as int].1@));
        if str_eq(query[i].0.as_str(), key) {
            found = Some(query[i].1.clone());
        }
        i = i + 1;
    }
    assert(q.take(query.len() as int) =~= q);
    found
}

fn quoted_error(what: &str, value: &str) -> (res: String)
    ensures
        res@ == quoted(what@, value@),
{
    let mut m = what.to_owned();
    m.append(" '");
    m.append(value);
    m.append("'");
    m
}

/// Checks a parsed run link at time `now` and builds the request.
pub fn run_request_from_parts(url: &UrlParts, now: u64) -> (res: Result<RunRequest, LauncherError>)
    ensures
        request_view(res) == run_request_outcome(url@, now),
{
    if !str_eq(url.scheme.as_str(), "securexe") {
        return Err(LauncherError::InvalidUrl(quoted_error("unsupported scheme", url.scheme.as_str())));
    }
    let action: &str = match &url.host {
        Some(h) => h.as_str(),
        None => "",
    };
    proof {
        reveal_strlit("");
        assert(""@ =~= Seq::<char>::empty());
    }
    if !str_eq(action, "run") {
        return Err(LauncherError::InvalidUrl(quoted_error("unsupported action", action)));
    }
    let repo_param = last_value(&url.query, "repo");
    let commit_param = last_value(&url.query, "commit");
    let exp_param = last_value(&url.query, "exp");
    let sig_param = last_value(&url.query, "sig");
    let repo_param = match repo_param {
        Some(r) => r,
        None => return Err(LauncherError::InvalidUrl("missing repo".to_owned())),
    };
    let (owner, repo) = split_repo_path(repo_param.as_str());
    if !is_safe_segment(owner.as_str()) || !is_safe_segment(repo.as_str()) {
        return Err(LauncherError::InvalidUrl(quoted_error("invalid repo", repo_param.as_str())));
    }
    let commit: Option<String> = match commit_param {
        Some(c) => {
            if c.as_str().unicode_len() > 0 {
                if !is_safe_commit(c.as_str()) {
                    return Err(LauncherError::InvalidUrl(quoted_error("invalid commit", c.as_str())));
                }
                Some(c)
            } else {
                None
            }
        },
        None => None,
    };
    let exp = match exp_param {
        Some(e) => e,
        None => return Err(LauncherError::Unauthorized("missing exp".to_owned())),
    };
    let sig = match sig_param {
        Some(s) => s,
        None => return Err(LauncherError::Unauthorized("missing sig".to_owned())),
    };
    let mut repo_path = owner.clone();
    repo_path.append("/");
    repo_path.append(repo.as_str());
    let commit_ref: Option<&str> = match &commit {
        Some(c) => Some(c.as_str()),
        None => None,
    };
    match verify_at(repo_path.as_str(), commit_ref, exp.as_str(), sig.as_str(), now) {
        Ok(()) => Ok(RunRequest { owner, repo, commit }),
        Err(e) => Err(e),
    }
}

/// Checks a parsed device-linking link at time `now` and builds the request.
pub fn link_request_from_parts(url: &UrlParts, now: u64) -> (res: Result<LinkRequest, LauncherError>)
    ensures
        request_view(res) == link_request_outcome(url@, now),
{
    if !str_eq(url.scheme.as_str(), "securexe") {
        return Err(LauncherError::InvalidUrl(quoted_error("unsupported scheme", url.scheme.as_str())));
    }
    let action: &str = match &url.host {
        Some(h) => h.as_str(),
        None => "",
    };
    proof {
        reveal_strlit("");
        assert(""@ =~= Seq::<char>::empty());
    }
    if !str_eq(action, "link") {
        return Err(LauncherError::InvalidUrl(quoted_error("unsupported action", action)));
    }
    let user_param = last_value(&url.query, "user");
    let exp_param = last_value(&url.query, "exp");
    let sig_param = last_value(&url.query, "sig");
    let user = match user_param {
        Some(u) => u,
        None => return Err(LauncherError::InvalidUrl("missing user".to_owned())),
    };
    if !is_safe_username(user.as_str()) {
        return Err(LauncherError::InvalidUrl(quoted_error("invalid user", user.as_str())));
    }
    let exp = match exp_param {
        Some(e) => e,
        None => return Err(LauncherError::Unauthorized("missing exp".to_owned())),
    };
    let sig = match sig_param {
        Some(s) => s,
        None => return Err(LauncherError::Unauthorized("missing sig".to_owned())),
    };
    match verify_link_at(user.as_str(), exp.as_str(), sig.as_str(), now) {
        Ok(()) => Ok(LinkRequest { user, exp, sig }),
        Err(e) => Err(e),
    }
}

/// Parses and checks a run link at time `now`.
pub fn parse_run_url_at(raw: &str, now: u64) -> (res: Result<RunRequest, LauncherError>)
    ensures
        request_view(res) == run_url_outcome(raw@, now),
{
    match parse_url(raw) {
        Ok(parts) => run_request_from_parts(&parts, now),
        Err(e) => Err(LauncherError::InvalidUrl(e)),
    }
}

/// Parses and checks a device-linking link at time `now`.
pub fn parse_link_url_at(raw: &str, now: u64) -> (res: Result<LinkRequest, LauncherError>)
    ensures
        request_view(res) == link_url_outcome(raw@, now),
{
    match parse_url(raw) {
        Ok(parts) => link_request_from_parts(&parts, now),
        Err(e) => Err(LauncherError::InvalidUrl(e)),
    }
}

/// Parses and checks a `securexe://run` link against the current time.
/// Whatever the clock reads, the result is what [`parse_run_url_at`]
/// gives for that reading.
pub fn parse_run_url(raw: &str) -> (res: Result<RunRequest, LauncherError>)
    ensures
        exists|now: u64| request_view(res) == run_url_outcome(raw@, now),
{
    let now = now_unix_seconds();
    parse_run_url_at(raw, now)
}

/// Parses and checks a `securexe://link` link against the current time.
pub fn parse_link_url(raw: &str) -> (res: Result<LinkRequest, LauncherError>)
    ensures
        exists|now: u64| request_view(res) == link_url_outcome(raw@, now),
{
    let now = now_unix_seconds();
    parse_link_url_at(raw, now)
}


/// An accepted run link names only what is safe as path segments — owner
/// and repo are safe segments (no `/`, not `.` or `..`), a pinned commit
/// is hex — and carries a signature the site's key accepts over exactly
/// `owner/repo|commit|exp` inside its validity window.
pub proof fn law_run_request_is_safe_and_signed(url: UrlView, now: u64)
    ensures
        run_request_outcome(url, now) matches Ok(req) ==> {
            &&& spec_is_safe_segment(req.0)
            &&& spec_is_safe_segment(req.1)
            &&& (req.2 matches Some(c) ==> spec_is_safe_commit(c))
            &&& req.2 == pinned_commit(url.2)
            &&& query_value(url.2, "exp"@) is Some
            &&& query_value(url.2, "sig"@) is Some
            &&& signed_outcome(
                run_message(repo_path_of(req.0, req.1), req.2, query_value(url.2, "exp"@)->0),
                query_value(url.2, "exp"@)->0,
                query_value(url.2, "sig"@)->0,
                now,
            ) is Ok
        },
{
}

/// A safe segment is a single, visible path component: it contains no
/// `/` or `\`, and it is neither `.`, `..` nor a hidden `.name`.
pub proof fn law_safe_segment_is_one_visible_component(s: Seq<char>)
    requires
        spec_is_safe_segment(s),
    ensures
        forall|i: int| 0 <= i < s.len() ==> s[i] != '/' && s[i] != '\\',
        s[0] != '.',
        s != seq!['.'],
        s != seq!['.', '.'],
{
    assert forall|i: int| 0 <= i < s.len() implies s[i] != '/' && s[i] != '\\' by {
        assert(is_segment_char(s[i]));
    }
    assert(seq!['.'][0] == '.');
    assert(seq!['.', '.'][0] == '.');
}

/// An accepted device-linking link names a safe username and carries a
/// signature the site's key accepts over `link|user|exp`.
pub proof fn law_link_request_is_signed(url: UrlView, now: u64)
    ensures
        link_request_outcome(url, now) matches Ok(req) ==> {
            &&& spec_is_safe_username(req.0)
            &&& signed_outcome(link_message(req.0, req.1), req.1, req.2, now) is Ok
        },
{
}

/// The pieces of an accepted run link give back its `repo` parameter:
/// `repo_path()` is exactly the `owner/repo` the link named.
pub proof fn law_repo_path_roundtrip(url: UrlView, now: u64)
    ensures
        run_request_outcome(url, now) matches Ok(req) ==> query_value(url.2, "repo"@) == Some(
            repo_path_of(req.0, req.1),
        ),
{
    if let Ok(req) = run_request_outcome(url, now) {
        let rp = query_value(url.2, "repo"@)->0;
        let k = index_of(rp, '/');
        lemma_index_of_facts(rp, '/');
        assert(k < rp.len()) by {
            if k >= rp.len() {
                assert(repo_part(rp) =~= Seq::<char>::empty());
            }
        }
        reveal_strlit("/");
        assert("/"@ =~= seq!['/']);
        assert(rp =~= rp.take(k) + "/"@ + rp.skip(k + 1));
    }
}

/// `index_of` is the position of the first `c`, or the length if there
/// is none.
pub proof fn lemma_index_of_facts(s: Seq<char>, c: char)
    ensures
        0 <= index_of(s, c) <= s.len(),
        index_of(s, c) < s.len() ==> s[index_of(s, c)] == c,
        forall|j: int| 0 <= j < index_of(s, c) ==> s[j] != c,
    decreases s.len(),
{
    if s.len() > 0 && s[0] != c {
        lemma_index_of_facts(s.drop_first(), c);
        assert forall|j: int| 0 <= j < index_of(s, c) implies s[j] != c by {
            if j > 0 {
                assert(s[j] == s.drop_first()[j - 1]);
            }
        }
    }
}

/// Which segments are safe, in plain terms: 1 to 100 characters, each an
/// ASCII letter of either case, a digit, `-`, `_` or `.`, and not
/// starting with `.`.
pub proof fn law_safe_segment_charset(s: Seq<char>)
    ensures
        spec_is_safe_segment(s) <==> {
            &&& 1 <= s.len() <= 100
            &&& s[0] != '.'
            &&& forall|i: int|
                #![trigger s[i]]
                0 <= i < s.len() ==> (('0' <= s[i] && s[i] <= '9') || ('a' <= s[i] && s[i] <= 'z') || (
                'A' <= s[i] && s[i] <= 'Z') || s[i] == '-' || s[i] == '_' || s[i] == '.')
        },
{
}

/// Which commits are valid, in plain terms: 1 to 64 hex digits of either
/// case.
pub proof fn law_safe_commit_charset(s: Seq<char>)
    ensures
        spec_is_safe_commit(s) <==> {
            &&& 1 <= s.len() <= 64
            &&& forall|i: int|
                #![trigger s[i]]
                0 <= i < s.len() ==> (('0' <= s[i] && s[i] <= '9') || ('a' <= s[i] && s[i] <= 'f') || (
                'A' <= s[i] && s[i] <= 'F'))
        },
{
}

/// Which usernames are accepted, in plain terms: 1 to 64 characters, each
/// an ASCII letter of either case, a digit or `-` (GitHub's alphabet).
pub proof fn law_safe_username_charset(s: Seq<char>)
    ensures
        spec_is_safe_username(s) <==> {
            &&& 1 <= s.len() <= 64
            &&& forall|i: int|
                #![trigger s[i]]
                0 <= i < s.len() ==> (('0' <= s[i] && s[i] <= '9') || ('a' <= s[i] && s[i] <= 'z') || (
                'A' <= s[i] && s[i] <= 'Z') || s[i] == '-')
        },
{
}

/// A segment in plain terms (see [`law_safe_segment_charset`]).
proof fn lemma_plain_segment(s: Seq<char>)
    requires
        1 <= s.len() <= 100,
        s[0] != '.',
        forall|i: int|
            #![trigger s[i]]
            0 <= i < s.len() ==> (('0' <= s[i] && s[i] <= '9') || ('a' <= s[i] && s[i] <= 'z') || (
            'A' <= s[i] && s[i] <= 'Z') || s[i] == '-' || s[i] == '_' || s[i] == '.'),
    ensures
        spec_is_safe_segment(s),
        forall|i: int| 0 <= i < s.len() ==> s[i] != '/',
{
    law_safe_segment_charset(s);
}

/// `owner/repo` splits back into `owner` and `repo` when `owner` has no
/// `/`.
proof fn lemma_split_joined(owner: Seq<char>, repo: Seq<char>)
    requires
        forall|i: int| 0 <= i < owner.len() ==> owner[i] != '/',
    ensures
        owner_part(owner + "/"@ + repo) == owner,
        repo_part(owner + "/"@ + repo) == repo,
{
    reveal_strlit("/");
    assert("/"@ =~= seq!['/']);
    let rp = owner + "/"@ + repo;
    assert forall|j: int| 0 <= j < owner.len() implies rp[j] != '/' by {
        assert(rp[j] == owner[j]);
    }
    assert(rp[owner.len() as int] == '/');
    lemma_index_of(rp, '/', owner.len() as int);
    assert(rp.take(owner.len() as int) =~= owner);
    assert(rp.skip(owner.len() + 1int) =~= repo);
}

/// Every properly signed run link is accepted: a `securexe://run` link
/// whose `repo` is `owner/repo` with both parts plain segments (1 to 100
/// ASCII letters of either case, digits, `-`, `_`, `.`, not starting with
/// `.`), whose `commit` is absent, empty or 1 to 64 hex digits, and whose
/// signature over `owner/repo|commit|exp` checks out at `now`, gives back
/// exactly that owner, repo and (non-empty) commit.
pub proof fn law_signed_run_link_accepted(
    query: Seq<(Seq<char>, Seq<char>)>,
    owner: Seq<char>,
    repo: Seq<char>,
    commit: Option<Seq<char>>,
    exp: Seq<char>,
    sig: Seq<char>,
    now: u64,
)
    requires
        query_value(query, "repo"@) == Some(owner + "/"@ + repo),
        1 <= owner.len() <= 100,
        owner[0] != '.',
        forall|i: int|
            #![trigger owner[i]]
            0 <= i < owner.len() ==> (('0' <= owner[i] && owner[i] <= '9') || ('a' <= owner[i]
                && owner[i] <= 'z') || ('A' <= owner[i] && owner[i] <= 'Z') || owner[i] == '-'
                || owner[i] == '_' || owner[i] == '.'),
        1 <= repo.len() <= 100,
        repo[0] != '.',
        forall|i: int|
            #![trigger repo[i]]
            0 <= i < repo.len() ==> (('0' <= repo[i] && repo[i] <= '9') || ('a' <= repo[i] && repo[i]
                <= 'z') || ('A' <= repo[i] && repo[i] <= 'Z') || repo[i] == '-' || repo[i] == '_'
                || repo[i] == '.'),
        query_value(query, "commit"@) == commit,
        commit matches Some(c) ==> c.len() <= 64 && forall|i: int|
            #![trigger c[i]]
            0 <= i < c.len() ==> (('0' <= c[i] && c[i] <= '9') || ('a' <= c[i] && c[i] <= 'f') || (
            'A' <= c[i] && c[i] <= 'F')),
        query_value(query, "exp"@) == Some(exp),
        query_value(query, "sig"@) == Some(sig),
        signed_outcome(
            run_message(
                owner + "/"@ + repo,
                match commit {
                    Some(c) => if c.len() > 0 { Some(c) } else { None },
                    None => None,
                },
                exp,
            ),
            exp,
            sig,
            now,
        ) is Ok,
    ensures
        run_request_outcome(("securexe"@, Some("run"@), query), now) == Ok::<
            (Seq<char>, Seq<char>, Option<Seq<char>>),
            SpecError,
        >(
            (
                owner,
                repo,
                match commit {
                    Some(c) => if c.len() > 0 { Some(c) } else { None },
                    None => None,
                },
            ),
        ),
{
    lemma_plain_segment(owner);
    lemma_plain_segment(repo);
    lemma_split_joined(owner, repo);
    if let Some(c) = commit {
        if c.len() > 0 {
            law_safe_commit_charset(c);
        }
    }
}

/// Every properly signed device-linking link is accepted: a
/// `securexe://link` link whose `user` is 1 to 64 ASCII letters of either
/// case, digits or `-`, and whose signature over `link|user|exp` checks
/// out at `now`, gives back that user, expiry and signature.
pub proof fn law_signed_link_accepted(
    query: Seq<(Seq<char>, Seq<char>)>,
    user: Seq<char>,
    exp: Seq<char>,
    sig: Seq<char>,
    now: u64,
)
    requires
        query_value(query, "user"@) == Some(user),
        1 <= user.len() <= 64,
        forall|i: int|
            #![trigger user[i]]
            0 <= i < user.len() ==> (('0' <= user[i] && user[i] <= '9') || ('a' <= user[i] && user[i]
                <= 'z') || ('A' <= user[i] && user[i] <= 'Z') || user[i] == '-'),
        query_value(query, "exp"@) == Some(exp),
        query_value(query, "sig"@) == Some(sig),
        signed_outcome(link_message(user, exp), exp, sig, now) is Ok,
    ensures
        link_request_outcome(("securexe"@, Some("link"@), query), now) == Ok::<
            (Seq<char>, Seq<char>, Seq<char>),
            SpecError,
        >((user, exp, sig)),
{
    law_safe_username_charset(user);
}

/// A repo argument is safe exactly when it is `owner/repo` with both
/// parts safe segments; text with no `/` is never safe.
pub proof fn law_safe_repo_path_is_two_segments(owner: Seq<char>, repo: Seq<char>, s: Seq<char>)
    ensures
        (forall|i: int| 0 <= i < owner.len() ==> owner[i] != '/') ==> (spec_is_safe_repo_path(
            owner + "/"@ + repo,
        ) <==> spec_is_safe_segment(owner) && spec_is_safe_segment(repo)),
        (forall|i: int| 0 <= i < s.len() ==> s[i] != '/') ==> !spec_is_safe_repo_path(s),
{
    if forall|i: int| 0 <= i < owner.len() ==> owner[i] != '/' {
        lemma_split_joined(owner, repo);
    }
    if forall|i: int| 0 <= i < s.len() ==> s[i] != '/' {
        lemma_index_of(s, '/', s.len() as int);
        assert(repo_part(s) =~= Seq::<char>::empty());
    }
}

} // verus!
