//! The orchestrator (`worker.brightencode.com`) as the launcher sees it:
//! the shapes of its replies, the request URLs, and how each reply is
//! judged. The HTTP round trips themselves are the caller's.
use vstd::prelude::*;
use vstd::string::*;
use vstd::utf8::encode_utf8;

use crate::codec::{spec_urlencode, urlencode_bytes};
use crate::error::{LauncherError, SpecError};
use crate::text::str_eq;

verus! {

/// Pinned host the launcher is allowed to talk to. Links never carry a
/// host (see `repo`); this is the one place that decides where downloads
/// come from.
pub open spec fn orchestrator_base() -> Seq<char> {
    "https://worker.brightencode.com"@
}

fn base() -> (res: String)
    ensures
        res@ == orchestrator_base(),
{
    "https://worker.brightencode.com".to_owned()
}

/// One build of a repo for one platform, as listed in a manifest or a
/// search result.
pub struct Artifact {
    pub os: String,
    pub arch: String,
    pub file: Option<String>,
    pub sha256: Option<String>,
    pub success: bool,
}

/// The mathematical value of an [`Artifact`].
pub struct ArtifactView {
    pub os: Seq<char>,
    pub arch: Seq<char>,
    pub file: Option<Seq<char>>,
    pub sha256: Option<Seq<char>>,
    pub success: bool,
}

impl View for Artifact {
    type V = ArtifactView;

    open spec fn view(&self) -> ArtifactView {
        ArtifactView {
            os: self.os@,
            arch: self.arch@,
            file: self.file.deep_view(),
            sha256: self.sha256.deep_view(),
            success: self.success,
        }
    }
}

impl DeepView for Artifact {
    type V = ArtifactView;

    open spec fn deep_view(&self) -> ArtifactView {
        self@
    }
}

/// The commit a manifest was built from.
pub struct Source {
    pub commit: String,
}

/// `GET /manifest` — what the orchestrator knows about a repo's build.
pub struct Manifest {
    pub source: Option<Source>,
    pub artifacts: Vec<Artifact>,
}

/// One catalog entry from `GET /search` — the Browse tab's data source.
/// `icon_url` is already an absolute URL.
pub struct SearchResult {
    pub repo: String,
    pub icon_url: Option<String>,
    pub kind: Option<String>,
    pub artifacts: Vec<Artifact>,
}

/// One installed app with a newer build available, as reported by
/// `GET /updates`.
pub struct UpdateInfo {
    pub repo: String,
}

/// One record of the account-wide library, `GET /library`.
pub struct LibraryItem {
    pub repo: String,
}

/// The `os-arch` target an artifact was built for.
pub open spec fn artifact_target(a: ArtifactView) -> Seq<char> {
    a.os + "-"@ + a.arch
}

/// An artifact usable on `target`: a successful build for exactly it.
pub open spec fn serves(a: ArtifactView, target: Seq<char>) -> bool {
    a.success && artifact_target(a) == target
}

/// Index of the first artifact serving `target`.
pub open spec fn artifact_index(arts: Seq<ArtifactView>, target: Seq<char>) -> Option<int>
    decreases arts.len(),
{
    if arts.len() == 0 {
        None
    } else {
        match artifact_index(arts.drop_last(), target) {
            Some(i) => Some(i),
            None => if serves(arts.last(), target) {
                Some(arts.len() - 1)
            } else {
                None
            },
        }
    }
}

proof fn lemma_artifact_index(arts: Seq<ArtifactView>, target: Seq<char>, k: int)
    requires
        0 <= k <= arts.len(),
        forall|j: int| 0 <= j < k ==> !serves(#[trigger] arts[j], target),
        k == arts.len() || serves(arts[k], target),
    ensures
        artifact_index(arts, target) == (if k < arts.len() { Some(k) } else { None::<int> }),
    decreases arts.len(),
{
    if arts.len() > 0 {
        if k < arts.len() {
            lemma_artifact_index(arts.drop_last(), target, k);
        } else {
            lemma_artifact_index(arts.drop_last(), target, k - 1);
        }
    }
}

/// Whether `a` is a successful build for `target`.
fn artifact_serves(a: &Artifact, target: &str) -> (res: bool)
    ensures
        res == serves(a@, target@),
{
    if !a.success {
        return false;
    }
    let mut t = a.os.clone();
    t.append("-");
    t.append(a.arch.as_str());
    str_eq(t.as_str(), target)
}

/// The first artifact in `arts` serving `target`.
fn find_artifact<'a>(arts: &'a Vec<Artifact>, target: &str) -> (res: Option<&'a Artifact>)
    ensures
        match artifact_index(arts.deep_view(), target@) {
            Some(i) => res == Some(&arts@[i]) && 0 <= i < arts@.len(),
            None => res is None,
        },
{
    let ghost v = arts.deep_view();
    let mut i: usize = 0;
    while i < arts.len()
        invariant
            v == arts.deep_view(),
            i <= arts.len(),
            forall|j: int| 0 <= j < i ==> !serves(#[trigger] v[j], target@),
        decreases arts.len() - i,
    {
        assert(v[i as int] == arts@[i as int]@);
        if artifact_serves(&arts[i], target) {
            proof {
                lemma_artifact_index(v, target@, i as int);
            }
            return Some(&arts[i]);
        }
        i = i + 1;
    }
    proof {
        lemma_artifact_index(v, target@, i as int);
    }
    None
}

impl Manifest {
    /// The first successful artifact built for `target` (`os-arch`).
    pub fn artifact_for(&self, target: &str) -> (res: Option<&Artifact>)
        ensures
            match artifact_index(self.artifacts.deep_view(), target@) {
                Some(i) => res == Some(&self.artifacts@[i]) && 0 <= i < self.artifacts@.len(),
                None => res is None,
            },
    {
        find_artifact(&self.artifacts, target)
    }
}

impl SearchResult {
    /// The first successful artifact built for `target` (`os-arch`).
    pub fn artifact_for(&self, target: &str) -> (res: Option<&Artifact>)
        ensures
            match artifact_index(self.artifacts.deep_view(), target@) {
                Some(i) => res == Some(&self.artifacts@[i]) && 0 <= i < self.artifacts@.len(),
                None => res is None,
            },
    {
        find_artifact(&self.artifacts, target)
    }
}

/// A query-string component: the form-urlencoding of the UTF-8 bytes.
pub open spec fn component(s: Seq<char>) -> Seq<char> {
    spec_urlencode(encode_utf8(s))
}

fn urlencoding_component(s: &str) -> (res: String)
    ensures
        res@ == component(s@),
{
    urlencode_bytes(s.as_bytes())
}

/// `<base>/manifest?repo=<slug>[&commit=<commit>]`.
pub open spec fn spec_manifest_url(slug: Seq<char>, commit: Option<Seq<char>>) -> Seq<char> {
    let head = orchestrator_base() + "/manifest?repo="@ + component(slug);
    match commit {
        Some(c) => head + "&commit="@ + component(c),
        None => head,
    }
}

/// `<base>/download?repo=<slug>&target=<target>[&commit=<commit>]`.
pub open spec fn spec_download_url(slug: Seq<char>, target: Seq<char>, commit: Option<Seq<char>>) -> Seq<char> {
    let head = orchestrator_base() + "/download?repo="@ + component(slug) + "&target="@ + component(
        target,
    );
    match commit {
        Some(c) => head + "&commit="@ + component(c),
        None => head,
    }
}

/// The view of an optional string argument.
pub open spec fn opt_view(o: Option<&str>) -> Option<Seq<char>> {
    match o {
        Some(s) => Some(s@),
        None => None,
    }
}

/// The `/manifest` request for a slug (storage form, `owner__repo`),
/// pinned to `commit` if given.
pub fn manifest_url(slug: &str, commit: Option<&str>) -> (res: String)
    ensures
        res@ == spec_manifest_url(slug@, opt_view(commit)),
{
    let mut url = base();
    url.append("/manifest?repo=");
    url.append(urlencoding_component(slug).as_str());
    match commit {
        Some(c) => {
            url.append("&commit=");
            url.append(urlencoding_component(c).as_str());
        },
        None => {},
    }
    url
}

/// The `/download` request for a slug's build for `target`.
pub fn download_url(slug: &str, target: &str, commit: Option<&str>) -> (res: String)
    ensures
        res@ == spec_download_url(slug@, target@, opt_view(commit)),
{
    let mut url = base();
    url.append("/download?repo=");
    url.append(urlencoding_component(slug).as_str());
    url.append("&target=");
    url.append(urlencoding_component(target).as_str());
    match commit {
        Some(c) => {
            url.append("&commit=");
            url.append(urlencoding_component(c).as_str());
        },
        None => {},
    }
    url
}

/// The `/search` request: `query` forwarded as-is (empty for the whole
/// catalog); the worker does the matching.
pub fn search_url(query: Option<&str>) -> (res: String)
    ensures
        res@ == orchestrator_base() + "/search?q="@ + component(
            match query {
                Some(q) => q@,
                None => ""@,
            },
        ),
{
    let q: &str = match query {
        Some(q) => q,
        None => "",
    };
    let mut url = base();
    url.append("/search?q=");
    url.append(urlencoding_component(q).as_str());
    url
}

/// The worker's icon URL for `repo` — an always-available SVG badge (or
/// the uploaded icon), the same one the website shows.
pub fn icon_url(repo: &str) -> (res: String)
    ensures
        res@ == orchestrator_base() + "/icon?repo="@ + component(repo@),
{
    let mut url = base();
    url.append("/icon?repo=");
    url.append(urlencoding_component(repo).as_str());
    url
}

/// An endpoint of the worker, e.g. `/updates` or `/devices/link`.
pub fn worker_url(path: &str) -> (res: String)
    ensures
        res@ == orchestrator_base() + path@,
{
    let mut url = base();
    url.append(path);
    url
}

/// HTTP 2xx.
pub open spec fn is_success_status(status: u16) -> bool {
    200 <= status < 300
}

/// The judgement of a reply's status: success passes; anything else is a
/// network error naming what failed and the status line.
pub open spec fn spec_require_success(status: u16, status_text: Seq<char>, what: Seq<char>) -> Result<(), SpecError> {
    if is_success_status(status) {
        Ok(())
    } else {
        Err(SpecError::Network(what + ": "@ + status_text))
    }
}

/// The view of a check's result.
pub open spec fn unit_view(r: Result<(), LauncherError>) -> Result<(), SpecError> {
    match r {
        Ok(_) => Ok(()),
        Err(e) => Err(e@),
    }
}

/// Judges a reply's status: `Ok` on 2xx, otherwise `Network("<what>:
/// <status line>")`.
pub fn require_success(status: u16, status_text: &str, what: &str) -> (res: Result<(), LauncherError>)
    ensures
        unit_view(res) == spec_require_success(status, status_text@, what@),
{
    if 200 <= status && status < 300 {
        Ok(())
    } else {
        let mut m = what.to_owned();
        m.append(": ");
        m.append(status_text);
        Err(LauncherError::Network(m))
    }
}

/// Judges a `/manifest` reply's status: 404 means the repo has no
/// manifest; any other failure is a network error.
pub fn manifest_status(status: u16, status_text: &str, slug: &str) -> (res: Result<(), LauncherError>)
    ensures
        unit_view(res) == if status == 404 {
            Err(SpecError::NotFound("no manifest for "@ + slug@))
        } else {
            spec_require_success(status, status_text@, "manifest request failed"@)
        },
{
    if status == 404 {
        let mut m = "no manifest for ".to_owned();
        m.append(slug);
        return Err(LauncherError::NotFound(m));
    }
    require_success(status, status_text, "manifest request failed")
}

/// Judges a `/download` reply's status: 404 means there is no build for
/// that slug and target; any other failure is a network error.
pub fn download_status(status: u16, status_text: &str, slug: &str, target: &str) -> (res: Result<(), LauncherError>)
    ensures
        unit_view(res) == if status == 404 {
            Err(SpecError::NotFound("no build for "@ + slug@ + " / "@ + target@))
        } else {
            spec_require_success(status, status_text@, "download failed"@)
        },
{
    if status == 404 {
        let mut m = "no build for ".to_owned();
        m.append(slug);
        m.append(" / ");
        m.append(target);
        return Err(LauncherError::NotFound(m));
    }
    require_success(status, status_text, "download failed")
}

/// Judges the `status` field of a `/search`, `/updates` or `/devices/link`
/// reply body: anything but `"ok"` is `Network("unexpected <what>
/// response")`.
pub fn require_ok_body(body_status: &str, what: &str) -> (res: Result<(), LauncherError>)
    ensures
        unit_view(res) == if body_status@ == "ok"@ {
            Ok(())
        } else {
            Err(SpecError::Network("unexpected "@ + what@ + " response"@))
        },
{
    if str_eq(body_status, "ok") {
        Ok(())
    } else {
        let mut m = "unexpected ".to_owned();
        m.append(what);
        m.append(" response");
        Err(LauncherError::Network(m))
    }
}

/// The device token of a `/devices/link` reply: its body must say `"ok"`
/// and carry a token.
pub fn device_token_from_reply(body_status: &str, device_token: Option<String>) -> (res: Result<String, LauncherError>)
    ensures
        match res {
            Ok(t) => body_status@ == "ok"@ && device_token.deep_view() == Some(t@),
            Err(e) => if body_status@ != "ok"@ {
                e@ == SpecError::Network("unexpected "@ + "device-link"@ + " response"@)
            } else {
                device_token is None && e@ == SpecError::Network(
                    "device-link response missing token"@,
                )
            },
        },
{
    match require_ok_body(body_status, "device-link") {
        Ok(()) => {},
        Err(e) => return Err(e),
    }
    match device_token {
        Some(t) => Ok(t),
        None => Err(LauncherError::Network("device-link response missing token".to_owned())),
    }
}


/// Every manifest and download request goes to the pinned orchestrator,
/// whatever the slug, target or commit: the request URL starts with the
/// fixed base and endpoint, and what follows is form-urlencoded (see
/// `codec::lemma_urlencode_charset`), so no argument can redirect it.
pub proof fn law_requests_go_to_pinned_host(slug: Seq<char>, target: Seq<char>, commit: Option<Seq<char>>)
    ensures
        spec_manifest_url(slug, commit).take(
            (orchestrator_base() + "/manifest?repo="@).len() as int,
        ) == orchestrator_base() + "/manifest?repo="@,
        spec_download_url(slug, target, commit).take(
            (orchestrator_base() + "/download?repo="@).len() as int,
        ) == orchestrator_base() + "/download?repo="@,
{
    let m = orchestrator_base() + "/manifest?repo="@;
    let d = orchestrator_base() + "/download?repo="@;
    assert((m + component(slug)).take(m.len() as int) =~= m);
    if let Some(c) = commit {
        assert((m + component(slug) + "&commit="@ + component(c)).take(m.len() as int) =~= m);
        assert((d + component(slug) + "&target="@ + component(target) + "&commit="@ + component(c)).take(d.len() as int) =~= d);
    }
    assert((d + component(slug) + "&target="@ + component(target)).take(d.len() as int) =~= d);
}

/// The artifact picked for a target is the first one that is a
/// successful build whose `os-arch` is exactly the target; there is none
/// exactly when no artifact is such a build.
pub proof fn law_artifact_index_first_serving(arts: Seq<ArtifactView>, target: Seq<char>)
    ensures
        match artifact_index(arts, target) {
            Some(i) => {
                &&& 0 <= i < arts.len()
                &&& arts[i].success
                &&& arts[i].os + "-"@ + arts[i].arch == target
                &&& forall|j: int|
                    #![trigger arts[j]]
                    0 <= j < i ==> !(arts[j].success && arts[j].os + "-"@ + arts[j].arch == target)
            },
            None => forall|j: int|
                #![trigger arts[j]]
                0 <= j < arts.len() ==> !(arts[j].success && arts[j].os + "-"@ + arts[j].arch == target),
        },
    decreases arts.len(),
{
    if arts.len() > 0 {
        let prefix = arts.drop_last();
        law_artifact_index_first_serving(prefix, target);
        let last = arts.len() - 1;
        assert(arts[last] == arts.last());
        match artifact_index(prefix, target) {
            Some(i) => {
                assert(prefix[i] == arts[i]);
                assert forall|j: int| 0 <= j < i implies !(#[trigger] arts[j].success && arts[j].os + "-"@
                    + arts[j].arch == target) by {
                    assert(prefix[j] == arts[j]);
                }
            },
            None => {
                assert forall|j: int| 0 <= j < last implies !(#[trigger] arts[j].success && arts[j].os + "-"@
                    + arts[j].arch == target) by {
                    assert(prefix[j] == arts[j]);
                }
            },
        }
    }
}

/// Every request goes over HTTPS to `worker.brightencode.com` and to
/// the endpoint it is for; pinning a commit only appends
/// `&commit=<commit>` (encoded) to the same request, and the slug and
/// target travel encoded so they cannot add parameters of their own.
pub proof fn law_request_urls(slug: Seq<char>, target: Seq<char>, commit: Seq<char>, query: Seq<char>, repo: Seq<char>)
    ensures
        spec_manifest_url(slug, None) == "https://worker.brightencode.com/manifest?repo="@ + component(slug),
        spec_manifest_url(slug, Some(commit)) == spec_manifest_url(slug, None) + "&commit="@ + component(commit),
        spec_download_url(slug, target, None) == "https://worker.brightencode.com/download?repo="@
            + component(slug) + "&target="@ + component(target),
        spec_download_url(slug, target, Some(commit)) == spec_download_url(slug, target, None)
            + "&commit="@ + component(commit),
        forall|i: int|
            0 <= i < component(slug).len() ==> #[trigger] component(slug)[i] != '&' && component(slug)[i]
                != '=' && component(slug)[i] != '#',
{
    reveal_strlit("https://worker.brightencode.com");
    reveal_strlit("/manifest?repo=");
    reveal_strlit("/download?repo=");
    reveal_strlit("https://worker.brightencode.com/manifest?repo=");
    reveal_strlit("https://worker.brightencode.com/download?repo=");
    assert(orchestrator_base() + "/manifest?repo="@ =~= "https://worker.brightencode.com/manifest?repo="@);
    assert(orchestrator_base() + "/download?repo="@ =~= "https://worker.brightencode.com/download?repo="@);
    crate::codec::lemma_urlencode_charset(encode_utf8(slug));
}

} // verus!
