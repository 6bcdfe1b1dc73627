//! What the webview's commands compute from local and remote data: the
//! Browse tab, the account library section, update badges, gallery icons
//! and the routing of incoming links.
use vstd::prelude::*;
use vstd::string::*;

use crate::codec::{base64_encode, spec_base64};
use crate::library::{EntryView, LibraryEntry};
use crate::orchestrator::{artifact_index, icon_url, orchestrator_base, component, LibraryItem, SearchResult, ArtifactView};
use crate::paths::{has_extension, spec_path_extension};
use crate::repo::{index_of, is_safe_repo_path, lemma_index_of_facts, owner_part, repo_part, slug_of, spec_is_safe_repo_path, quoted};
use crate::text::str_eq;

verus! {

/// Whether `s` is among `v`.
pub fn contains_str(v: &Vec<String>, s: &str) -> (res: bool)
    ensures
        res == v.deep_view().contains(s@),
{
    let ghost d = v.deep_view();
    let mut i: usize = 0;
    while i < v.len()
        invariant
            d == v.deep_view(),
            i <= v.len(),
            forall|j: int| 0 <= j < i ==> d[j] != s@,
        decreases v.len() - i,
    {
        assert(d[i as int] == v@[i as int]@);
        if str_eq(v[i].as_str(), s) {
            return true;
        }
        i = i + 1;
    }
    false
}

/// `repo.replacen('/', "__", 1)`: the storage-form slug of `owner/repo`.
pub open spec fn spec_slug_for(repo: Seq<char>) -> Seq<char> {
    let k = index_of(repo, '/');
    if k < repo.len() {
        repo.take(k) + "__"@ + repo.skip(k + 1)
    } else {
        repo
    }
}

/// Replaces the first `/` of `repo` with `__` — the slug a repo is
/// installed under.
pub fn slug_for_repo(repo: &str) -> (res: String)
    ensures
        res@ == spec_slug_for(repo@),
{
    proof {
        lemma_index_of_facts(repo@, '/');
    }
    let n = repo.unicode_len();
    let mut k: usize = 0;
    while k < n && repo.get_char(k) != '/'
        invariant
            n == repo@.len(),
            k <= n,
            forall|j: int| 0 <= j < k ==> repo@[j] != '/',
        decreases n - k,
    {
        k = k + 1;
    }
    proof {
        assert(k as int == index_of(repo@, '/')) by {
            let i = index_of(repo@, '/');
            if i < k {
                assert(repo@[i] == '/');
            } else if k < i {
                assert(repo@[k as int] == '/');
            }
        }
    }
    if k == n {
        return repo.to_owned();
    }
    let mut s = repo.substring_char(0, k).to_owned();
    s.append("__");
    s.append(repo.substring_char(k + 1, n));
    proof {
        assert(repo@.subrange(0, k as int) =~= repo@.take(k as int));
        assert(repo@.subrange(k + 1, n as int) =~= repo@.skip(k + 1));
    }
    s
}

/// The slug a Browse-tab or Update install uses for a repo is the slug a
/// signed run link for that same repo installs under, so both paths meet
/// in one library entry.
pub proof fn law_catalog_slug_matches_link_slug(repo: Seq<char>)
    requires
        spec_is_safe_repo_path(repo),
    ensures
        spec_slug_for(repo) == slug_of(owner_part(repo), repo_part(repo)),
{
    lemma_index_of_facts(repo, '/');
    let k = index_of(repo, '/');
    if k == repo.len() {
        assert(repo_part(repo) =~= Seq::<char>::empty());
    }
}

/// The title of an app's window: the last `/`-separated part of its repo
/// (`rsplit('/').next()`).
pub open spec fn spec_window_title(repo: Seq<char>) -> Seq<char>
    decreases repo.len(),
{
    if repo.len() == 0 {
        repo
    } else if repo.last() == '/' {
        Seq::empty()
    } else {
        spec_window_title(repo.drop_last()).push(repo.last())
    }
}

/// The window title for an installed app of repo `repo`.
pub fn window_title(repo: &str) -> (res: String)
    ensures
        res@ == spec_window_title(repo@),
{
    let n = repo.unicode_len();
    let mut start: usize = n;
    assert(repo@.take(n as int) =~= repo@);
    assert(repo@ + repo@.subrange(n as int, n as int) =~= repo@);
    while start > 0 && repo.get_char(start - 1) != '/'
        invariant
            n == repo@.len(),
            start <= n,
            spec_window_title(repo@) == spec_window_title(repo@.take(start as int)) + repo@.subrange(
                start as int,
                n as int,
            ),
        decreases start,
    {
        proof {
            let t = repo@.take(start as int);
            assert(t.drop_last() =~= repo@.take(start - 1));
            assert(t.last() == repo@[start - 1]);
            assert(spec_window_title(repo@.take(start - 1)).push(repo@[start - 1]) + repo@.subrange(
                start as int,
                n as int,
            ) =~= spec_window_title(repo@.take(start - 1)) + repo@.subrange(start - 1, n as int));
        }
        start = start - 1;
    }
    proof {
        assert(repo@.take(n as int) =~= repo@);
        if start > 0 {
            let t = repo@.take(start as int);
            assert(t.last() == '/');
        } else {
            assert(repo@.take(0) =~= Seq::<char>::empty());
        }
        assert(Seq::<char>::empty() + repo@.subrange(start as int, n as int) =~= repo@.subrange(
            start as int,
            n as int,
        ));
    }
    repo.substring_char(start, n).to_owned()
}


/// The mathematical value of a [`SearchResult`].
pub struct SearchResultView {
    pub repo: Seq<char>,
    pub icon_url: Option<Seq<char>>,
    pub kind: Option<Seq<char>>,
    pub artifacts: Seq<ArtifactView>,
}

impl View for SearchResult {
    type V = SearchResultView;

    open spec fn view(&self) -> SearchResultView {
        SearchResultView {
            repo: self.repo@,
            icon_url: self.icon_url.deep_view(),
            kind: self.kind.deep_view(),
            artifacts: self.artifacts.deep_view(),
        }
    }
}

impl DeepView for SearchResult {
    type V = SearchResultView;

    open spec fn deep_view(&self) -> SearchResultView {
        self@
    }
}

/// One Browse-tab tile: a search result reduced to what the webview
/// needs, with whether it is installed here and whether the worker has a
/// build for this platform.
pub struct CatalogEntry {
    pub repo: String,
    pub slug: String,
    pub icon_url: Option<String>,
    pub installed: bool,
    pub available: bool,
}

/// The mathematical value of a [`CatalogEntry`].
pub struct CatalogView {
    pub repo: Seq<char>,
    pub slug: Seq<char>,
    pub icon_url: Option<Seq<char>>,
    pub installed: bool,
    pub available: bool,
}

impl View for CatalogEntry {
    type V = CatalogView;

    open spec fn view(&self) -> CatalogView {
        CatalogView {
            repo: self.repo@,
            slug: self.slug@,
            icon_url: self.icon_url.deep_view(),
            installed: self.installed,
            available: self.available,
        }
    }
}

impl DeepView for CatalogEntry {
    type V = CatalogView;

    open spec fn deep_view(&self) -> CatalogView {
        self@
    }
}

/// The tile for one search result.
pub open spec fn catalog_tile(r: SearchResultView, installed: Seq<Seq<char>>, target: Seq<char>) -> CatalogView {
    CatalogView {
        repo: r.repo,
        slug: spec_slug_for(r.repo),
        icon_url: r.icon_url,
        installed: installed.contains(r.repo),
        available: artifact_index(r.artifacts, target) is Some,
    }
}

/// The Browse tab: every result except utility repos (dev tools not meant
/// for end users), in order.
pub open spec fn spec_catalog(results: Seq<SearchResultView>, installed: Seq<Seq<char>>, target: Seq<char>) -> Seq<CatalogView>
    decreases results.len(),
{
    if results.len() == 0 {
        Seq::empty()
    } else {
        let rest = spec_catalog(results.drop_last(), installed, target);
        if results.last().kind == Some("utility"@) {
            rest
        } else {
            rest.push(catalog_tile(results.last(), installed, target))
        }
    }
}

fn copy_opt(o: &Option<String>) -> (res: Option<String>)
    ensures
        res.deep_view() == o.deep_view(),
{
    match o {
        Some(s) => Some(s.clone()),
        None => None,
    }
}

/// The Browse tab's tiles for the results of a catalog search, given the
/// repos installed locally and this platform's target.
pub fn catalog_entries(results: &Vec<SearchResult>, installed_repos: &Vec<String>, target: &str) -> (res: Vec<CatalogEntry>)
    ensures
        res.deep_view() == spec_catalog(results.deep_view(), installed_repos.deep_view(), target@),
{
    let ghost rs = results.deep_view();
    let ghost inst = installed_repos.deep_view();
    let mut out: Vec<CatalogEntry> = Vec::new();
    let mut i: usize = 0;
    while i < results.len()
        invariant
            rs == results.deep_view(),
            inst == installed_repos.deep_view(),
            i <= results.len(),
            out.deep_view() == spec_catalog(rs.take(i as int), inst, target@),
        decreases results.len() - i,
    {
        let r = &results[i];
        assert(rs.take(i + 1).drop_last() =~= rs.take(i as int));
        assert(rs.take(i + 1).last() == r@);
        let utility = match &r.kind {
            Some(k) => str_eq(k.as_str(), "utility"),
            None => false,
        };
        if !utility {
            let ghost before = out.deep_view();
            let available = r.artifact_for(target).is_some();
            let entry = CatalogEntry {
                repo: r.repo.clone(),
                slug: slug_for_repo(r.repo.as_str()),
                icon_url: copy_opt(&r.icon_url),
                installed: contains_str(installed_repos, r.repo.as_str()),
                available,
            };
            out.push(entry);
            assert(out.deep_view() =~= before.push(catalog_tile(r@, inst, target@)));
        }
        i = i + 1;
    }
    assert(rs.take(results.len() as int) =~= rs);
    out
}

/// One entry of My Apps' library section: a repo the account owns that
/// isn't installed on this device.
pub struct AccountLibraryEntry {
    pub repo: String,
    pub slug: String,
    pub icon_url: String,
}

impl View for AccountLibraryEntry {
    type V = (Seq<char>, Seq<char>, Seq<char>);

    open spec fn view(&self) -> (Seq<char>, Seq<char>, Seq<char>) {
        (self.repo@, self.slug@, self.icon_url@)
    }
}

impl DeepView for AccountLibraryEntry {
    type V = (Seq<char>, Seq<char>, Seq<char>);

    open spec fn deep_view(&self) -> (Seq<char>, Seq<char>, Seq<char>) {
        self@
    }
}

/// The repos of the account library left to show: in order, without the
/// ones installed locally, each repo once (its first occurrence).
pub open spec fn shown_repos(items: Seq<Seq<char>>, installed: Seq<Seq<char>>) -> Seq<Seq<char>>
    decreases items.len(),
{
    if items.len() == 0 {
        Seq::empty()
    } else {
        let rest = shown_repos(items.drop_last(), installed);
        let r = items.last();
        if installed.contains(r) || rest.contains(r) {
            rest
        } else {
            rest.push(r)
        }
    }
}

/// The entry shown for an account-library repo.
pub open spec fn account_entry(repo: Seq<char>) -> (Seq<char>, Seq<char>, Seq<char>) {
    (repo, spec_slug_for(repo), orchestrator_base() + "/icon?repo="@ + component(repo))
}

/// The account library section: one entry per repo of
/// [`shown_repos`], with its slug and worker icon URL.
pub open spec fn spec_account_library(items: Seq<Seq<char>>, installed: Seq<Seq<char>>) -> Seq<(Seq<char>, Seq<char>, Seq<char>)> {
    shown_repos(items, installed).map_values(|r: Seq<char>| account_entry(r))
}

/// The repos of account library records.
pub open spec fn item_repos(items: Seq<LibraryItem>) -> Seq<Seq<char>> {
    items.map_values(|it: LibraryItem| it.repo@)
}

/// My Apps' library section: the account library minus what is already
/// installed on this device, with duplicates dropped.
pub fn account_library_entries(items: &Vec<LibraryItem>, installed_repos: &Vec<String>) -> (res: Vec<AccountLibraryEntry>)
    ensures
        res.deep_view() == spec_account_library(item_repos(items@), installed_repos.deep_view()),
{
    let ghost reps = item_repos(items@);
    let ghost inst = installed_repos.deep_view();
    let mut seen: Vec<String> = Vec::new();
    let mut out: Vec<AccountLibraryEntry> = Vec::new();
    let mut i: usize = 0;
    while i < items.len()
        invariant
            reps == item_repos(items@),
            inst == installed_repos.deep_view(),
            i <= items.len(),
            seen.deep_view() == shown_repos(reps.take(i as int), inst),
            out.deep_view() == spec_account_library(reps.take(i as int), inst),
        decreases items.len() - i,
    {
        let repo = items[i].repo.as_str();
        assert(reps.take(i + 1).drop_last() =~= reps.take(i as int));
        assert(reps.take(i + 1).last() == repo@);
        if !contains_str(installed_repos, repo) && !contains_str(&seen, repo) {
            let ghost before_seen = seen.deep_view();
            let ghost before_out = out.deep_view();
            seen.push(repo.to_owned());
            out.push(
                AccountLibraryEntry {
                    repo: repo.to_owned(),
                    slug: slug_for_repo(repo),
                    icon_url: icon_url(repo),
                },
            );
            assert(seen.deep_view() =~= before_seen.push(repo@));
            assert(out.deep_view() =~= before_out.push(account_entry(repo@)));
            assert(spec_account_library(reps.take(i + 1), inst) =~= before_out.push(account_entry(repo@)));
        } else {
            assert(spec_account_library(reps.take(i + 1), inst) =~= out.deep_view());
        }
        i = i + 1;
    }
    assert(reps.take(items.len() as int) =~= reps);
    out
}


/// The account library section lists each repo at most once, never one
/// installed on this device, only repos the account actually holds, and
/// every such repo.
pub proof fn law_account_library_shown(items: Seq<Seq<char>>, installed: Seq<Seq<char>>)
    ensures
        forall|i: int, j: int|
            0 <= i < j < shown_repos(items, installed).len() ==> shown_repos(items, installed)[i]
                != shown_repos(items, installed)[j],
        forall|r: Seq<char>| #[trigger] shown_repos(items, installed).contains(r) <==> (items.contains(r) && !installed.contains(r)),
    decreases items.len(),
{
    if items.len() > 0 {
        let prefix = items.drop_last();
        law_account_library_shown(prefix, installed);
        let rest = shown_repos(prefix, installed);
        let last = items.last();
        let shown = shown_repos(items, installed);
        assert forall|r: Seq<char>| #[trigger] shown.contains(r) <==> (items.contains(r) && !installed.contains(r)) by {
            if items.contains(r) {
                let k = choose|k: int| 0 <= k < items.len() && items[k] == r;
                if k < items.len() - 1 {
                    assert(prefix[k] == r);
                }
            }
            if prefix.contains(r) {
                let k = choose|k: int| 0 <= k < prefix.len() && prefix[k] == r;
                assert(items[k] == r);
            }
            if shown.contains(r) && !rest.contains(r) {
                assert(shown == rest.push(last));
                let k = choose|k: int| 0 <= k < shown.len() && shown[k] == r;
                if k < rest.len() {
                    assert(rest[k] == r);
                }
                assert(items[items.len() - 1] == last);
            }
            if rest.contains(r) && !(installed.contains(last) || rest.contains(last)) {
                let k = choose|k: int| 0 <= k < rest.len() && rest[k] == r;
                assert(shown[k] == r);
            }
            if r == last && !installed.contains(last) && !rest.contains(last) {
                assert(shown[shown.len() - 1] == last);
            }
        }
    }
}

/// The library entries whose repo the worker reports as having a newer
/// build, in library order.
pub open spec fn spec_stale(lib: Seq<EntryView>, stale_repos: Seq<Seq<char>>) -> Seq<EntryView>
    decreases lib.len(),
{
    if lib.len() == 0 {
        Seq::empty()
    } else {
        let rest = spec_stale(lib.drop_last(), stale_repos);
        if stale_repos.contains(lib.last().repo) {
            rest.push(lib.last())
        } else {
            rest
        }
    }
}

/// The installed apps that are behind, given the repos `GET /updates`
/// reported — what gets the update badge, and what "update all" updates.
pub fn stale_entries(entries: &Vec<LibraryEntry>, stale_repos: &Vec<String>) -> (res: Vec<LibraryEntry>)
    ensures
        res.deep_view() == spec_stale(entries.deep_view(), stale_repos.deep_view()),
{
    let ghost lib = entries.deep_view();
    let ghost st = stale_repos.deep_view();
    let mut out: Vec<LibraryEntry> = Vec::new();
    let mut i: usize = 0;
    while i < entries.len()
        invariant
            lib == entries.deep_view(),
            st == stale_repos.deep_view(),
            i <= entries.len(),
            out.deep_view() == spec_stale(lib.take(i as int), st),
        decreases entries.len() - i,
    {
        assert(lib.take(i + 1).drop_last() =~= lib.take(i as int));
        assert(lib.take(i + 1).last() == entries@[i as int]@);
        if contains_str(stale_repos, entries[i].repo.as_str()) {
            let ghost before = out.deep_view();
            out.push(entries[i].duplicate());
            assert(out.deep_view() =~= before.push(entries@[i as int]@));
        }
        i = i + 1;
    }
    assert(lib.take(entries.len() as int) =~= lib);
    out
}

/// The MIME type of a cached icon: `.svg` files are the worker's badges,
/// anything else a PNG converted from a bundle's `.icns`.
pub open spec fn icon_mime(path: Seq<char>) -> Seq<char> {
    if spec_path_extension(path) == Some("svg"@) {
        "image/svg+xml"@
    } else {
        "image/png"@
    }
}

/// A `data:` URL embedding `bytes` as base64.
pub open spec fn data_url(mime: Seq<char>, bytes: Seq<u8>) -> Seq<char> {
    "data:"@ + mime + ";base64,"@ + spec_base64(bytes)
}

/// The gallery's inlined icon for the file at `icon_path` holding
/// `bytes`; the webview never sees the raw path.
pub fn icon_data_url(icon_path: &str, bytes: &[u8]) -> (res: String)
    ensures
        res@ == data_url(icon_mime(icon_path@), bytes@),
{
    let mime: &str = if has_extension(icon_path, "svg") {
        "image/svg+xml"
    } else {
        "image/png"
    };
    let mut url = "data:".to_owned();
    url.append(mime);
    url.append(";base64,");
    url.append(base64_encode(bytes).as_str());
    url
}

/// The inlined form of a freshly fetched worker badge (always SVG).
pub fn svg_data_url(bytes: &[u8]) -> (res: String)
    ensures
        res@ == data_url("image/svg+xml"@, bytes@),
{
    let mut url = "data:".to_owned();
    url.append("image/svg+xml");
    url.append(";base64,");
    url.append(base64_encode(bytes).as_str());
    url
}

/// Which flow handles an incoming link.
pub enum Route {
    Link,
    Run,
}

/// Routes a link by its action (the URL's host): `link` links associate
/// the device with an account; everything else goes to the run flow,
/// which rejects unsupported actions itself.
pub fn route(host: Option<&str>) -> (res: Route)
    ensures
        (res is Link) <==> (host matches Some(h) && h@ == "link"@),
{
    match host {
        Some(h) => if str_eq(h, "link") {
            Route::Link
        } else {
            Route::Run
        },
        None => Route::Run,
    }
}

/// The links already handed to a flow during this run of the launcher.
/// Cold starts can deliver the same link twice; a signed link is minted
/// fresh per click, so an exact match means "redelivered".
pub struct Dispatcher {
    pub seen: Vec<String>,
}

/// The links seen after dispatching `url`: `url` is added if it was not
/// seen yet; nothing else changes.
pub open spec fn spec_dispatched(seen: Seq<Seq<char>>, url: Seq<char>) -> Seq<Seq<char>> {
    if seen.contains(url) {
        seen
    } else {
        seen.push(url)
    }
}

/// Each link is handled once: after dispatching `u` it counts as seen
/// (so a redelivery is dropped), and whether any other link `v` counts as
/// seen is exactly what it was before.
pub proof fn law_dispatch_affects_only_its_link(seen: Seq<Seq<char>>, u: Seq<char>, v: Seq<char>)
    ensures
        spec_dispatched(seen, u).contains(u),
        v != u ==> (spec_dispatched(seen, u).contains(v) <==> seen.contains(v)),
{
    let after = spec_dispatched(seen, u);
    if !seen.contains(u) {
        assert(after[seen.len() as int] == u);
        if v != u {
            if after.contains(v) {
                let k = choose|k: int| 0 <= k < after.len() && after[k] == v;
                assert(k < seen.len());
                assert(seen[k] == v);
            }
            if seen.contains(v) {
                let k = choose|k: int| 0 <= k < seen.len() && seen[k] == v;
                assert(after[k] == v);
            }
        }
    }
}

impl Dispatcher {
    /// A dispatcher that has seen nothing.
    pub fn new() -> (res: Dispatcher)
        ensures
            res.seen.deep_view() == Seq::<Seq<char>>::empty(),
    {
        Dispatcher { seen: Vec::new() }
    }

    /// Whether `url` was dispatched before; either way it counts as
    /// dispatched afterwards. So each link is handled at most once.
    pub fn already_dispatched(&mut self, url: &str) -> (res: bool)
        ensures
            res == old(self).seen.deep_view().contains(url@),
            final(self).seen.deep_view() == spec_dispatched(old(self).seen.deep_view(), url@),
    {
        if contains_str(&self.seen, url) {
            return true;
        }
        let ghost before = self.seen.deep_view();
        self.seen.push(url.to_owned());
        assert(self.seen.deep_view() =~= before.push(url@));
        false
    }
}

/// The rejection of a repo argument from the webview that is not a safe
/// `owner/repo`.
pub fn validate_repo(repo: &str) -> (res: Result<(), String>)
    ensures
        res is Ok <==> spec_is_safe_repo_path(repo@),
        res matches Err(m) ==> m@ == quoted("invalid repo"@, repo@),
{
    if is_safe_repo_path(repo) {
        Ok(())
    } else {
        let mut m = "invalid repo".to_owned();
        m.append(" '");
        m.append(repo);
        m.append("'");
        Err(m)
    }
}

/// The error for a slug with no library entry.
pub fn not_installed(slug: &str) -> (res: String)
    ensures
        res@ == slug@ + " is not installed"@,
{
    let mut m = slug.to_owned();
    m.append(" is not installed");
    m
}

/// A Browse-tab tile shows its result's repo and icon, is marked
/// installed exactly when that repo is among the installed ones, and is
/// marked available exactly when some artifact of the result is a
/// successful build whose `os-arch` is this platform's target.
pub proof fn law_catalog_tile_fields(r: SearchResultView, installed: Seq<Seq<char>>, target: Seq<char>)
    ensures
        catalog_tile(r, installed, target).repo == r.repo,
        catalog_tile(r, installed, target).icon_url == r.icon_url,
        catalog_tile(r, installed, target).installed <==> installed.contains(r.repo),
        catalog_tile(r, installed, target).available <==> exists|k: int|
            #![trigger r.artifacts[k]]
            0 <= k < r.artifacts.len() && r.artifacts[k].success && r.artifacts[k].os + "-"@
                + r.artifacts[k].arch == target,
{
    crate::orchestrator::law_artifact_index_first_serving(r.artifacts, target);
}

/// The Browse tab has one tile per result that is not a utility repo, and
/// nothing else: each tile is the tile of such a result, and each such
/// result has its tile.
pub proof fn law_catalog_tiles_are_the_non_utility_results(
    results: Seq<SearchResultView>,
    installed: Seq<Seq<char>>,
    target: Seq<char>,
)
    ensures
        forall|i: int|
            0 <= i < spec_catalog(results, installed, target).len() ==> exists|j: int|
                0 <= j < results.len() && results[j].kind != Some("utility"@) && #[trigger] spec_catalog(
                    results,
                    installed,
                    target,
                )[i] == catalog_tile(results[j], installed, target),
        forall|j: int|
            0 <= j < results.len() && results[j].kind != Some("utility"@) ==> exists|i: int|
                0 <= i < spec_catalog(results, installed, target).len() && spec_catalog(
                    results,
                    installed,
                    target,
                )[i] == catalog_tile(#[trigger] results[j], installed, target),
    decreases results.len(),
{
    if results.len() > 0 {
        let prefix = results.drop_last();
        law_catalog_tiles_are_the_non_utility_results(prefix, installed, target);
        let rest = spec_catalog(prefix, installed, target);
        let all = spec_catalog(results, installed, target);
        let last = results.last();
        assert forall|i: int| 0 <= i < all.len() implies exists|j: int|
            0 <= j < results.len() && results[j].kind != Some("utility"@) && #[trigger] all[i]
                == catalog_tile(results[j], installed, target) by {
            if i < rest.len() {
                assert(all[i] == rest[i]);
                let j = choose|j: int|
                    0 <= j < prefix.len() && prefix[j].kind != Some("utility"@) && #[trigger] rest[i]
                        == catalog_tile(prefix[j], installed, target);
                assert(results[j] == prefix[j]);
            } else {
                assert(all[i] == catalog_tile(last, installed, target));
                assert(results[results.len() - 1] == last);
            }
        }
        assert forall|j: int| 0 <= j < results.len() && results[j].kind != Some("utility"@) implies exists|i: int|
            0 <= i < all.len() && all[i] == catalog_tile(#[trigger] results[j], installed, target) by {
            if j < prefix.len() {
                assert(results[j] == prefix[j]);
                let i = choose|i: int|
                    0 <= i < rest.len() && rest[i] == catalog_tile(#[trigger] prefix[j], installed, target);
                assert(all[i] == rest[i]);
            } else {
                assert(all[all.len() - 1] == catalog_tile(last, installed, target));
            }
        }
    }
}

/// A window title is the last `/`-separated part of the repo: it holds no
/// `/`, the repo ends with it, and it is either the whole repo or comes
/// right after a `/`.
pub proof fn law_window_title_is_last_part(repo: Seq<char>)
    ensures
        ({
            let t = spec_window_title(repo);
            &&& t.len() <= repo.len()
            &&& forall|i: int| 0 <= i < t.len() ==> t[i] != '/'
            &&& repo.skip(repo.len() - t.len()) == t
            &&& (t.len() == repo.len() || repo[repo.len() - t.len() - 1] == '/')
        }),
    decreases repo.len(),
{
    if repo.len() > 0 {
        let init = repo.drop_last();
        law_window_title_is_last_part(init);
        let t = spec_window_title(repo);
        if repo.last() == '/' {
            assert(repo.skip(repo.len() as int) =~= t);
        } else {
            let ti = spec_window_title(init);
            assert(t == ti.push(repo.last()));
            assert(repo.skip(repo.len() - t.len()) =~= init.skip(init.len() - ti.len()).push(repo.last()));
            if ti.len() < init.len() {
                assert(repo[repo.len() - t.len() - 1] == init[init.len() - ti.len() - 1]);
            }
        }
    }
}

/// The apps that get the update badge are exactly the installed entries
/// whose repo the worker reports as stale, in library order.
pub proof fn law_stale_entries_are_the_reported_ones(lib: Seq<EntryView>, stale_repos: Seq<Seq<char>>)
    ensures
        forall|i: int|
            0 <= i < spec_stale(lib, stale_repos).len() ==> exists|j: int|
                0 <= j < lib.len() && #[trigger] spec_stale(lib, stale_repos)[i] == lib[j]
                    && stale_repos.contains(lib[j].repo),
        forall|j: int|
            0 <= j < lib.len() && stale_repos.contains(#[trigger] lib[j].repo) ==> spec_stale(
                lib,
                stale_repos,
            ).contains(lib[j]),
        spec_stale(lib, stale_repos).len() <= lib.len(),
    decreases lib.len(),
{
    if lib.len() > 0 {
        let prefix = lib.drop_last();
        law_stale_entries_are_the_reported_ones(prefix, stale_repos);
        let rest = spec_stale(prefix, stale_repos);
        let all = spec_stale(lib, stale_repos);
        let last = lib.last();
        assert forall|i: int| 0 <= i < all.len() implies exists|j: int|
            0 <= j < lib.len() && #[trigger] all[i] == lib[j] && stale_repos.contains(lib[j].repo) by {
            if i < rest.len() {
                assert(all[i] == rest[i]);
                let j = choose|j: int|
                    0 <= j < prefix.len() && #[trigger] rest[i] == prefix[j] && stale_repos.contains(
                        prefix[j].repo,
                    );
                assert(lib[j] == prefix[j]);
            } else {
                assert(all[i] == last);
                assert(lib[lib.len() - 1] == last);
            }
        }
        assert forall|j: int| 0 <= j < lib.len() && stale_repos.contains(#[trigger] lib[j].repo) implies all.contains(
            lib[j],
        ) by {
            if j < prefix.len() {
                assert(lib[j] == prefix[j]);
                assert(stale_repos.contains(prefix[j].repo));
                let i = choose|i: int| 0 <= i < rest.len() && rest[i] == prefix[j];
                assert(all[i] == rest[i]);
            } else {
                assert(all[all.len() - 1] == last);
            }
        }
    }
}

} // verus!
