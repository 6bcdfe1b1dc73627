//! The local library: every app this device has downloaded and verified,
//! one entry per slug. The functions here are the library's update rules;
//! reading and writing `library.json` is the caller's business.
use vstd::prelude::*;

verus! {

/// A previously-downloaded, checksum-verified app. `path` and `icon` are
/// local filesystem paths.
pub struct LibraryEntry {
    pub slug: String,
    pub repo: String,
    pub commit: String,
    pub path: String,
    pub is_gui: bool,
    pub icon: Option<String>,
    pub installed_at: u64,
    pub last_launched_at: Option<u64>,
}

/// The mathematical value of a [`LibraryEntry`].
pub struct EntryView {
    pub slug: Seq<char>,
    pub repo: Seq<char>,
    pub commit: Seq<char>,
    pub path: Seq<char>,
    pub is_gui: bool,
    pub icon: Option<Seq<char>>,
    pub installed_at: u64,
    pub last_launched_at: Option<u64>,
}

impl View for LibraryEntry {
    type V = EntryView;

    open spec fn view(&self) -> EntryView {
        EntryView {
            slug: self.slug@,
            repo: self.repo@,
            commit: self.commit@,
            path: self.path@,
            is_gui: self.is_gui,
            icon: self.icon.deep_view(),
            installed_at: self.installed_at,
            last_launched_at: self.last_launched_at,
        }
    }
}

impl DeepView for LibraryEntry {
    type V = EntryView;

    open spec fn deep_view(&self) -> EntryView {
        self@
    }
}

fn copy_opt_string(o: &Option<String>) -> (res: Option<String>)
    ensures
        res.deep_view() == o.deep_view(),
{
    match o {
        Some(s) => Some(s.clone()),
        None => None,
    }
}

impl LibraryEntry {
    /// An entry with the same contents.
    pub fn duplicate(&self) -> (res: LibraryEntry)
        ensures
            res@ == self@,
    {
        LibraryEntry {
            slug: self.slug.clone(),
            repo: self.repo.clone(),
            commit: self.commit.clone(),
            path: self.path.clone(),
            is_gui: self.is_gui,
            icon: copy_opt_string(&self.icon),
            installed_at: self.installed_at,
            last_launched_at: self.last_launched_at,
        }
    }
}

/// Index of the first entry for `slug`, if any.
pub open spec fn find_index(lib: Seq<EntryView>, slug: Seq<char>) -> Option<int>
    decreases lib.len(),
{
    if lib.len() == 0 {
        None
    } else {
        match find_index(lib.drop_last(), slug) {
            Some(i) => Some(i),
            None => if lib.last().slug == slug {
                Some(lib.len() - 1)
            } else {
                None
            },
        }
    }
}

/// The entry for `slug`, if any.
pub open spec fn spec_find(lib: Seq<EntryView>, slug: Seq<char>) -> Option<EntryView> {
    match find_index(lib, slug) {
        Some(i) => Some(lib[i]),
        None => None,
    }
}

/// No two entries share a slug.
pub open spec fn slugs_unique(lib: Seq<EntryView>) -> bool {
    forall|i: int, j: int| 0 <= i < lib.len() && 0 <= j < lib.len() && i != j ==> #[trigger] lib[i].slug != #[trigger] lib[j].slug
}

proof fn lemma_find_index(lib: Seq<EntryView>, slug: Seq<char>, k: int)
    requires
        0 <= k <= lib.len(),
        forall|j: int| 0 <= j < k ==> (#[trigger] lib[j]).slug != slug,
        k == lib.len() || lib[k].slug == slug,
    ensures
        find_index(lib, slug) == (if k < lib.len() { Some(k) } else { None::<int> }),
    decreases lib.len(),
{
    if lib.len() > 0 {
        if k < lib.len() {
            lemma_find_index(lib.drop_last(), slug, k);
        } else {
            lemma_find_index(lib.drop_last(), slug, k - 1);
        }
    }
}

/// `find_index` is the first index with the slug: every earlier entry has
/// another slug.
pub proof fn lemma_find_index_first(lib: Seq<EntryView>, slug: Seq<char>)
    ensures
        match find_index(lib, slug) {
            Some(i) => 0 <= i < lib.len() && lib[i].slug == slug && forall|j: int|
                0 <= j < i ==> (#[trigger] lib[j]).slug != slug,
            None => forall|j: int| 0 <= j < lib.len() ==> (#[trigger] lib[j]).slug != slug,
        },
    decreases lib.len(),
{
    if lib.len() > 0 {
        let prefix = lib.drop_last();
        lemma_find_index_first(prefix, slug);
        match find_index(prefix, slug) {
            Some(i) => {
                assert(prefix[i] == lib[i]);
                assert forall|j: int| 0 <= j < i implies (#[trigger] lib[j]).slug != slug by {
                    assert(prefix[j] == lib[j]);
                }
            },
            None => {
                assert forall|j: int| 0 <= j < prefix.len() implies (#[trigger] lib[j]).slug
                    != slug by {
                    assert(prefix[j] == lib[j]);
                }
            },
        }
    }
}

/// Position of the first entry for `slug` in `entries`.
fn position(entries: &Vec<LibraryEntry>, slug: &str) -> (res: Option<usize>)
    ensures
        match res {
            Some(i) => find_index(entries.deep_view(), slug@) == Some(i as int),
            None => find_index(entries.deep_view(), slug@) is None,
        },
{
    let ghost lib = entries.deep_view();
    let mut i: usize = 0;
    while i < entries.len()
        invariant
            lib == entries.deep_view(),
            i <= entries.len(),
            forall|j: int| 0 <= j < i ==> (#[trigger] lib[j]).slug != slug@,
        decreases entries.len() - i,
    {
        if crate::text::str_eq(entries[i].slug.as_str(), slug) {
            proof {
                lemma_find_index(lib, slug@, i as int);
            }
            return Some(i);
        }
        assert(lib[i as int] == entries@[i as int]@);
        i = i + 1;
    }
    proof {
        lemma_find_index(lib, slug@, i as int);
    }
    None
}

/// Looks up a previously-installed entry by slug — the gallery's
/// "relaunch" action re-runs the cached binary this names.
pub fn find(entries: &Vec<LibraryEntry>, slug: &str) -> (res: Option<LibraryEntry>)
    ensures
        res.deep_view() == spec_find(entries.deep_view(), slug@),
{
    proof {
        lemma_find_index_first(entries.deep_view(), slug@);
    }
    match position(entries, slug) {
        Some(i) => {
            assert(entries.deep_view()[i as int] == entries@[i as int]@);
            Some(entries[i].duplicate())
        },
        None => None,
    }
}


/// The view of an optional string argument.
pub open spec fn opt_str_view(o: Option<&str>) -> Option<Seq<char>> {
    match o {
        Some(s) => Some(s@),
        None => None,
    }
}

/// The library after recording an install of `slug`: an existing entry
/// keeps its slug and timestamps and takes the new repo, commit, path,
/// GUI flag and icon; otherwise a new entry installed at `now` and never
/// launched is appended.
pub open spec fn spec_record_install(
    lib: Seq<EntryView>,
    slug: Seq<char>,
    repo: Seq<char>,
    commit: Seq<char>,
    path: Seq<char>,
    is_gui: bool,
    icon: Option<Seq<char>>,
    now: u64,
) -> Seq<EntryView> {
    match find_index(lib, slug) {
        Some(i) => lib.update(
            i,
            EntryView {
                slug: lib[i].slug,
                repo,
                commit,
                path,
                is_gui,
                icon,
                installed_at: lib[i].installed_at,
                last_launched_at: lib[i].last_launched_at,
            },
        ),
        None => lib.push(
            EntryView {
                slug,
                repo,
                commit,
                path,
                is_gui,
                icon,
                installed_at: now,
                last_launched_at: None,
            },
        ),
    }
}

fn opt_owned(o: Option<&str>) -> (res: Option<String>)
    ensures
        res.deep_view() == opt_str_view(o),
{
    match o {
        Some(s) => Some(s.to_owned()),
        None => None,
    }
}

/// Records (or updates) an app after a successful install. Called on
/// every run — cache hits included — so `path`/`is_gui`/`icon` stay
/// correct even if a repo's build shape changes between visits.
pub fn record_install(
    entries: &mut Vec<LibraryEntry>,
    slug: &str,
    repo: &str,
    commit: &str,
    path: &str,
    is_gui: bool,
    icon: Option<&str>,
    now: u64,
)
    ensures
        final(entries).deep_view() == spec_record_install(
            old(entries).deep_view(),
            slug@,
            repo@,
            commit@,
            path@,
            is_gui,
            opt_str_view(icon),
            now,
        ),
{
    proof {
        lemma_find_index_first(entries.deep_view(), slug@);
    }
    match position(entries, slug) {
        Some(i) => {
            let existing = entries[i].duplicate();
            let updated = LibraryEntry {
                slug: existing.slug,
                repo: repo.to_owned(),
                commit: commit.to_owned(),
                path: path.to_owned(),
                is_gui,
                icon: opt_owned(icon),
                installed_at: existing.installed_at,
                last_launched_at: existing.last_launched_at,
            };
            let ghost before = entries.deep_view();
            entries[i] = updated;
            assert(entries.deep_view() =~= spec_record_install(
                before,
                slug@,
                repo@,
                commit@,
                path@,
                is_gui,
                opt_str_view(icon),
                now,
            ));
        },
        None => {
            let ghost before = entries.deep_view();
            entries.push(
                LibraryEntry {
                    slug: slug.to_owned(),
                    repo: repo.to_owned(),
                    commit: commit.to_owned(),
                    path: path.to_owned(),
                    is_gui,
                    icon: opt_owned(icon),
                    installed_at: now,
                    last_launched_at: None,
                },
            );
            assert(entries.deep_view() =~= spec_record_install(
                before,
                slug@,
                repo@,
                commit@,
                path@,
                is_gui,
                opt_str_view(icon),
                now,
            ));
        },
    }
}

/// The library after stamping `slug`'s entry as launched at `now`
/// (unchanged if there is none).
pub open spec fn spec_touch(lib: Seq<EntryView>, slug: Seq<char>, now: u64) -> Seq<EntryView> {
    match find_index(lib, slug) {
        Some(i) => lib.update(i, EntryView { last_launched_at: Some(now), ..lib[i] }),
        None => lib,
    }
}

/// Stamps `slug`'s entry as launched at `now`. Returns whether there was
/// such an entry (and so whether the library changed and needs saving).
pub fn touch_last_launched(entries: &mut Vec<LibraryEntry>, slug: &str, now: u64) -> (res: bool)
    ensures
        final(entries).deep_view() == spec_touch(old(entries).deep_view(), slug@, now),
        res == find_index(old(entries).deep_view(), slug@) is Some,
{
    proof {
        lemma_find_index_first(entries.deep_view(), slug@);
    }
    match position(entries, slug) {
        Some(i) => {
            let mut e = entries[i].duplicate();
            e.last_launched_at = Some(now);
            let ghost before = entries.deep_view();
            entries[i] = e;
            assert(entries.deep_view() =~= spec_touch(before, slug@, now));
            true
        },
        None => false,
    }
}

/// The library without any entry for `slug`, order otherwise kept.
pub open spec fn spec_remove(lib: Seq<EntryView>, slug: Seq<char>) -> Seq<EntryView>
    decreases lib.len(),
{
    if lib.len() == 0 {
        lib
    } else if lib.last().slug == slug {
        spec_remove(lib.drop_last(), slug)
    } else {
        spec_remove(lib.drop_last(), slug).push(lib.last())
    }
}

/// Drops `slug` from the library. Does not touch anything on disk.
pub fn remove(entries: Vec<LibraryEntry>, slug: &str) -> (res: Vec<LibraryEntry>)
    ensures
        res.deep_view() == spec_remove(entries.deep_view(), slug@),
{
    let ghost lib = entries.deep_view();
    let mut kept: Vec<LibraryEntry> = Vec::new();
    let mut i: usize = 0;
    while i < entries.len()
        invariant
            lib == entries.deep_view(),
            i <= entries.len(),
            kept.deep_view() == spec_remove(lib.take(i as int), slug@),
        decreases entries.len() - i,
    {
        assert(lib.take(i + 1).drop_last() =~= lib.take(i as int));
        assert(lib.take(i + 1).last() == entries@[i as int]@);
        if !crate::text::str_eq(entries[i].slug.as_str(), slug) {
            let ghost before = kept.deep_view();
            kept.push(entries[i].duplicate());
            assert(kept.deep_view() =~= before.push(entries@[i as int]@));
        }
        i = i + 1;
    }
    assert(lib.take(entries.len() as int) =~= lib);
    kept
}


/// The library after pointing `slug`'s entry at a new cached icon
/// (unchanged if there is none).
pub open spec fn spec_set_icon(lib: Seq<EntryView>, slug: Seq<char>, icon: Seq<char>) -> Seq<EntryView> {
    match find_index(lib, slug) {
        Some(i) => lib.update(i, EntryView { icon: Some(icon), ..lib[i] }),
        None => lib,
    }
}

/// Points `slug`'s entry at a freshly cached icon. Returns whether there
/// was such an entry (and so whether the library changed).
pub fn set_icon(entries: &mut Vec<LibraryEntry>, slug: &str, icon: &str) -> (res: bool)
    ensures
        final(entries).deep_view() == spec_set_icon(old(entries).deep_view(), slug@, icon@),
        res == find_index(old(entries).deep_view(), slug@) is Some,
{
    proof {
        lemma_find_index_first(entries.deep_view(), slug@);
    }
    match position(entries, slug) {
        Some(i) => {
            let mut e = entries[i].duplicate();
            e.icon = Some(icon.to_owned());
            let ghost before = entries.deep_view();
            entries[i] = e;
            assert(entries.deep_view() =~= spec_set_icon(before, slug@, icon@));
            true
        },
        None => false,
    }
}

/// After an install is recorded, looking the slug up gives an entry with
/// exactly the recorded repo, commit, path, GUI flag and icon.
pub proof fn law_find_after_record_install(
    lib: Seq<EntryView>,
    slug: Seq<char>,
    repo: Seq<char>,
    commit: Seq<char>,
    path: Seq<char>,
    is_gui: bool,
    icon: Option<Seq<char>>,
    now: u64,
)
    ensures
        ({
            let found = spec_find(
                spec_record_install(lib, slug, repo, commit, path, is_gui, icon, now),
                slug,
            );
            &&& found is Some
            &&& found->0.slug == slug
            &&& found->0.repo == repo
            &&& found->0.commit == commit
            &&& found->0.path == path
            &&& found->0.is_gui == is_gui
            &&& found->0.icon == icon
        }),
{
    let after = spec_record_install(lib, slug, repo, commit, path, is_gui, icon, now);
    lemma_find_index_first(lib, slug);
    match find_index(lib, slug) {
        Some(i) => {
            assert forall|j: int| 0 <= j < i implies (#[trigger] after[j]).slug != slug by {
                assert(after[j] == lib[j]);
            }
            lemma_find_index(after, slug, i);
        },
        None => {
            assert forall|j: int| 0 <= j < lib.len() implies (#[trigger] after[j]).slug != slug by {
                assert(after[j] == lib[j]);
            }
            lemma_find_index(after, slug, lib.len() as int);
        },
    }
}

/// Recording an install of one slug leaves every other slug's entry as it
/// was.
pub proof fn law_record_install_keeps_others(
    lib: Seq<EntryView>,
    slug: Seq<char>,
    other: Seq<char>,
    repo: Seq<char>,
    commit: Seq<char>,
    path: Seq<char>,
    is_gui: bool,
    icon: Option<Seq<char>>,
    now: u64,
)
    requires
        other != slug,
    ensures
        spec_find(spec_record_install(lib, slug, repo, commit, path, is_gui, icon, now), other)
            == spec_find(lib, other),
{
    let after = spec_record_install(lib, slug, repo, commit, path, is_gui, icon, now);
    lemma_find_index_first(lib, slug);
    lemma_find_index_first(lib, other);
    let k = match find_index(lib, other) {
        Some(k) => k,
        None => lib.len() as int,
    };
    assert forall|j: int| 0 <= j < k implies (#[trigger] after[j]).slug != other by {
        assert(after[j].slug == lib[j].slug);
    }
    if k < lib.len() {
        assert(after[k] == lib[k]);
        lemma_find_index(after, other, k);
    } else if after.len() > lib.len() {
        lemma_find_index(after, other, lib.len() + 1int);
    } else {
        lemma_find_index(after, other, k);
    }
}

/// Recording an install keeps slugs unique: it either updates the slug's
/// entry in place or appends the first entry for it.
pub proof fn law_record_install_keeps_slugs_unique(
    lib: Seq<EntryView>,
    slug: Seq<char>,
    repo: Seq<char>,
    commit: Seq<char>,
    path: Seq<char>,
    is_gui: bool,
    icon: Option<Seq<char>>,
    now: u64,
)
    requires
        slugs_unique(lib),
    ensures
        slugs_unique(spec_record_install(lib, slug, repo, commit, path, is_gui, icon, now)),
{
    let after = spec_record_install(lib, slug, repo, commit, path, is_gui, icon, now);
    lemma_find_index_first(lib, slug);
    assert forall|i: int, j: int|
        0 <= i < after.len() && 0 <= j < after.len() && i != j implies #[trigger] after[i].slug
        != #[trigger] after[j].slug by {
        if i < lib.len() && j < lib.len() {
            assert(after[i].slug == lib[i].slug);
            assert(after[j].slug == lib[j].slug);
        } else if i < lib.len() {
            assert(after[i].slug == lib[i].slug);
        } else {
            assert(after[j].slug == lib[j].slug);
        }
    }
}

/// Recording the same install twice is the same as recording it once.
pub proof fn law_record_install_idempotent(
    lib: Seq<EntryView>,
    slug: Seq<char>,
    repo: Seq<char>,
    commit: Seq<char>,
    path: Seq<char>,
    is_gui: bool,
    icon: Option<Seq<char>>,
    now: u64,
    later: u64,
)
    ensures
        spec_record_install(
            spec_record_install(lib, slug, repo, commit, path, is_gui, icon, now),
            slug,
            repo,
            commit,
            path,
            is_gui,
            icon,
            later,
        ) == spec_record_install(lib, slug, repo, commit, path, is_gui, icon, now),
{
    let once = spec_record_install(lib, slug, repo, commit, path, is_gui, icon, now);
    lemma_find_index_first(lib, slug);
    match find_index(lib, slug) {
        Some(i) => {
            assert forall|j: int| 0 <= j < i implies (#[trigger] once[j]).slug != slug by {
                assert(once[j] == lib[j]);
            }
            lemma_find_index(once, slug, i);
            assert(spec_record_install(once, slug, repo, commit, path, is_gui, icon, later) =~= once);
        },
        None => {
            assert forall|j: int| 0 <= j < lib.len() implies (#[trigger] once[j]).slug != slug by {
                assert(once[j] == lib[j]);
            }
            lemma_find_index(once, slug, lib.len() as int);
            assert(spec_record_install(once, slug, repo, commit, path, is_gui, icon, later) =~= once);
        },
    }
}

proof fn lemma_remove_members(lib: Seq<EntryView>, slug: Seq<char>)
    ensures
        forall|j: int| 0 <= j < spec_remove(lib, slug).len() ==> (#[trigger] spec_remove(lib, slug)[j]).slug != slug,
    decreases lib.len(),
{
    if lib.len() > 0 {
        lemma_remove_members(lib.drop_last(), slug);
    }
}

/// After removing a slug, it is no longer in the library.
pub proof fn law_find_after_remove(lib: Seq<EntryView>, slug: Seq<char>)
    ensures
        spec_find(spec_remove(lib, slug), slug) is None,
{
    let after = spec_remove(lib, slug);
    lemma_remove_members(lib, slug);
    lemma_find_index(after, slug, after.len() as int);
}

/// Removing one slug leaves the lookup of every other slug unchanged.
pub proof fn law_remove_keeps_others(lib: Seq<EntryView>, slug: Seq<char>, other: Seq<char>)
    requires
        other != slug,
    ensures
        spec_find(spec_remove(lib, slug), other) == spec_find(lib, other),
    decreases lib.len(),
{
    if lib.len() > 0 {
        let prefix = lib.drop_last();
        law_remove_keeps_others(prefix, slug, other);
        lemma_find_index_first(prefix, other);
        lemma_find_index_first(spec_remove(prefix, slug), other);
        lemma_find_index_first(lib, other);
        let after = spec_remove(lib, slug);
        lemma_find_index_first(after, other);
        assert(find_index(lib, other) == match find_index(prefix, other) {
            Some(i) => Some(i),
            None => if lib.last().slug == other { Some(lib.len() - 1) } else { None },
        });
        if lib.last().slug == slug {
            assert(after == spec_remove(prefix, slug));
            match find_index(prefix, other) {
                Some(i) => {},
                None => {},
            }
        } else {
            let rp = spec_remove(prefix, slug);
            assert(after == rp.push(lib.last()));
            assert(after.drop_last() =~= rp);
        }
    }
}

/// Stamping a launch changes only the launched entry's launch time:
/// looking the slug up afterwards gives the same entry with
/// `last_launched_at` set to `now`, and a slug that is not installed
/// leaves the library as it was.
pub proof fn law_find_after_touch(lib: Seq<EntryView>, slug: Seq<char>, now: u64)
    ensures
        match spec_find(lib, slug) {
            Some(e) => spec_find(spec_touch(lib, slug, now), slug) == Some(
                EntryView { last_launched_at: Some(now), ..e },
            ),
            None => spec_touch(lib, slug, now) == lib,
        },
{
    lemma_find_index_first(lib, slug);
    if let Some(i) = find_index(lib, slug) {
        let after = spec_touch(lib, slug, now);
        assert forall|j: int| 0 <= j < i implies (#[trigger] after[j]).slug != slug by {
            assert(after[j] == lib[j]);
        }
        lemma_find_index(after, slug, i);
    }
}

/// Pointing a slug at a new icon changes only that entry's icon.
pub proof fn law_find_after_set_icon(lib: Seq<EntryView>, slug: Seq<char>, icon: Seq<char>)
    ensures
        match spec_find(lib, slug) {
            Some(e) => spec_find(spec_set_icon(lib, slug, icon), slug) == Some(
                EntryView { icon: Some(icon), ..e },
            ),
            None => spec_set_icon(lib, slug, icon) == lib,
        },
{
    lemma_find_index_first(lib, slug);
    if let Some(i) = find_index(lib, slug) {
        let after = spec_set_icon(lib, slug, icon);
        assert forall|j: int| 0 <= j < i implies (#[trigger] after[j]).slug != slug by {
            assert(after[j] == lib[j]);
        }
        lemma_find_index(after, slug, i);
    }
}

/// Every entry left by a removal was in the library, in the same order.
proof fn lemma_remove_from(lib: Seq<EntryView>, slug: Seq<char>)
    ensures
        spec_remove(lib, slug).len() <= lib.len(),
        forall|j: int|
            0 <= j < spec_remove(lib, slug).len() ==> exists|k: int|
                0 <= k < lib.len() && #[trigger] spec_remove(lib, slug)[j] == lib[k],
    decreases lib.len(),
{
    if lib.len() > 0 {
        let prefix = lib.drop_last();
        lemma_remove_from(prefix, slug);
        let rp = spec_remove(prefix, slug);
        let after = spec_remove(lib, slug);
        assert forall|j: int| 0 <= j < after.len() implies exists|k: int|
            0 <= k < lib.len() && #[trigger] after[j] == lib[k] by {
            if j < rp.len() {
                let k = choose|k: int| 0 <= k < prefix.len() && rp[j] == prefix[k];
                assert(after[j] == rp[j]);
                assert(lib[k] == prefix[k]);
            } else {
                assert(after[j] == lib[lib.len() - 1]);
            }
        }
    }
}

/// Stamping a launch, changing an icon and removing an entry all keep
/// slugs unique (as recording an install does).
pub proof fn law_operations_keep_slugs_unique(lib: Seq<EntryView>, slug: Seq<char>, icon: Seq<char>, now: u64)
    requires
        slugs_unique(lib),
    ensures
        slugs_unique(spec_touch(lib, slug, now)),
        slugs_unique(spec_set_icon(lib, slug, icon)),
        slugs_unique(spec_remove(lib, slug)),
    decreases lib.len(),
{
    lemma_find_index_first(lib, slug);
    let touched = spec_touch(lib, slug, now);
    assert forall|i: int, j: int|
        0 <= i < touched.len() && 0 <= j < touched.len() && i != j implies #[trigger] touched[i].slug
        != #[trigger] touched[j].slug by {
        assert(touched[i].slug == lib[i].slug);
        assert(touched[j].slug == lib[j].slug);
    }
    let iconed = spec_set_icon(lib, slug, icon);
    assert forall|i: int, j: int|
        0 <= i < iconed.len() && 0 <= j < iconed.len() && i != j implies #[trigger] iconed[i].slug
        != #[trigger] iconed[j].slug by {
        assert(iconed[i].slug == lib[i].slug);
        assert(iconed[j].slug == lib[j].slug);
    }
    if lib.len() > 0 {
        let prefix = lib.drop_last();
        assert forall|i: int, j: int|
            0 <= i < prefix.len() && 0 <= j < prefix.len() && i != j implies #[trigger] prefix[i].slug
            != #[trigger] prefix[j].slug by {
            assert(prefix[i] == lib[i]);
            assert(prefix[j] == lib[j]);
        }
        law_operations_keep_slugs_unique(prefix, slug, icon, now);
        let rp = spec_remove(prefix, slug);
        let after = spec_remove(lib, slug);
        if lib.last().slug != slug {
            lemma_remove_from(prefix, slug);
            assert forall|i: int, j: int|
                0 <= i < after.len() && 0 <= j < after.len() && i != j implies #[trigger] after[i].slug
                != #[trigger] after[j].slug by {
                if i < rp.len() && j < rp.len() {
                    assert(after[i] == rp[i]);
                    assert(after[j] == rp[j]);
                } else if i < rp.len() {
                    let k = choose|k: int| 0 <= k < prefix.len() && rp[i] == prefix[k];
                    assert(after[i] == lib[k]);
                    assert(after[j] == lib[lib.len() - 1]);
                } else {
                    let k = choose|k: int| 0 <= k < prefix.len() && rp[j] == prefix[k];
                    assert(after[j] == lib[k]);
                    assert(after[i] == lib[lib.len() - 1]);
                }
            }
        }
    }
}

} // verus!
