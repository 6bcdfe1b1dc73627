//! What to execute for a downloaded artifact. A plain binary runs as is;
//! a zipped macOS `.app` bundle runs the executable its `Info.plist`
//! names. Unzipping and listing directories is the caller's part.
use vstd::prelude::*;
use vstd::string::*;

use crate::error::{LauncherError, SpecError};
use crate::paths::{has_extension, path_join, spec_path_extension, spec_path_join};
use crate::text::str_eq;

verus! {

/// The executable to launch, plus which `.app` bundle (if any) it came
/// from — the bundle is where the gallery's icon comes from.
pub struct Resolved {
    pub executable: String,
    pub app_bundle: Option<String>,
}

impl View for Resolved {
    type V = (Seq<char>, Option<Seq<char>>);

    open spec fn view(&self) -> (Seq<char>, Option<Seq<char>>) {
        (self.executable@, self.app_bundle.deep_view())
    }
}

/// First step of resolving an artifact: either it is directly executable,
/// or it is a zipped bundle to be found (and if need be unpacked) in
/// `extract_dir`.
pub enum Launchable {
    Ready(Resolved),
    NeedsBundle { extract_dir: String },
}

/// Resolves a downloaded artifact: anything but a `.zip` passes through
/// unchanged; a `.zip` is a bundle to look for in `<path>.extracted`.
pub fn resolve_launchable(path: &str) -> (res: Launchable)
    ensures
        spec_path_extension(path@) != Some("zip"@) ==> (res matches Launchable::Ready(r)
            && r@ == (path@, None::<Seq<char>>)),
        spec_path_extension(path@) == Some("zip"@) ==> (res matches Launchable::NeedsBundle {
            extract_dir,
        } && extract_dir@ == path@ + ".extracted"@),
{
    if !has_extension(path, "zip") {
        return Launchable::Ready(Resolved { executable: path.to_owned(), app_bundle: None });
    }
    let mut dir = path.to_owned();
    dir.append(".extracted");
    Launchable::NeedsBundle { extract_dir: dir }
}

/// The first directory entry of a listing that is a `.app` bundle: a
/// directory whose extension is `app`.
pub open spec fn bundle_index(listing: Seq<(Seq<char>, bool)>) -> Option<int>
    decreases listing.len(),
{
    if listing.len() == 0 {
        None
    } else {
        match bundle_index(listing.drop_last()) {
            Some(i) => Some(i),
            None => if listing.last().1 && spec_path_extension(listing.last().0) == Some("app"@) {
                Some(listing.len() - 1)
            } else {
                None
            },
        }
    }
}

proof fn lemma_bundle_index(listing: Seq<(Seq<char>, bool)>, k: int)
    requires
        0 <= k <= listing.len(),
        forall|j: int|
            0 <= j < k ==> !((#[trigger] listing[j]).1 && spec_path_extension(listing[j].0) == Some(
                "app"@,
            )),
        k == listing.len() || (listing[k].1 && spec_path_extension(listing[k].0) == Some("app"@)),
    ensures
        bundle_index(listing) == (if k < listing.len() { Some(k) } else { None::<int> }),
    decreases listing.len(),
{
    if listing.len() > 0 {
        if k < listing.len() {
            lemma_bundle_index(listing.drop_last(), k);
        } else {
            lemma_bundle_index(listing.drop_last(), k - 1);
        }
    }
}

/// Picks the `.app` bundle out of a directory listing (`(path, is_dir)`
/// pairs in the order the directory was read).
pub fn find_app_bundle(listing: &Vec<(String, bool)>) -> (res: Option<String>)
    ensures
        match bundle_index(listing.deep_view()) {
            Some(i) => res.deep_view() == Some(listing.deep_view()[i].0),
            None => res is None,
        },
{
    let ghost v = listing.deep_view();
    let mut i: usize = 0;
    while i < listing.len()
        invariant
            v == listing.deep_view(),
            i <= listing.len(),
            forall|j: int|
                0 <= j < i ==> !((#[trigger] v[j]).1 && spec_path_extension(v[j].0) == Some(
                    "app"@,
                )),
        decreases listing.len() - i,
    {
        let entry = &listing[i];
        assert(v[i as int] == (entry.0@, entry.1));
        if entry.1 && has_extension(entry.0.as_str(), "app") {
            proof {
                lemma_bundle_index(v, i as int);
            }
            return Some(entry.0.clone());
        }
        i = i + 1;
    }
    proof {
        lemma_bundle_index(v, i as int);
    }
    None
}

/// The error for a zip that held no `.app` bundle.
pub fn missing_bundle_error(path: &str) -> (res: LauncherError)
    ensures
        res@ == SpecError::Io("no .app bundle found in "@ + path@),
{
    let mut m = "no .app bundle found in ".to_owned();
    m.append(path);
    LauncherError::Io(m)
}

/// `plist::Value::from_reader` on the bytes of a property list: the parse
/// error's text, or — when the top level is a dictionary — its entries in
/// order, each key with its value if that value is a string (`None` when
/// the top level is not a dictionary).
pub uninterp spec fn spec_plist_dictionary(bytes: Seq<u8>) -> Result<
    Option<Seq<(Seq<char>, Option<Seq<char>>)>>,
    Seq<char>,
>;

/// The view of a property-list read.
pub open spec fn plist_view(r: Result<Option<Vec<(String, Option<String>)>>, String>) -> Result<
    Option<Seq<(Seq<char>, Option<Seq<char>>)>>,
    Seq<char>,
> {
    match r {
        Ok(d) => Ok(d.deep_view()),
        Err(e) => Err(e@),
    }
}

/// Reads a property list (`plist::Value::from_reader`) and lists the
/// top-level dictionary's entries with their string values. A plist
/// dictionary is a map, so no key appears twice.
#[verifier::external_body]
fn plist_top_level(bytes: &[u8]) -> (res: Result<Option<Vec<(String, Option<String>)>>, String>)
    ensures
        plist_view(res) == spec_plist_dictionary(bytes@),
        res matches Ok(Some(d)) ==> forall|i: int, j: int|
            0 <= i < j < d@.len() ==> (#[trigger] d@[i]).0@ != (#[trigger] d@[j]).0@,
{
    match plist::Value::from_reader(std::io::Cursor::new(bytes)) {
        Ok(v) => Ok(
            v.into_dictionary().map(|d| d.into_iter().map(|(k, v)| (k, v.into_string())).collect()),
        ),
        Err(e) => Err(e.to_string()),
    }
}

/// The string value of `key` in a dictionary listing, if it is there and
/// is a string.
pub open spec fn plist_string(entries: Seq<(Seq<char>, Option<Seq<char>>)>, key: Seq<char>) -> Option<Seq<char>>
    decreases entries.len(),
{
    if entries.len() == 0 {
        None
    } else if entries[0].0 == key {
        entries[0].1
    } else {
        plist_string(entries.drop_first(), key)
    }
}

fn lookup_string(entries: &Vec<(String, Option<String>)>, key: &str) -> (res: Option<String>)
    ensures
        res.deep_view() == plist_string(entries.deep_view(), key@),
{
    let ghost v = entries.deep_view();
    let mut i: usize = 0;
    assert(v.skip(0) =~= v);
    while i < entries.len()
        invariant
            v == entries.deep_view(),
            i <= entries.len(),
            plist_string(v, key@) == plist_string(v.skip(i as int), key@),
        decreases entries.len() - i,
    {
        assert(v.skip(i as int)[0] == v[i as int]);
        assert(v.skip(i as int).drop_first() =~= v.skip(i + 1));
        if str_eq(entries[i].0.as_str(), key) {
            return match &entries[i].1 {
                Some(s) => Some(s.clone()),
                None => None,
            };
        }
        i = i + 1;
    }
    None
}

/// The string value of `key` at the top of a property list, if any.
pub open spec fn plist_key(bytes: Seq<u8>, key: Seq<char>) -> Option<Seq<char>> {
    match spec_plist_dictionary(bytes) {
        Ok(Some(d)) => plist_string(d, key),
        _ => None,
    }
}

/// What `Info.plist` says a bundle's executable is.
pub open spec fn spec_bundle_executable_name(plist: Seq<u8>) -> Result<Seq<char>, SpecError> {
    match spec_plist_dictionary(plist) {
        Err(e) => Err(SpecError::Io("bad Info.plist: "@ + e)),
        Ok(_) => match plist_key(plist, "CFBundleExecutable"@) {
            Some(name) => Ok(name),
            None => Err(SpecError::Io("Info.plist missing CFBundleExecutable"@)),
        },
    }
}

/// The bundle's `CFBundleExecutable`, from the bytes of its `Info.plist`.
pub fn bundle_executable_name(plist: &[u8]) -> (res: Result<String, LauncherError>)
    ensures
        match res {
            Ok(n) => spec_bundle_executable_name(plist@) == Ok::<Seq<char>, SpecError>(n@),
            Err(e) => spec_bundle_executable_name(plist@) == Err::<Seq<char>, SpecError>(e@),
        },
{
    match plist_top_level(plist) {
        Err(e) => {
            let mut m = "bad Info.plist: ".to_owned();
            m.append(e.as_str());
            Err(LauncherError::Io(m))
        },
        Ok(dict) => {
            let found = match &dict {
                Some(entries) => lookup_string(entries, "CFBundleExecutable"),
                None => None,
            };
            match found {
                Some(name) => Ok(name),
                None => Err(LauncherError::Io("Info.plist missing CFBundleExecutable".to_owned())),
            }
        },
    }
}

/// `<app_dir>/Contents/Info.plist`.
pub fn info_plist_path(app_dir: &str) -> (res: String)
    ensures
        res@ == spec_path_join(spec_path_join(app_dir@, "Contents"@), "Info.plist"@),
{
    let contents = path_join(app_dir, "Contents");
    path_join(contents.as_str(), "Info.plist")
}

/// The executable of the bundle at `app_dir`, given its `Info.plist`:
/// `<app_dir>/Contents/MacOS/<CFBundleExecutable>`, from that bundle.
pub fn resolved_bundle(app_dir: &str, plist: &[u8]) -> (res: Result<Resolved, LauncherError>)
    ensures
        match spec_bundle_executable_name(plist@) {
            Ok(name) => res matches Ok(r) && r@ == (
                spec_path_join(
                    spec_path_join(spec_path_join(app_dir@, "Contents"@), "MacOS"@),
                    name,
                ),
                Some(app_dir@),
            ),
            Err(e) => res matches Err(err) && err@ == e,
        },
{
    let name = match bundle_executable_name(plist) {
        Ok(n) => n,
        Err(e) => return Err(e),
    };
    let contents = path_join(app_dir, "Contents");
    let macos = path_join(contents.as_str(), "MacOS");
    let executable = path_join(macos.as_str(), name.as_str());
    Ok(Resolved { executable, app_bundle: Some(app_dir.to_owned()) })
}

/// An icon file name as `CFBundleIconFile` gives it, with `.icns`
/// appended unless it already ends so.
pub open spec fn icns_name(icon_file: Seq<char>) -> Seq<char> {
    if icon_file.len() >= 5 && icon_file.skip(icon_file.len() - 5) == ".icns"@ {
        icon_file
    } else {
        icon_file + ".icns"@
    }
}

/// The `.icns` file a bundle declares as its icon:
/// `<app_dir>/Contents/Resources/<CFBundleIconFile>[.icns]`, if the plist
/// reads and names one.
pub fn icon_source(app_dir: &str, plist: &[u8]) -> (res: Option<String>)
    ensures
        match plist_key(plist@, "CFBundleIconFile"@) {
            Some(f) => res.deep_view() == Some(
                spec_path_join(
                    spec_path_join(spec_path_join(app_dir@, "Contents"@), "Resources"@),
                    icns_name(f),
                ),
            ),
            None => res is None,
        },
{
    let icon_file = match plist_top_level(plist) {
        Ok(Some(entries)) => match lookup_string(&entries, "CFBundleIconFile") {
            Some(f) => f,
            None => return None,
        },
        _ => return None,
    };
    let n = icon_file.as_str().unicode_len();
    proof {
        reveal_strlit(".icns");
    }
    let name = if n >= 5 && str_eq(icon_file.as_str().substring_char(n - 5, n), ".icns") {
        proof {
            assert(icon_file@.subrange(n - 5, n as int) =~= icon_file@.skip(n - 5));
        }
        icon_file
    } else {
        proof {
            if n >= 5 {
                assert(icon_file@.subrange(n - 5, n as int) =~= icon_file@.skip(n - 5));
            }
        }
        let mut s = icon_file;
        s.append(".icns");
        s
    };
    let contents = path_join(app_dir, "Contents");
    let resources = path_join(contents.as_str(), "Resources");
    Some(path_join(resources.as_str(), name.as_str()))
}

/// The bundle picked from a listing is the first entry that is a
/// directory with extension `app`; there is none exactly when no entry is
/// such a directory.
pub proof fn law_bundle_is_first_app_directory(listing: Seq<(Seq<char>, bool)>)
    ensures
        match bundle_index(listing) {
            Some(i) => {
                &&& 0 <= i < listing.len()
                &&& listing[i].1
                &&& spec_path_extension(listing[i].0) == Some("app"@)
                &&& forall|j: int|
                    #![trigger listing[j]]
                    0 <= j < i ==> !(listing[j].1 && spec_path_extension(listing[j].0) == Some("app"@))
            },
            None => forall|j: int|
                #![trigger listing[j]]
                0 <= j < listing.len() ==> !(listing[j].1 && spec_path_extension(listing[j].0) == Some(
                    "app"@,
                )),
        },
    decreases listing.len(),
{
    if listing.len() > 0 {
        let prefix = listing.drop_last();
        law_bundle_is_first_app_directory(prefix);
        let last = listing.len() - 1;
        assert(listing[last] == listing.last());
        match bundle_index(prefix) {
            Some(i) => {
                assert(prefix[i] == listing[i]);
                assert forall|j: int| 0 <= j < i implies !(#[trigger] listing[j].1 && spec_path_extension(
                    listing[j].0,
                ) == Some("app"@)) by {
                    assert(prefix[j] == listing[j]);
                }
            },
            None => {
                assert forall|j: int| 0 <= j < last implies !(#[trigger] listing[j].1 && spec_path_extension(
                    listing[j].0,
                ) == Some("app"@)) by {
                    assert(prefix[j] == listing[j]);
                }
            },
        }
    }
}

} // verus!
