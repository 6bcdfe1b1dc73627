//! Where installed apps live on disk, all under `<home>/.securexe`, and
//! when a cached download can be reused.
use vstd::prelude::*;
use vstd::string::*;

use crate::paths::{path_join, spec_path_join};

verus! {

/// `<home>/.securexe`.
pub open spec fn spec_securexe_home(home: Seq<char>) -> Seq<char> {
    spec_path_join(home, ".securexe"@)
}

/// `<home>/.securexe/apps/<slug>`.
pub open spec fn spec_app_dir(home: Seq<char>, slug: Seq<char>) -> Seq<char> {
    spec_path_join(spec_path_join(spec_securexe_home(home), "apps"@), slug)
}

/// `<home>/.securexe/apps/<slug>/<commit>/<file>`.
pub open spec fn spec_artifact_path(home: Seq<char>, slug: Seq<char>, commit: Seq<char>, file: Seq<char>) -> Seq<char> {
    spec_path_join(spec_path_join(spec_app_dir(home, slug), commit), file)
}

/// `<home>/.securexe/icons/<slug>.png`.
pub open spec fn spec_icon_path(home: Seq<char>, slug: Seq<char>) -> Seq<char> {
    spec_path_join(spec_path_join(spec_securexe_home(home), "icons"@), slug + ".png"@)
}

/// `<home>/.securexe/sandbox/<slug>`.
pub open spec fn spec_sandbox_dir(home: Seq<char>, slug: Seq<char>) -> Seq<char> {
    spec_path_join(spec_path_join(spec_securexe_home(home), "sandbox"@), slug)
}

/// `<home>/.securexe`, the launcher's own directory.
pub fn securexe_home(home: &str) -> (res: String)
    ensures
        res@ == spec_securexe_home(home@),
{
    path_join(home, ".securexe")
}

/// `<home>/.securexe/<name>`: one of the launcher's own files
/// (`library.json`, `account.json`, `device_id`).
pub fn state_file(home: &str, name: &str) -> (res: String)
    ensures
        res@ == spec_path_join(spec_securexe_home(home@), name@),
{
    path_join(securexe_home(home).as_str(), name)
}

/// `<home>/.securexe/apps/<slug>/` — every downloaded build of an app,
/// across all commits. `slug` is validated before it reaches here.
pub fn app_dir(home: &str, slug: &str) -> (res: String)
    ensures
        res@ == spec_app_dir(home@, slug@),
{
    let apps = path_join(securexe_home(home).as_str(), "apps");
    path_join(apps.as_str(), slug)
}

/// `<home>/.securexe/apps/<slug>/<commit>/` — one downloaded build.
pub fn commit_dir(home: &str, slug: &str, commit: &str) -> (res: String)
    ensures
        res@ == spec_path_join(spec_app_dir(home@, slug@), commit@),
{
    path_join(app_dir(home, slug).as_str(), commit)
}

/// `<home>/.securexe/apps/<slug>/<commit>/<file>`.
pub fn artifact_path(home: &str, slug: &str, commit: &str, file: &str) -> (res: String)
    ensures
        res@ == spec_artifact_path(home@, slug@, commit@, file@),
{
    path_join(commit_dir(home, slug, commit).as_str(), file)
}

/// `<home>/.securexe/icons/<slug>.png` — where an app's icon is cached,
/// keyed by slug since an icon belongs to the app, not to one build.
pub fn icon_path(home: &str, slug: &str) -> (res: String)
    ensures
        res@ == spec_icon_path(home@, slug@),
{
    let icons = path_join(securexe_home(home).as_str(), "icons");
    let mut name = slug.to_owned();
    name.append(".png");
    path_join(icons.as_str(), name.as_str())
}

/// `<home>/.securexe/icons/<slug>.svg` — where the worker's badge for an
/// app is cached, beside the `.png` converted from a bundle's own icon.
pub fn worker_icon_path(home: &str, slug: &str) -> (res: String)
    ensures
        res@ == spec_path_join(spec_path_join(spec_securexe_home(home@), "icons"@), slug@ + ".svg"@),
{
    let icons = path_join(securexe_home(home).as_str(), "icons");
    let mut name = slug.to_owned();
    name.append(".svg");
    path_join(icons.as_str(), name.as_str())
}

/// `<home>/.securexe/sandbox/<slug>/` — the working directory a launched
/// app runs in, never the user's real home: a tool that reads or writes
/// "the current directory" only touches its own space.
pub fn sandbox_dir(home: &str, slug: &str) -> (res: String)
    ensures
        res@ == spec_sandbox_dir(home@, slug@),
{
    let sandbox = path_join(securexe_home(home).as_str(), "sandbox");
    path_join(sandbox.as_str(), slug)
}

/// ASCII letters folded to lower case; every other character unchanged.
pub open spec fn ascii_lower(c: char) -> char {
    if 'A' <= c && c <= 'Z' {
        ((c as u8) + 32) as char
    } else {
        c
    }
}

/// Equal up to ASCII case (`str::eq_ignore_ascii_case`): hex digests match
/// whichever case either side was written in.
pub open spec fn spec_eq_ignore_ascii_case(a: Seq<char>, b: Seq<char>) -> bool {
    a.len() == b.len() && forall|i: int| 0 <= i < a.len() ==> ascii_lower(#[trigger] a[i]) == ascii_lower(b[i])
}

fn lower(c: char) -> (res: char)
    ensures
        res == ascii_lower(c),
{
    if 'A' <= c && c <= 'Z' {
        ((c as u8) + 32) as char
    } else {
        c
    }
}

/// Whether two digests agree up to ASCII case.
pub fn checksum_matches(actual: &str, expected: &str) -> (res: bool)
    ensures
        res == spec_eq_ignore_ascii_case(actual@, expected@),
{
    let n = actual.unicode_len();
    if n != expected.unicode_len() {
        return false;
    }
    let mut i: usize = 0;
    while i < n
        invariant
            n == actual@.len(),
            n == expected@.len(),
            i <= n,
            forall|j: int| 0 <= j < i ==> ascii_lower(#[trigger] actual@[j]) == ascii_lower(expected@[j]),
        decreases n - i,
    {
        if lower(actual.get_char(i)) != lower(expected.get_char(i)) {
            return false;
        }
        i = i + 1;
    }
    true
}

/// Whether an already-downloaded file can be used as is. `file_digest` is
/// the SHA-256 (hex) of the file at the artifact's path, or `None` when
/// there is no such file or it cannot be read; a cache hit skips the
/// download entirely.
pub fn is_cached(file_digest: Option<&str>, expected_sha256: &str) -> (res: bool)
    ensures
        res == match file_digest {
            Some(d) => spec_eq_ignore_ascii_case(d@, expected_sha256@),
            None => false,
        },
{
    match file_digest {
        Some(d) => checksum_matches(d, expected_sha256),
        None => false,
    }
}

/// Matching digests is an equivalence: reflexive, symmetric and
/// transitive, so "the download matches the manifest" does not depend on
/// which side is compared to which.
pub proof fn law_checksum_match_is_equivalence(a: Seq<char>, b: Seq<char>, c: Seq<char>)
    ensures
        spec_eq_ignore_ascii_case(a, a),
        spec_eq_ignore_ascii_case(a, b) ==> spec_eq_ignore_ascii_case(b, a),
        spec_eq_ignore_ascii_case(a, b) && spec_eq_ignore_ascii_case(b, c)
            ==> spec_eq_ignore_ascii_case(a, c),
{
    if spec_eq_ignore_ascii_case(a, b) && spec_eq_ignore_ascii_case(b, c) {
        assert forall|i: int| 0 <= i < a.len() implies ascii_lower(#[trigger] a[i]) == ascii_lower(c[i]) by {
            assert(ascii_lower(b[i]) == ascii_lower(c[i]));
        }
    }
    if spec_eq_ignore_ascii_case(a, b) {
        assert forall|i: int| 0 <= i < b.len() implies ascii_lower(#[trigger] b[i]) == ascii_lower(a[i]) by {
            assert(ascii_lower(a[i]) == ascii_lower(b[i]));
        }
    }
}

} // verus!
