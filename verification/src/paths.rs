//! Filesystem paths as text. Joining and taking extensions is done by
//! `std::path`, so the results follow the platform's rules.
use vstd::prelude::*;

verus! {

/// `Path::new(base).join(part)` rendered as text.
pub uninterp spec fn spec_path_join(base: Seq<char>, part: Seq<char>) -> Seq<char>;

/// `Path::new(path).extension()` as text (`None` when the file name has
/// no extension).
pub uninterp spec fn spec_path_extension(path: Seq<char>) -> Option<Seq<char>>;

/// Joins `part` onto `base` (`Path::join`). Both are valid UTF-8, so the
/// joined path is too and renders losslessly.
#[verifier::external_body]
pub(crate) fn path_join(base: &str, part: &str) -> (res: String)
    ensures
        res@ == spec_path_join(base@, part@),
{
    std::path::Path::new(base).join(part).to_string_lossy().into_owned()
}

/// The extension of the path's file name (`Path::extension`).
#[verifier::external_body]
pub(crate) fn path_extension(path: &str) -> (res: Option<String>)
    ensures
        res.deep_view() == spec_path_extension(path@),
{
    std::path::Path::new(path).extension().and_then(|e| e.to_str()).map(|e| e.to_string())
}

/// Whether `path`'s extension is exactly `ext`.
pub fn has_extension(path: &str, ext: &str) -> (res: bool)
    ensures
        res == (spec_path_extension(path@) == Some(ext@)),
{
    match path_extension(path) {
        Some(e) => crate::text::str_eq(e.as_str(), ext),
        None => false,
    }
}

} // verus!
