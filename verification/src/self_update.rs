//! Whether a newer release of the launcher itself has been published.
//! The launcher compares its own version with the tag of the latest
//! published GitHub release; it only notifies, it never installs.
use vstd::prelude::*;
use vstd::string::*;

use crate::error::{LauncherError, SpecError};
use crate::text::{str_eq, strip_leading, trim_start_matches};

verus! {

/// Where the latest published release is looked up.
pub open spec fn releases_latest_url() -> Seq<char> {
    "https://api.github.com/repos/DavidMarsanic/securexe-launcher/releases/latest"@
}

/// The GitHub API endpoint for the latest published (non-draft,
/// non-prerelease) release.
pub fn releases_latest_url_string() -> (res: String)
    ensures
        res@ == releases_latest_url(),
{
    "https://api.github.com/repos/DavidMarsanic/securexe-launcher/releases/latest".to_owned()
}

/// What the frontend needs to show the notification and act on it.
pub struct LauncherUpdate {
    pub version: String,
    pub download_url: String,
}

/// `semver::Version::parse(text)`: `None` when `text` is a valid
/// semantic version, otherwise the parse error's text.
pub uninterp spec fn spec_semver_error(text: Seq<char>) -> Option<Seq<char>>;

/// `Version::parse(a) <= Version::parse(b)` for two valid versions
/// (semver's ordering: major, minor, patch, then pre-release and build
/// metadata).
pub uninterp spec fn spec_semver_le(a: Seq<char>, b: Seq<char>) -> bool;

/// `format!("{:?}", s)`: `s` quoted and escaped as Rust's `Debug` does.
pub uninterp spec fn spec_debug_str(s: Seq<char>) -> Seq<char>;

/// Parses a version (`semver::Version::parse`) and gives back the error
/// text if it is not valid.
#[verifier::external_body]
fn semver_parse_error(text: &str) -> (res: Option<String>)
    ensures
        res.deep_view() == spec_semver_error(text@),
{
    semver::Version::parse(text).err().map(|e| e.to_string())
}

/// Compares two valid versions (`Version`'s `<=`). `Ord` is reflexive, so
/// a version is never newer than itself.
#[verifier::external_body]
fn semver_le(a: &str, b: &str) -> (res: bool)
    requires
        spec_semver_error(a@) is None,
        spec_semver_error(b@) is None,
    ensures
        res == spec_semver_le(a@, b@),
        a@ == b@ ==> res,
{
    match (semver::Version::parse(a), semver::Version::parse(b)) {
        (Ok(x), Ok(y)) => x <= y,
        _ => false,
    }
}

/// `s` formatted with `{:?}`.
#[verifier::external_body]
fn debug_str(s: &str) -> (res: String)
    ensures
        res@ == spec_debug_str(s@),
{
    format!("{:?}", s)
}

/// The release asset file published for a platform, by
/// `std::env::consts` OS and architecture names.
pub open spec fn asset_for(os: Seq<char>, arch: Seq<char>) -> Option<Seq<char>> {
    if os == "macos"@ && arch == "aarch64"@ {
        Some("securexe-launcher-macos-arm64.dmg"@)
    } else if os == "macos"@ && arch == "x86_64"@ {
        Some("securexe-launcher-macos-x64.dmg"@)
    } else if os == "linux"@ && arch == "x86_64"@ {
        Some("securexe-launcher-linux-amd64.AppImage"@)
    } else if os == "windows"@ && arch == "x86_64"@ {
        Some("securexe-launcher-windows-x64-setup.exe"@)
    } else {
        None
    }
}

/// The fixed, version-agnostic download link of the latest release's
/// asset for a platform.
pub open spec fn spec_download_url(os: Seq<char>, arch: Seq<char>) -> Result<Seq<char>, SpecError> {
    match asset_for(os, arch) {
        Some(file) => Ok(
            "https://github.com/DavidMarsanic/securexe-launcher/releases/latest/download/"@ + file,
        ),
        None => Err(SpecError::Io("no published build for "@ + os + "/"@ + arch)),
    }
}

/// The view of a string result.
pub open spec fn string_result_view(r: Result<String, LauncherError>) -> Result<Seq<char>, SpecError> {
    match r {
        Ok(s) => Ok(s@),
        Err(e) => Err(e@),
    }
}

/// The download link release publishing keeps pointing at the latest
/// release's asset for this platform, so it never needs updating.
pub fn download_url_for_platform(os: &str, arch: &str) -> (res: Result<String, LauncherError>)
    ensures
        string_result_view(res) == spec_download_url(os@, arch@),
{
    let file: &str = if str_eq(os, "macos") && str_eq(arch, "aarch64") {
        "securexe-launcher-macos-arm64.dmg"
    } else if str_eq(os, "macos") && str_eq(arch, "x86_64") {
        "securexe-launcher-macos-x64.dmg"
    } else if str_eq(os, "linux") && str_eq(arch, "x86_64") {
        "securexe-launcher-linux-amd64.AppImage"
    } else if str_eq(os, "windows") && str_eq(arch, "x86_64") {
        "securexe-launcher-windows-x64-setup.exe"
    } else {
        let mut m = "no published build for ".to_owned();
        m.append(os);
        m.append("/");
        m.append(arch);
        return Err(LauncherError::Io(m));
    };
    let mut url = "https://github.com/DavidMarsanic/securexe-launcher/releases/latest/download/".to_owned();
    url.append(file);
    Ok(url)
}

/// Judges the status of the GitHub releases reply.
pub fn release_status(status: u16, status_text: &str) -> (res: Result<(), LauncherError>)
    ensures
        res is Ok <==> 200 <= status < 300,
        res matches Err(e) ==> e@ == SpecError::Io(
            "GitHub releases check failed: HTTP "@ + status_text@,
        ),
{
    if 200 <= status && status < 300 {
        Ok(())
    } else {
        let mut m = "GitHub releases check failed: HTTP ".to_owned();
        m.append(status_text);
        Err(LauncherError::Io(m))
    }
}

/// The outcome of comparing the running version with the latest release
/// tag (a leading `v` — or several — is not part of the version): the
/// update, if the release is strictly newer; `None` if the launcher is
/// current or ahead of it (a local dev build shouldn't nag).
pub open spec fn spec_check(current: Seq<char>, tag: Seq<char>, os: Seq<char>, arch: Seq<char>) -> Result<
    Option<(Seq<char>, Seq<char>)>,
    SpecError,
> {
    let latest = strip_leading(tag, 'v');
    match spec_semver_error(current) {
        Some(e) => Err(SpecError::Io("bad current version "@ + spec_debug_str(current) + ": "@ + e)),
        None => match spec_semver_error(latest) {
            Some(e) => Err(SpecError::Io("bad release tag "@ + spec_debug_str(tag) + ": "@ + e)),
            None => if spec_semver_le(latest, current) {
                Ok(None)
            } else {
                match spec_download_url(os, arch) {
                    Ok(url) => Ok(Some((latest, url))),
                    Err(e) => Err(e),
                }
            },
        },
    }
}

/// The view of a check result.
pub open spec fn check_result_view(r: Result<Option<LauncherUpdate>, LauncherError>) -> Result<
    Option<(Seq<char>, Seq<char>)>,
    SpecError,
> {
    match r {
        Ok(Some(u)) => Ok(Some((u.version@, u.download_url@))),
        Ok(None) => Ok(None),
        Err(e) => Err(e@),
    }
}

fn bad_version(prefix: &str, shown: &str, err: &str) -> (res: LauncherError)
    ensures
        res@ == SpecError::Io(prefix@ + spec_debug_str(shown@) + ": "@ + err@),
{
    let mut m = prefix.to_owned();
    m.append(debug_str(shown).as_str());
    m.append(": ");
    m.append(err);
    LauncherError::Io(m)
}

/// Rejects a running version that is not a semantic version — checked
/// before anything is fetched.
pub fn validate_current_version(current_version: &str) -> (res: Result<(), LauncherError>)
    ensures
        match spec_semver_error(current_version@) {
            Some(e) => res matches Err(err) && err@ == SpecError::Io(
                "bad current version "@ + spec_debug_str(current_version@) + ": "@ + e,
            ),
            None => res is Ok,
        },
{
    match semver_parse_error(current_version) {
        Some(e) => Err(bad_version("bad current version ", current_version, e.as_str())),
        None => Ok(()),
    }
}

/// Compares `current_version` (the running launcher's own version)
/// against the latest published release's `release_tag`, for the
/// platform `os`/`arch`.
pub fn check(current_version: &str, release_tag: &str, os: &str, arch: &str) -> (res: Result<Option<LauncherUpdate>, LauncherError>)
    ensures
        check_result_view(res) == spec_check(current_version@, release_tag@, os@, arch@),
        // A launcher already on the latest release is never told to update.
        strip_leading(release_tag@, 'v') == current_version@ && spec_semver_error(
            current_version@,
        ) is None ==> res matches Ok(None),
{
    match validate_current_version(current_version) {
        Ok(()) => {},
        Err(e) => return Err(e),
    }
    let latest = trim_start_matches(release_tag, 'v');
    match semver_parse_error(latest.as_str()) {
        Some(e) => return Err(bad_version("bad release tag ", release_tag, e.as_str())),
        None => {},
    }
    if semver_le(latest.as_str(), current_version) {
        return Ok(None);
    }
    match download_url_for_platform(os, arch) {
        Ok(url) => Ok(Some(LauncherUpdate { version: latest, download_url: url })),
        Err(e) => Err(e),
    }
}

/// The published installer each supported platform is sent, and nothing
/// for any other platform.
pub proof fn law_release_asset_per_platform(os: Seq<char>, arch: Seq<char>)
    ensures
        os == "macos"@ && arch == "aarch64"@ ==> spec_download_url(os, arch) == Ok::<Seq<char>, SpecError>(
            "https://github.com/DavidMarsanic/securexe-launcher/releases/latest/download/securexe-launcher-macos-arm64.dmg"@,
        ),
        os == "macos"@ && arch == "x86_64"@ ==> spec_download_url(os, arch) == Ok::<Seq<char>, SpecError>(
            "https://github.com/DavidMarsanic/securexe-launcher/releases/latest/download/securexe-launcher-macos-x64.dmg"@,
        ),
        os == "linux"@ && arch == "x86_64"@ ==> spec_download_url(os, arch) == Ok::<Seq<char>, SpecError>(
            "https://github.com/DavidMarsanic/securexe-launcher/releases/latest/download/securexe-launcher-linux-amd64.AppImage"@,
        ),
        os == "windows"@ && arch == "x86_64"@ ==> spec_download_url(os, arch) == Ok::<Seq<char>, SpecError>(
            "https://github.com/DavidMarsanic/securexe-launcher/releases/latest/download/securexe-launcher-windows-x64-setup.exe"@,
        ),
        !((os == "macos"@ && (arch == "aarch64"@ || arch == "x86_64"@)) || ((os == "linux"@ || os
            == "windows"@) && arch == "x86_64"@)) ==> spec_download_url(os, arch) == Err::<
            Seq<char>,
            SpecError,
        >(SpecError::Io("no published build for "@ + os + "/"@ + arch)),
{
    reveal_strlit("macos");
    reveal_strlit("linux");
    reveal_strlit("windows");
    reveal_strlit("aarch64");
    reveal_strlit("x86_64");
    assert("aarch64"@[0] != "x86_64"@[0]);
    assert("macos"@[0] != "linux"@[0]);
    assert("macos"@[0] != "windows"@[0]);
    assert("linux"@[0] != "windows"@[0]);
    reveal_strlit("https://github.com/DavidMarsanic/securexe-launcher/releases/latest/download/");
    reveal_strlit("securexe-launcher-macos-arm64.dmg");
    reveal_strlit("securexe-launcher-macos-x64.dmg");
    reveal_strlit("securexe-launcher-linux-amd64.AppImage");
    reveal_strlit("securexe-launcher-windows-x64-setup.exe");
    reveal_strlit("https://github.com/DavidMarsanic/securexe-launcher/releases/latest/download/securexe-launcher-macos-arm64.dmg");
    reveal_strlit("https://github.com/DavidMarsanic/securexe-launcher/releases/latest/download/securexe-launcher-macos-x64.dmg");
    reveal_strlit("https://github.com/DavidMarsanic/securexe-launcher/releases/latest/download/securexe-launcher-linux-amd64.AppImage");
    reveal_strlit("https://github.com/DavidMarsanic/securexe-launcher/releases/latest/download/securexe-launcher-windows-x64-setup.exe");
    let base = "https://github.com/DavidMarsanic/securexe-launcher/releases/latest/download/"@;
    assert(base + "securexe-launcher-macos-arm64.dmg"@ =~= "https://github.com/DavidMarsanic/securexe-launcher/releases/latest/download/securexe-launcher-macos-arm64.dmg"@);
    assert(base + "securexe-launcher-macos-x64.dmg"@ =~= "https://github.com/DavidMarsanic/securexe-launcher/releases/latest/download/securexe-launcher-macos-x64.dmg"@);
    assert(base + "securexe-launcher-linux-amd64.AppImage"@ =~= "https://github.com/DavidMarsanic/securexe-launcher/releases/latest/download/securexe-launcher-linux-amd64.AppImage"@);
    assert(base + "securexe-launcher-windows-x64-setup.exe"@ =~= "https://github.com/DavidMarsanic/securexe-launcher/releases/latest/download/securexe-launcher-windows-x64-setup.exe"@);
}

/// The installer a platform is sent is a build for that operating system:
/// its file name is `securexe-launcher-<os>-…`.
pub proof fn law_release_asset_names_its_os(os: Seq<char>, arch: Seq<char>)
    ensures
        asset_for(os, arch) matches Some(f) ==> f.len() >= 18 + os.len() && f.subrange(0, 18)
            == "securexe-launcher-"@ && f.subrange(18, 18 + os.len() as int) == os,
{
    reveal_strlit("securexe-launcher-");
    reveal_strlit("securexe-launcher-macos-arm64.dmg");
    reveal_strlit("securexe-launcher-macos-x64.dmg");
    reveal_strlit("securexe-launcher-linux-amd64.AppImage");
    reveal_strlit("securexe-launcher-windows-x64-setup.exe");
    reveal_strlit("macos");
    reveal_strlit("linux");
    reveal_strlit("windows");
    if let Some(f) = asset_for(os, arch) {
        assert(f.subrange(0, 18) =~= "securexe-launcher-"@);
        assert(f.subrange(18, 18 + os.len() as int) =~= os);
    }
}

/// What a check can answer: an update only to a valid release version
/// strictly newer than the running one, named as the tag without its
/// leading `v`s and sent with this platform's installer; no update
/// exactly when the release is not newer; and every refusal names a bad
/// version or an unsupported platform.
pub proof fn law_check_outcomes(current: Seq<char>, tag: Seq<char>, os: Seq<char>, arch: Seq<char>)
    ensures
        spec_check(current, tag, os, arch) matches Ok(Some(u)) ==> {
            &&& u.0 == strip_leading(tag, 'v')
            &&& spec_semver_error(current) is None
            &&& spec_semver_error(u.0) is None
            &&& !spec_semver_le(u.0, current)
            &&& spec_download_url(os, arch) == Ok::<Seq<char>, SpecError>(u.1)
        },
        spec_check(current, tag, os, arch) matches Ok(None) ==> {
            &&& spec_semver_error(current) is None
            &&& spec_semver_error(strip_leading(tag, 'v')) is None
            &&& spec_semver_le(strip_leading(tag, 'v'), current)
        },
        spec_semver_error(current) is None && spec_semver_error(strip_leading(tag, 'v')) is None
            && !spec_semver_le(strip_leading(tag, 'v'), current) && spec_download_url(os, arch) is Ok
            ==> spec_check(current, tag, os, arch) matches Ok(Some(_)),
{
}

} // verus!
