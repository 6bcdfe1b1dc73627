//! This machine's platform in the orchestrator's `os-arch` naming.
use vstd::prelude::*;
use vstd::string::*;

use crate::error::{LauncherError, SpecError};
use crate::text::str_eq;

verus! {

/// The orchestrator's name for a Rust OS name (`std::env::consts::OS`).
pub open spec fn os_key(os: Seq<char>) -> Option<Seq<char>> {
    if os == "macos"@ {
        Some("darwin"@)
    } else if os == "linux"@ {
        Some("linux"@)
    } else if os == "windows"@ {
        Some("windows"@)
    } else {
        None
    }
}

/// The orchestrator's name for a Rust architecture name
/// (`std::env::consts::ARCH`).
pub open spec fn arch_key(arch: Seq<char>) -> Option<Seq<char>> {
    if arch == "x86_64"@ {
        Some("amd64"@)
    } else if arch == "aarch64"@ {
        Some("arm64"@)
    } else {
        None
    }
}

/// `os-arch` for a supported platform; otherwise which part is not.
pub open spec fn spec_target_key(os: Seq<char>, arch: Seq<char>) -> Result<Seq<char>, SpecError> {
    match os_key(os) {
        None => Err(SpecError::InvalidUrl("unsupported OS '"@ + os + "'"@)),
        Some(o) => match arch_key(arch) {
            None => Err(SpecError::InvalidUrl("unsupported arch '"@ + arch + "'"@)),
            Some(a) => Ok(o + "-"@ + a),
        },
    }
}

fn unsupported(what: &str, name: &str) -> (res: LauncherError)
    ensures
        res@ == SpecError::InvalidUrl(what@ + name@ + "'"@),
{
    let mut m = what.to_owned();
    m.append(name);
    m.append("'");
    LauncherError::InvalidUrl(m)
}

/// Maps an OS/architecture pair (as `std::env::consts` names them) to the
/// orchestrator's `os-arch` target key, which must stay in sync with the
/// website's naming.
pub fn target_key(os: &str, arch: &str) -> (res: Result<String, LauncherError>)
    ensures
        match res {
            Ok(k) => spec_target_key(os@, arch@) == Ok::<Seq<char>, SpecError>(k@),
            Err(e) => spec_target_key(os@, arch@) == Err::<Seq<char>, SpecError>(e@),
        },
{
    let os_part: &str = if str_eq(os, "macos") {
        "darwin"
    } else if str_eq(os, "linux") {
        "linux"
    } else if str_eq(os, "windows") {
        "windows"
    } else {
        return Err(unsupported("unsupported OS '", os));
    };
    let arch_part: &str = if str_eq(arch, "x86_64") {
        "amd64"
    } else if str_eq(arch, "aarch64") {
        "arm64"
    } else {
        return Err(unsupported("unsupported arch '", arch));
    };
    let mut key = os_part.to_owned();
    key.append("-");
    key.append(arch_part);
    Ok(key)
}

/// The orchestrator's target for each supported platform, and a refusal
/// naming the unsupported part otherwise.
pub proof fn law_target_key_table(os: Seq<char>, arch: Seq<char>)
    ensures
        os == "macos"@ && arch == "aarch64"@ ==> spec_target_key(os, arch) == Ok::<Seq<char>, SpecError>("darwin-arm64"@),
        os == "macos"@ && arch == "x86_64"@ ==> spec_target_key(os, arch) == Ok::<Seq<char>, SpecError>("darwin-amd64"@),
        os == "linux"@ && arch == "x86_64"@ ==> spec_target_key(os, arch) == Ok::<Seq<char>, SpecError>("linux-amd64"@),
        os == "linux"@ && arch == "aarch64"@ ==> spec_target_key(os, arch) == Ok::<Seq<char>, SpecError>("linux-arm64"@),
        os == "windows"@ && arch == "x86_64"@ ==> spec_target_key(os, arch) == Ok::<Seq<char>, SpecError>("windows-amd64"@),
        os == "windows"@ && arch == "aarch64"@ ==> spec_target_key(os, arch) == Ok::<Seq<char>, SpecError>("windows-arm64"@),
        !(os == "macos"@ || os == "linux"@ || os == "windows"@) ==> spec_target_key(os, arch) == Err::<
            Seq<char>,
            SpecError,
        >(SpecError::InvalidUrl("unsupported OS '"@ + os + "'"@)),
        (os == "macos"@ || os == "linux"@ || os == "windows"@) && !(arch == "x86_64"@ || arch
            == "aarch64"@) ==> spec_target_key(os, arch) == Err::<Seq<char>, SpecError>(
            SpecError::InvalidUrl("unsupported arch '"@ + arch + "'"@),
        ),
{
    reveal_strlit("macos");
    reveal_strlit("linux");
    reveal_strlit("windows");
    reveal_strlit("aarch64");
    reveal_strlit("x86_64");
    reveal_strlit("darwin");
    reveal_strlit("amd64");
    reveal_strlit("arm64");
    reveal_strlit("-");
    reveal_strlit("darwin-arm64");
    reveal_strlit("darwin-amd64");
    reveal_strlit("linux-amd64");
    reveal_strlit("linux-arm64");
    reveal_strlit("windows-amd64");
    reveal_strlit("windows-arm64");
    assert("aarch64"@[0] != "x86_64"@[0]);
    assert("macos"@[0] != "linux"@[0]);
    assert("macos"@[0] != "windows"@[0]);
    assert("linux"@[0] != "windows"@[0]);
    assert("darwin"@ + "-"@ + "arm64"@ =~= "darwin-arm64"@);
    assert("darwin"@ + "-"@ + "amd64"@ =~= "darwin-amd64"@);
    assert("linux"@ + "-"@ + "amd64"@ =~= "linux-amd64"@);
    assert("linux"@ + "-"@ + "arm64"@ =~= "linux-arm64"@);
    assert("windows"@ + "-"@ + "amd64"@ =~= "windows-amd64"@);
    assert("windows"@ + "-"@ + "arm64"@ =~= "windows-arm64"@);
}

} // verus!
