use securexe_launcher::flow::{install_changed, plan_install, step, verify_download, Action, Event, Stage, StatusEvent};
use securexe_launcher::install::{
    app_dir, artifact_path, checksum_matches, commit_dir, icon_path, is_cached, sandbox_dir, securexe_home, state_file,
    worker_icon_path,
};
use securexe_launcher::library::{find, record_install, remove, set_icon, touch_last_launched, LibraryEntry};
use securexe_launcher::orchestrator::{Artifact, Manifest, Source};
use securexe_launcher::error::LauncherError;

fn entry(slug: &str, repo: &str, commit: &str) -> LibraryEntry {
    LibraryEntry {
        slug: slug.into(),
        repo: repo.into(),
        commit: commit.into(),
        path: format!("/apps/{slug}"),
        is_gui: false,
        icon: None,
        installed_at: 10,
        last_launched_at: None,
    }
}

#[test]
fn record_install_appends_then_updates() {
    let mut lib = vec![entry("a__b", "a/b", "111")];
    record_install(&mut lib, "c__d", "c/d", "222", "/x/c", true, Some("/i.png"), 50);
    assert_eq!(lib.len(), 2);
    assert_eq!(lib[1].installed_at, 50);
    assert_eq!(lib[1].last_launched_at, None);
    assert_eq!(lib[1].icon.as_deref(), Some("/i.png"));

    lib[0].last_launched_at = Some(20);
    record_install(&mut lib, "a__b", "a/b", "333", "/y", true, None, 99);
    assert_eq!(lib.len(), 2);
    assert_eq!(lib[0].commit, "333");
    assert_eq!(lib[0].path, "/y");
    assert!(lib[0].is_gui);
    assert_eq!(lib[0].installed_at, 10);
    assert_eq!(lib[0].last_launched_at, Some(20));
}

#[test]
fn find_touch_remove() {
    let mut lib = vec![entry("a__b", "a/b", "1"), entry("c__d", "c/d", "2")];
    assert_eq!(find(&lib, "c__d").map(|e| e.commit), Some("2".to_string()));
    assert!(find(&lib, "x__y").is_none());
    assert!(touch_last_launched(&mut lib, "c__d", 77));
    assert_eq!(lib[1].last_launched_at, Some(77));
    assert!(!touch_last_launched(&mut lib, "nope", 78));
    let lib = remove(lib, "a__b");
    assert_eq!(lib.len(), 1);
    assert_eq!(lib[0].slug, "c__d");
    assert!(find(&lib, "a__b").is_none());
}

#[test]
fn install_paths_live_under_securexe() {
    assert_eq!(securexe_home("/home/u"), "/home/u/.securexe");
    assert_eq!(app_dir("/home/u", "o__r"), "/home/u/.securexe/apps/o__r");
    assert_eq!(artifact_path("/home/u", "o__r", "abc", "tool"), "/home/u/.securexe/apps/o__r/abc/tool");
    assert_eq!(icon_path("/home/u", "o__r"), "/home/u/.securexe/icons/o__r.png");
    assert_eq!(sandbox_dir("/home/u", "o__r"), "/home/u/.securexe/sandbox/o__r");
    assert_eq!(worker_icon_path("/home/u", "o__r"), "/home/u/.securexe/icons/o__r.svg");
    assert_eq!(state_file("/home/u", "library.json"), "/home/u/.securexe/library.json");
    assert_eq!(commit_dir("/home/u", "o__r", "abc"), "/home/u/.securexe/apps/o__r/abc");
}

#[test]
fn set_icon_and_touch_change_only_their_entry() {
    let mut lib = vec![entry("a__b", "a/b", "1"), entry("c__d", "c/d", "2")];
    assert!(set_icon(&mut lib, "c__d", "/i/c.svg"));
    assert_eq!(lib[1].icon.as_deref(), Some("/i/c.svg"));
    assert_eq!(lib[0].icon, None);
    assert!(!set_icon(&mut lib, "x__y", "/i/x.svg"));
    assert_eq!(lib.len(), 2);
    assert!(touch_last_launched(&mut lib, "a__b", 5));
    assert_eq!(lib[0].last_launched_at, Some(5));
    assert_eq!(lib[1].last_launched_at, None);
    assert_eq!(lib[0].slug, "a__b");
    assert_eq!(lib[1].slug, "c__d");
}

#[test]
fn checksums_compare_ignoring_case() {
    assert!(checksum_matches("ABCdef01", "abcDEF01"));
    assert!(!checksum_matches("abc", "abcd"));
    assert!(!checksum_matches("abc", "abd"));
    assert!(is_cached(Some("AA"), "aa"));
    assert!(!is_cached(None, "aa"));
    assert!(verify_download("ff", "FF").is_ok());
    assert!(matches!(verify_download("ff", "fe"), Err(LauncherError::ChecksumMismatch)));
}

fn manifest(source: Option<&str>, artifacts: Vec<Artifact>) -> Manifest {
    Manifest { source: source.map(|c| Source { commit: c.into() }), artifacts }
}

fn artifact(os: &str, arch: &str, ok: bool, file: Option<&str>, sha: Option<&str>) -> Artifact {
    Artifact {
        os: os.into(),
        arch: arch.into(),
        file: file.map(Into::into),
        sha256: sha.map(Into::into),
        success: ok,
    }
}

#[test]
fn plan_install_resolves_commit_artifact_and_path() {
    let m = manifest(
        Some("abc123"),
        vec![
            artifact("linux", "amd64", false, Some("bad"), Some("00")),
            artifact("linux", "amd64", true, Some("tool"), Some("ff")),
        ],
    );
    let plan = plan_install(&m, "linux-amd64", "o/r", "/h", "o__r", None).ok().unwrap();
    assert_eq!(plan.commit, "abc123");
    assert_eq!(plan.file, "tool");
    assert_eq!(plan.expected_sha256, "ff");
    assert_eq!(plan.dest, "/h/.securexe/apps/o__r/abc123/tool");
}

#[test]
fn plan_install_errors() {
    let msg = |r: Result<securexe_launcher::flow::InstallPlan, LauncherError>| match r {
        Ok(_) => panic!("expected an error"),
        Err(e) => e.message(),
    };
    let m = manifest(None, vec![]);
    assert_eq!(msg(plan_install(&m, "linux-amd64", "o/r", "/h", "o__r", None)), "Not found: no resolvable commit for o/r");
    let m = manifest(Some("../etc"), vec![]);
    assert_eq!(msg(plan_install(&m, "linux-amd64", "o/r", "/h", "o__r", Some("abc"))), "Not found: no resolvable commit for o/r");
    let m = manifest(None, vec![artifact("darwin", "arm64", true, Some("f"), Some("aa"))]);
    assert_eq!(msg(plan_install(&m, "linux-amd64", "o/r", "/h", "o__r", Some("abc"))), "Not found: no build for o/r (linux-amd64)");
    let m = manifest(None, vec![artifact("linux", "amd64", true, None, Some("aa"))]);
    assert_eq!(msg(plan_install(&m, "linux-amd64", "o/r", "/h", "o__r", Some("abc"))), "Not found: manifest missing file for linux-amd64");
    let m = manifest(None, vec![artifact("linux", "amd64", true, Some("f"), None)]);
    assert_eq!(msg(plan_install(&m, "linux-amd64", "o/r", "/h", "o__r", Some("abc"))), "Not found: manifest missing checksum for linux-amd64");
}

#[test]
fn install_change_detection() {
    assert!(install_changed(&None, "abc"));
    assert!(install_changed(&Some(entry("s", "r", "old")), "new"));
    assert!(!install_changed(&Some(entry("s", "r", "same")), "same"));
}

#[test]
fn error_events_carry_the_message() {
    match StatusEvent::from_error(&LauncherError::ChecksumMismatch) {
        StatusEvent::Error { message } => assert_eq!(message, "Checksum mismatch \u{2014} refusing to run this file"),
        _ => panic!("expected an error event"),
    }
    assert_eq!(LauncherError::Io("x".into()).message(), "Local error: x");
    assert_eq!(LauncherError::Network("x".into()).message(), "Network error: x");
    assert_eq!(LauncherError::NotFound("x".into()).message(), "Not found: x");
}

#[test]
fn pipeline_uses_a_matching_cache_and_launches_gui_hosted_first() {
    let hit = step(Stage::CheckingCache, &Event::CacheChecked { digest: Some("AB".into()) }, "ab", true);
    assert_eq!(hit, (Stage::Installing, Action::Install));
    assert_eq!(step(Stage::Installing, &Event::Installed { is_gui: true }, "ab", true), (Stage::Hosting, Action::LaunchHosted));
    assert_eq!(step(Stage::Hosting, &Event::HostedLaunched { ok: false }, "ab", true), (Stage::Spawning, Action::LaunchPlain));
    assert_eq!(step(Stage::Hosting, &Event::HostedLaunched { ok: true }, "ab", true), (Stage::Finished, Action::Finish));
    assert_eq!(step(Stage::Installing, &Event::Installed { is_gui: false }, "ab", true), (Stage::Spawning, Action::LaunchPlain));
    assert_eq!(step(Stage::Spawning, &Event::Spawned, "ab", true), (Stage::Finished, Action::Finish));
    assert_eq!(step(Stage::Installing, &Event::Installed { is_gui: true }, "ab", false), (Stage::Finished, Action::Finish));
}

#[test]
fn pipeline_downloads_and_discards_a_bad_download() {
    assert_eq!(step(Stage::CheckingCache, &Event::CacheChecked { digest: None }, "ab", true), (Stage::Downloading, Action::Download));
    assert_eq!(step(Stage::CheckingCache, &Event::CacheChecked { digest: Some("cd".into()) }, "ab", true), (Stage::Downloading, Action::Download));
    assert_eq!(step(Stage::Downloading, &Event::Downloaded, "ab", true), (Stage::Verifying, Action::Verify));
    assert_eq!(step(Stage::Verifying, &Event::Digested { digest: "cd".into() }, "ab", true), (Stage::Finished, Action::DiscardDownload));
    assert_eq!(step(Stage::Verifying, &Event::Digested { digest: "AB".into() }, "ab", true), (Stage::Installing, Action::Install));
    assert_eq!(step(Stage::Finished, &Event::Downloaded, "ab", true), (Stage::Finished, Action::OutOfOrder));
    assert_eq!(step(Stage::Downloading, &Event::Spawned, "ab", true), (Stage::Downloading, Action::OutOfOrder));
}
