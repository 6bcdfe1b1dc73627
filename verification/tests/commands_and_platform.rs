use securexe_launcher::bundle::{
    bundle_executable_name, find_app_bundle, icon_source, info_plist_path, missing_bundle_error,
    resolve_launchable, resolved_bundle, Launchable,
};
use securexe_launcher::commands::{
    account_library_entries, catalog_entries, icon_data_url, not_installed, route, slug_for_repo,
    stale_entries, svg_data_url, validate_repo, window_title, Dispatcher, Route,
};
use securexe_launcher::hosted::ready_url;
use securexe_launcher::library::LibraryEntry;
use securexe_launcher::orchestrator::{
    device_token_from_reply, download_status, download_url, icon_url, manifest_status, manifest_url,
    require_ok_body, require_success, search_url, worker_url, Artifact, LibraryItem, Manifest,
    SearchResult,
};
use securexe_launcher::platform::target_key;
use securexe_launcher::run::{executable_mode, is_gui, is_gui_subsystem, launch_script, launch_script_name, shell_quote};
use securexe_launcher::self_update::{
    check, download_url_for_platform, release_status, releases_latest_url_string, validate_current_version,
};

fn art(os: &str, arch: &str, ok: bool) -> Artifact {
    Artifact { os: os.into(), arch: arch.into(), file: Some("f".into()), sha256: Some("s".into()), success: ok }
}

#[test]
fn artifact_for_picks_first_successful_match() {
    let m = Manifest {
        source: None,
        artifacts: vec![art("linux", "amd64", false), art("darwin", "arm64", true), art("linux", "amd64", true)],
    };
    let a = m.artifact_for("linux-amd64").unwrap();
    assert!(a.success && a.os == "linux");
    assert!(m.artifact_for("windows-amd64").is_none());
}

#[test]
fn request_urls() {
    assert_eq!(manifest_url("o__r", None), "https://worker.brightencode.com/manifest?repo=o__r");
    assert_eq!(manifest_url("o__r", Some("ab")), "https://worker.brightencode.com/manifest?repo=o__r&commit=ab");
    assert_eq!(
        download_url("o__r", "linux-amd64", Some("ab")),
        "https://worker.brightencode.com/download?repo=o__r&target=linux-amd64&commit=ab"
    );
    assert_eq!(search_url(None), "https://worker.brightencode.com/search?q=");
    assert_eq!(search_url(Some("pdf tools")), "https://worker.brightencode.com/search?q=pdf+tools");
    assert_eq!(icon_url("DavidMarsanic/pdf-toolkit"), "https://worker.brightencode.com/icon?repo=DavidMarsanic%2Fpdf-toolkit");
    assert_eq!(worker_url("/updates"), "https://worker.brightencode.com/updates");
}

#[test]
fn reply_judgements() {
    assert!(require_success(204, "204 No Content", "x").is_ok());
    assert_eq!(require_success(500, "500 Internal Server Error", "updates request failed").err().unwrap().message(),
        "Network error: updates request failed: 500 Internal Server Error");
    assert_eq!(manifest_status(404, "404 Not Found", "o__r").err().unwrap().message(), "Not found: no manifest for o__r");
    assert_eq!(manifest_status(502, "502 Bad Gateway", "o__r").err().unwrap().message(), "Network error: manifest request failed: 502 Bad Gateway");
    assert!(manifest_status(200, "200 OK", "o__r").is_ok());
    assert_eq!(download_status(404, "404 Not Found", "o__r", "linux-amd64").err().unwrap().message(), "Not found: no build for o__r / linux-amd64");
    assert!(require_ok_body("ok", "search").is_ok());
    assert_eq!(require_ok_body("error", "search").err().unwrap().message(), "Network error: unexpected search response");
    assert_eq!(device_token_from_reply("ok", Some("tok".into())).ok(), Some("tok".to_string()));
    assert_eq!(device_token_from_reply("ok", None).err().unwrap().message(), "Network error: device-link response missing token");
    assert_eq!(device_token_from_reply("nope", Some("t".into())).err().unwrap().message(), "Network error: unexpected device-link response");
}

#[test]
fn target_keys() {
    assert_eq!(target_key("macos", "aarch64").ok(), Some("darwin-arm64".to_string()));
    assert_eq!(target_key("linux", "x86_64").ok(), Some("linux-amd64".to_string()));
    assert_eq!(target_key("windows", "x86_64").ok(), Some("windows-amd64".to_string()));
    assert_eq!(target_key("freebsd", "x86_64").err().unwrap().message(), "Invalid link: unsupported OS 'freebsd'");
    assert_eq!(target_key("linux", "riscv64").err().unwrap().message(), "Invalid link: unsupported arch 'riscv64'");
}

#[test]
fn reports_update_only_when_genuinely_behind() {
    // Latest published release at the time of writing.
    let tag = "v0.1.15";
    let behind = check("0.1.0", tag, "macos", "aarch64").ok().expect("check failed");
    assert!(behind.is_some(), "0.1.0 should be reported behind the real latest release");
    let update = behind.unwrap();
    assert!(update.download_url.starts_with(
        "https://github.com/DavidMarsanic/securexe-launcher/releases/latest/download/"
    ));
    assert_eq!(update.version, "0.1.15");

    let ahead = check("999.0.0", tag, "macos", "aarch64").ok().expect("check failed");
    assert!(ahead.is_none(), "a version ahead of any real release should not report an update");
}

#[test]
fn self_update_edges() {
    assert!(check("0.1.15", "v0.1.15", "linux", "x86_64").ok().unwrap().is_none());
    assert_eq!(check("nope", "v1.0.0", "linux", "x86_64").err().unwrap().message().starts_with("Local error: bad current version \"nope\": "), true);
    assert_eq!(check("1.0.0", "release-1", "linux", "x86_64").err().unwrap().message().starts_with("Local error: bad release tag \"release-1\": "), true);
    assert_eq!(check("0.1.0", "v0.2.0", "linux", "aarch64").err().unwrap().message(), "Local error: no published build for linux/aarch64");
    assert_eq!(download_url_for_platform("windows", "x86_64").ok().unwrap(),
        "https://github.com/DavidMarsanic/securexe-launcher/releases/latest/download/securexe-launcher-windows-x64-setup.exe");
    assert!(release_status(200, "200 OK").is_ok());
    assert_eq!(release_status(403, "403 Forbidden").err().unwrap().message(), "Local error: GitHub releases check failed: HTTP 403 Forbidden");
    assert!(releases_latest_url_string().starts_with("https://api.github.com/"));
    assert!(validate_current_version("0.1.0").is_ok());
    assert!(validate_current_version("1.2.3-beta.1+build").is_ok());
    assert!(validate_current_version("v0.1.0").err().unwrap().message().starts_with("Local error: bad current version \"v0.1.0\": "));
}

fn entry(slug: &str, repo: &str) -> LibraryEntry {
    LibraryEntry {
        slug: slug.into(), repo: repo.into(), commit: "c".into(), path: "p".into(),
        is_gui: false, icon: None, installed_at: 0, last_launched_at: None,
    }
}

#[test]
fn catalog_tiles() {
    let results = vec![
        SearchResult { repo: "a/tool".into(), icon_url: Some("https://i".into()), kind: None, artifacts: vec![art("linux", "amd64", true)] },
        SearchResult { repo: "a/dev".into(), icon_url: None, kind: Some("utility".into()), artifacts: vec![] },
        SearchResult { repo: "b/app".into(), icon_url: None, kind: Some("app".into()), artifacts: vec![art("linux", "amd64", false)] },
    ];
    let tiles = catalog_entries(&results, &vec!["b/app".to_string()], "linux-amd64");
    assert_eq!(tiles.len(), 2);
    assert_eq!(tiles[0].slug, "a__tool");
    assert!(tiles[0].available && !tiles[0].installed);
    assert_eq!(tiles[0].icon_url.as_deref(), Some("https://i"));
    assert_eq!(tiles[1].repo, "b/app");
    assert!(!tiles[1].available && tiles[1].installed);
}

#[test]
fn account_library_section() {
    let items: Vec<LibraryItem> = ["a/x", "b/y", "a/x", "c/z"].iter().map(|r| LibraryItem { repo: r.to_string() }).collect();
    let shown = account_library_entries(&items, &vec!["b/y".to_string()]);
    let repos: Vec<&str> = shown.iter().map(|e| e.repo.as_str()).collect();
    assert_eq!(repos, vec!["a/x", "c/z"]);
    assert_eq!(shown[0].slug, "a__x");
    assert_eq!(shown[0].icon_url, "https://worker.brightencode.com/icon?repo=a%2Fx");
    assert!(account_library_entries(&vec![], &vec![]).is_empty());
}

#[test]
fn stale_apps() {
    let lib = vec![entry("a__x", "a/x"), entry("b__y", "b/y"), entry("c__z", "c/z")];
    let stale = stale_entries(&lib, &vec!["c/z".to_string(), "a/x".to_string(), "q/q".to_string()]);
    let slugs: Vec<&str> = stale.iter().map(|e| e.slug.as_str()).collect();
    assert_eq!(slugs, vec!["a__x", "c__z"]);
}

#[test]
fn slugs_titles_and_validation() {
    assert_eq!(slug_for_repo("owner/repo"), "owner__repo");
    assert_eq!(slug_for_repo("noslash"), "noslash");
    assert_eq!(slug_for_repo("a/b/c"), "a__b/c");
    assert_eq!(window_title("gohugoio/hugo"), "hugo");
    assert_eq!(window_title("plain"), "plain");
    assert_eq!(window_title("a/b/"), "");
    assert!(validate_repo("a/b").is_ok());
    assert_eq!(validate_repo("../x").err(), Some("invalid repo '../x'".to_string()));
    assert_eq!(not_installed("a__b"), "a__b is not installed");
}

#[test]
fn icons_inline_as_data_urls() {
    assert_eq!(icon_data_url("/icons/a.svg", b"<svg/>"), "data:image/svg+xml;base64,PHN2Zy8+");
    assert_eq!(icon_data_url("/icons/a.png", b"x"), "data:image/png;base64,eA==");
    assert_eq!(svg_data_url(b"x"), "data:image/svg+xml;base64,eA==");
}

#[test]
fn links_are_dispatched_once() {
    let mut d = Dispatcher::new();
    assert!(!d.already_dispatched("securexe://run?repo=a/b"));
    assert!(d.already_dispatched("securexe://run?repo=a/b"));
    assert!(!d.already_dispatched("securexe://run?repo=a/c"));
    assert!(matches!(route(Some("link")), Route::Link));
    assert!(matches!(route(Some("run")), Route::Run));
    assert!(matches!(route(None), Route::Run));
}

#[test]
fn bundles_resolve_through_info_plist() {
    match resolve_launchable("/a/tool") {
        Launchable::Ready(r) => { assert_eq!(r.executable, "/a/tool"); assert!(r.app_bundle.is_none()); }
        _ => panic!("plain binaries run directly"),
    }
    match resolve_launchable("/a/App.app.zip") {
        Launchable::NeedsBundle { extract_dir } => assert_eq!(extract_dir, "/a/App.app.zip.extracted"),
        _ => panic!("zips are bundles"),
    }
    let plist = br#"<?xml version="1.0" encoding="UTF-8"?>
<plist version="1.0"><dict>
<key>CFBundleExecutable</key><string>Tool</string>
<key>CFBundleIconFile</key><string>AppIcon</string>
<key>Count</key><integer>3</integer>
</dict></plist>"#;
    assert_eq!(bundle_executable_name(plist).ok(), Some("Tool".to_string()));
    let r = resolved_bundle("/x/App.app", plist).ok().unwrap();
    assert_eq!(r.executable, "/x/App.app/Contents/MacOS/Tool");
    assert_eq!(r.app_bundle.as_deref(), Some("/x/App.app"));
    assert_eq!(icon_source("/x/App.app", plist), Some("/x/App.app/Contents/Resources/AppIcon.icns".to_string()));
    assert_eq!(info_plist_path("/x/App.app"), "/x/App.app/Contents/Info.plist");
    let no_exec = br#"<?xml version="1.0"?><plist version="1.0"><dict><key>CFBundleExecutable</key><integer>1</integer></dict></plist>"#;
    assert_eq!(bundle_executable_name(no_exec).err().unwrap().message(), "Local error: Info.plist missing CFBundleExecutable");
    assert!(bundle_executable_name(b"garbage").err().unwrap().message().starts_with("Local error: bad Info.plist: "));
    assert_eq!(missing_bundle_error("/z.zip").message(), "Local error: no .app bundle found in /z.zip");
    let listing = vec![("/d/readme.app".to_string(), false), ("/d/x".to_string(), true), ("/d/Tool.app".to_string(), true)];
    assert_eq!(find_app_bundle(&listing), Some("/d/Tool.app".to_string()));
    assert_eq!(find_app_bundle(&vec![]), None);
}

#[test]
fn launching_helpers() {
    assert!(is_gui("/x/Tool.app/Contents/MacOS/Tool"));
    assert!(is_gui("/x/Tool.app"));
    assert!(!is_gui("/x/Tool.apple/bin"));
    assert!(!is_gui("/x/tool"));
    assert!(is_gui_subsystem(2));
    assert!(!is_gui_subsystem(3));
    assert_eq!(executable_mode(0o644), 0o755);
    assert_eq!(shell_quote("/a b/it's"), "'/a b/it'\\''s'");
    assert_eq!(launch_script("/sb", "/bin/t"), "#!/bin/sh\ncd '/sb' || exit 1\nexec '/bin/t'\n");
    assert_eq!(launch_script_name(Some("tool")), "securexe-launch-tool.sh");
    assert_eq!(launch_script_name(None), "securexe-launch-app.sh");
}

#[test]
fn hosted_ready_url() {
    assert_eq!(ready_url("Tool running at http://127.0.0.1:4321 \u{2014} press Ctrl+C"), Some("http://127.0.0.1:4321".to_string()));
    assert_eq!(ready_url("http://localhost:1"), Some("http://localhost:1".to_string()));
    assert_eq!(ready_url("starting https://x"), None);
    assert_eq!(ready_url(""), None);
}

#[test]
fn dispatching_one_link_leaves_others_unseen() {
    let mut d = Dispatcher::new();
    assert!(!d.already_dispatched("securexe://run?repo=a/b"));
    assert_eq!(d.seen, vec!["securexe://run?repo=a/b".to_string()]);
    assert!(d.already_dispatched("securexe://run?repo=a/b"));
    assert_eq!(d.seen.len(), 1);
    assert!(!d.already_dispatched("securexe://link?user=u"));
    assert_eq!(d.seen.len(), 2);
}
