use securexe_launcher::error::LauncherError;
use securexe_launcher::repo::{
    is_safe_commit, is_safe_repo_path, parse_link_url_at, parse_run_url_at, split_repo_path,
    RunRequest,
};
use securexe_launcher::signature::{build_run_message, check_signed, site_public_key, verify_at};
use securexe_launcher::text::parse_u64;

const NOW: u64 = 1_700_000_000;

fn sig_zeros() -> String {
    "00".repeat(64)
}

fn run_err(raw: &str) -> String {
    match parse_run_url_at(raw, NOW) {
        Ok(_) => panic!("expected an error for {raw}"),
        Err(e) => e.message(),
    }
}

#[test]
fn run_url_rejects_other_schemes() {
    assert_eq!(
        run_err("https://run?repo=a/b&exp=1&sig=00"),
        "Invalid link: unsupported scheme 'https'"
    );
}

#[test]
fn run_url_rejects_other_actions() {
    assert_eq!(
        run_err("securexe://install?repo=a/b&exp=1&sig=00"),
        "Invalid link: unsupported action 'install'"
    );
}

#[test]
fn run_url_needs_repo() {
    assert_eq!(run_err("securexe://run?exp=1&sig=00"), "Invalid link: missing repo");
}

#[test]
fn run_url_rejects_traversal() {
    assert_eq!(
        run_err("securexe://run?repo=..%2F..%2Fetc&commit=abc&exp=1&sig=00"),
        "Invalid link: invalid repo '../../etc'"
    );
    assert_eq!(
        run_err("securexe://run?repo=owner&exp=1&sig=00"),
        "Invalid link: invalid repo 'owner'"
    );
    assert_eq!(
        run_err("securexe://run?repo=owner/a/b&exp=1&sig=00"),
        "Invalid link: invalid repo 'owner/a/b'"
    );
}

#[test]
fn run_url_rejects_bad_commit() {
    assert_eq!(
        run_err("securexe://run?repo=o/r&commit=passwd&exp=1&sig=00"),
        "Invalid link: invalid commit 'passwd'"
    );
}

#[test]
fn run_url_needs_exp_and_sig() {
    assert_eq!(run_err("securexe://run?repo=o/r&sig=00"), "Unauthorized link: missing exp");
    assert_eq!(run_err("securexe://run?repo=o/r&exp=5"), "Unauthorized link: missing sig");
}

#[test]
fn run_url_checks_expiry() {
    assert_eq!(
        run_err("securexe://run?repo=o/r&exp=soon&sig=00"),
        "Unauthorized link: invalid exp"
    );
    let expired = format!("securexe://run?repo=o/r&exp={}&sig=00", NOW - 1);
    assert_eq!(run_err(&expired), "Unauthorized link: link has expired");
    let too_long = format!("securexe://run?repo=o/r&exp={}&sig=00", NOW + 301);
    assert_eq!(run_err(&too_long), "Unauthorized link: link validity window is too long");
}

#[test]
fn run_url_checks_signature() {
    let short = format!("securexe://run?repo=o/r&exp={}&sig=abcd", NOW + 300);
    assert_eq!(run_err(&short), "Unauthorized link: malformed signature");
    let not_hex = format!("securexe://run?repo=o/r&exp={}&sig=zz", NOW + 10);
    assert_eq!(run_err(&not_hex), "Unauthorized link: malformed signature");
    let forged = format!("securexe://run?repo=o/r&commit=&exp={}&sig={}", NOW, sig_zeros());
    assert_eq!(run_err(&forged), "Unauthorized link: invalid signature");
}

#[test]
fn run_url_reports_unparsable_links() {
    let msg = run_err("not a url");
    assert!(msg.starts_with("Invalid link: "), "{msg}");
}

#[test]
fn last_query_value_wins() {
    // The later, invalid repo is the one checked.
    assert_eq!(
        run_err("securexe://run?repo=o/r&repo=..&exp=1&sig=00"),
        "Invalid link: invalid repo '..'"
    );
}

#[test]
fn link_url_checks() {
    let err = |raw: &str| match parse_link_url_at(raw, NOW) {
        Ok(_) => panic!("expected an error"),
        Err(e) => e.message(),
    };
    assert_eq!(err("securexe://run?user=x"), "Invalid link: unsupported action 'run'");
    assert_eq!(err("securexe://link?exp=1"), "Invalid link: missing user");
    assert_eq!(err("securexe://link?user=bad_name&exp=1&sig=00"), "Invalid link: invalid user 'bad_name'");
    assert_eq!(err("securexe://link?user=octo-cat&sig=00"), "Unauthorized link: missing exp");
    let forged = format!("securexe://link?user=octo-cat&exp={}&sig={}", NOW + 5, sig_zeros());
    assert_eq!(err(&forged), "Unauthorized link: invalid signature");
}

#[test]
fn request_slug_and_repo_path() {
    let req = RunRequest { owner: "owner".into(), repo: "repo".into(), commit: None };
    assert_eq!(req.slug(), "owner__repo");
    assert_eq!(req.repo_path(), "owner/repo");
}

#[test]
fn commit_and_repo_path_checks() {
    assert!(is_safe_commit("deadBEEF0123"));
    assert!(!is_safe_commit(""));
    assert!(!is_safe_commit(&"a".repeat(65)));
    assert!(is_safe_commit(&"a".repeat(64)));
    assert!(!is_safe_commit("xyz"));
    assert!(is_safe_repo_path("gohugoio/hugo"));
    assert!(is_safe_repo_path("a.b/c_d-e"));
    assert!(!is_safe_repo_path("gohugoio"));
    assert!(!is_safe_repo_path("./hugo"));
    assert!(!is_safe_repo_path("a/.."));
    assert!(!is_safe_repo_path("o/.ssh"));
    assert!(!is_safe_repo_path(".config/r"));
    assert!(is_safe_repo_path("o/r.git"));
    assert!(!is_safe_repo_path("a/b c"));
    assert!(!is_safe_repo_path(&format!("{}/x", "o".repeat(101))));
    assert_eq!(split_repo_path("a/b/c"), ("a".to_string(), "b/c".to_string()));
    assert_eq!(split_repo_path("abc"), ("abc".to_string(), String::new()));
}

#[test]
fn signed_message_shape() {
    assert_eq!(build_run_message("o/r", Some("abc"), "123"), "o/r|abc|123");
    assert_eq!(build_run_message("o/r", None, "123"), "o/r||123");
}

#[test]
fn signature_check_order() {
    assert!(matches!(check_signed("m", "x", "00", NOW), Err(LauncherError::Unauthorized(m)) if m == "invalid exp"));
    let at = NOW.to_string();
    assert!(matches!(check_signed("m", &at, &sig_zeros(), NOW), Err(LauncherError::Unauthorized(m)) if m == "invalid signature"));
    assert!(verify_at("o/r", None, &at, &sig_zeros(), NOW).is_err());
    assert_eq!(site_public_key()[0], 0xca);
    assert_eq!(site_public_key()[31], 0x5d);
}

#[test]
fn u64_parsing_matches_std() {
    for s in ["0", "+7", "42", "18446744073709551615", "18446744073709551616", "", "+", "-1", "1a", " 1", "٣"] {
        assert_eq!(parse_u64(s), s.parse::<u64>().ok(), "{s:?}");
    }
}

#[test]
fn run_url_rejects_hidden_segments() {
    assert_eq!(
        run_err("securexe://run?repo=o/.ssh&exp=1&sig=00"),
        "Invalid link: invalid repo 'o/.ssh'"
    );
}
