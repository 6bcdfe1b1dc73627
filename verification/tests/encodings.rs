use securexe_launcher::codec::sha256_hex;
use securexe_launcher::commands::svg_data_url;
use securexe_launcher::error::LauncherError;
use securexe_launcher::orchestrator::icon_url;
use securexe_launcher::signature::check_signed;
use securexe_launcher::text::{trim, trim_start_matches};
use securexe_launcher::account::device_id;

fn signature_error(sig_hex: &str) -> String {
    match check_signed("m", "1000", sig_hex, 1000) {
        Err(LauncherError::Unauthorized(m)) => m,
        other => panic!("unexpected {:?}", other.err()),
    }
}

#[test]
fn hex_in_digests_and_signatures() {
    assert_eq!(sha256_hex(b""), "e3b0c44298fc1c149afbf4c8996fb92427ae41e4649b934ca495991b7852b855");
    // Signatures are hex: either case decodes, anything else is malformed.
    assert_eq!(signature_error(&"00".repeat(64)), "invalid signature");
    assert_eq!(signature_error(&"AB".repeat(64)), "invalid signature");
    assert_eq!(signature_error(&"zz".repeat(64)), "malformed signature");
    assert_eq!(signature_error("abc"), "malformed signature");
    assert_eq!(signature_error(&"00".repeat(63)), "malformed signature");
}

#[test]
fn base64_standard_padded() {
    let prefix = "data:image/svg+xml;base64,";
    assert_eq!(svg_data_url(b""), prefix);
    assert_eq!(svg_data_url(b"f"), format!("{prefix}Zg=="));
    assert_eq!(svg_data_url(b"fo"), format!("{prefix}Zm8="));
    assert_eq!(svg_data_url(b"foo"), format!("{prefix}Zm9v"));
    assert_eq!(svg_data_url(&[0xfb, 0xff]), format!("{prefix}+/8="));
}

#[test]
fn urlencoding_escapes_query_syntax() {
    let base = "https://worker.brightencode.com/icon?repo=";
    assert_eq!(icon_url("owner__repo"), format!("{base}owner__repo"));
    assert_eq!(icon_url("a b&c=d/e#f"), format!("{base}a+b%26c%3Dd%2Fe%23f"));
    assert_eq!(icon_url("é"), format!("{base}%C3%A9"));
    assert_eq!(icon_url("*-._~"), format!("{base}*-._%7E"));
}

#[test]
fn sha256_known_vector() {
    assert_eq!(sha256_hex(b"abc"), "ba7816bf8f01cfea414140de5dae2223b00361a396177a9cb410ff61f20015ad");
}

#[test]
fn trimming() {
    assert_eq!(trim("  id\n"), "id");
    assert_eq!(trim("\u{3000}x y\u{a0}"), "x y");
    assert_eq!(trim(" \t "), "");
    assert_eq!(trim_start_matches("vv1.2.3", 'v'), "1.2.3");
    assert_eq!(trim_start_matches("1.2.3", 'v'), "1.2.3");
}

#[test]
fn device_id_keeps_or_generates() {
    assert_eq!(device_id(Some("  abc\n")), ("abc".to_string(), false));
    let (fresh, write) = device_id(Some("   "));
    assert!(write);
    assert_eq!(fresh.len(), 32);
    assert!(fresh.chars().all(|c| c.is_ascii_hexdigit() && !c.is_ascii_uppercase()));
    let (other, _) = device_id(None);
    assert_ne!(fresh, other);
}
