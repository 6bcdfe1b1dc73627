//! Ed25519 checking of signed `securexe://` links.
//!
//! The website signs a short message naming what a link authorizes and
//! when it expires; the launcher rebuilds that message from the link and
//! checks the signature against the site's public key, embedded below.
use ed25519_dalek::{Signature, Verifier as _, VerifyingKey};
use vstd::prelude::*;
use vstd::string::*;
use vstd::utf8::encode_utf8;

use crate::clock::now_unix_seconds;
use crate::codec::{hex_decode, spec_hex_decode};
use crate::error::{LauncherError, SpecError};
use crate::text::{parse_u64, spec_parse_u64};

verus! {

/// Signed links are only valid for this long after the `exp` timestamp
/// is issued — bounds the damage if a link is ever captured and replayed.
pub const MAX_VALIDITY_SECONDS: u64 = 300;

/// Public half of the website's signing key. Only the holder of the
/// matching private key can mint a link this launcher accepts.
pub open spec fn site_public_key_bytes() -> Seq<u8> {
    seq![
        0xcau8, 0xaf, 0x3b, 0x8e, 0x8b, 0xe0, 0xc5, 0x14, 0x86, 0x29, 0x27, 0x37, 0x58, 0xc0,
        0x73, 0xa2, 0x86, 0x62, 0x44, 0xee, 0xe3, 0x39, 0x89, 0x83, 0xba, 0xac, 0x10, 0xe0,
        0xfd, 0x75, 0x65, 0x5d,
    ]
}

/// The embedded public key.
pub fn site_public_key() -> (key: [u8; 32])
    ensures
        key@ == site_public_key_bytes(),
{
    let key: [u8; 32] = [
        0xca, 0xaf, 0x3b, 0x8e, 0x8b, 0xe0, 0xc5, 0x14, 0x86, 0x29, 0x27, 0x37, 0x58, 0xc0,
        0x73, 0xa2, 0x86, 0x62, 0x44, 0xee, 0xe3, 0x39, 0x89, 0x83, 0xba, 0xac, 0x10, 0xe0,
        0xfd, 0x75, 0x65, 0x5d,
    ];
    assert(key@ =~= site_public_key_bytes());
    key
}

/// Whether `ed25519_dalek::VerifyingKey::from_bytes` accepts these 32
/// bytes as a public key (they decompress to a curve point).
pub uninterp spec fn spec_ed25519_key_decodes(key: Seq<u8>) -> bool;

/// Whether `VerifyingKey::verify` (ed25519-dalek's RFC 8032 check with
/// SHA-512) accepts `signature` over `message` for the public key `key`.
pub uninterp spec fn spec_ed25519_accepts(key: Seq<u8>, message: Seq<u8>, signature: Seq<u8>) -> bool;

/// Decodes a public key (`VerifyingKey::from_bytes`) and reports whether
/// that succeeded.
#[verifier::external_body]
fn ed25519_key_decodes(key: &[u8; 32]) -> (res: bool)
    ensures
        res == spec_ed25519_key_decodes(key@),
{
    VerifyingKey::from_bytes(key).is_ok()
}

/// Checks an Ed25519 signature (`VerifyingKey::verify` on
/// `Signature::from_bytes(signature)`).
#[verifier::external_body]
fn ed25519_accepts(key: &[u8; 32], message: &[u8], signature: &[u8; 64]) -> (res: bool)
    requires
        spec_ed25519_key_decodes(key@),
    ensures
        res == spec_ed25519_accepts(key@, message@, signature@),
{
    match VerifyingKey::from_bytes(key) {
        Ok(vk) => vk.verify(message, &Signature::from_bytes(signature)).is_ok(),
        Err(_) => false,
    }
}

/// The message a `securexe://run` link's signature covers:
/// `"<owner/repo>|<commit or empty>|<exp>"`.
pub open spec fn run_message(repo_path: Seq<char>, commit: Option<Seq<char>>, exp: Seq<char>) -> Seq<char> {
    repo_path + "|"@ + (match commit {
        Some(c) => c,
        None => Seq::empty(),
    }) + "|"@ + exp
}

/// The message a `securexe://link` (device-linking) signature covers:
/// `"link|<user>|<exp>"`.
pub open spec fn link_message(user: Seq<char>, exp: Seq<char>) -> Seq<char> {
    "link|"@ + user + "|"@ + exp
}

/// Outcome of checking `sig_hex` over `message` with expiry `exp` when the
/// clock reads `now`: the expiry must parse, lie no earlier than `now` and
/// no more than [`MAX_VALIDITY_SECONDS`] after it; the signature must be
/// 64 hex-encoded bytes that verify over the message's UTF-8 bytes.
pub open spec fn signed_outcome(message: Seq<char>, exp: Seq<char>, sig_hex: Seq<char>, now: u64) -> Result<(), SpecError> {
    match spec_parse_u64(exp) {
        None => Err(SpecError::Unauthorized("invalid exp"@)),
        Some(exp_ts) => if exp_ts < now {
            Err(SpecError::Unauthorized("link has expired"@))
        } else if exp_ts - now > MAX_VALIDITY_SECONDS {
            Err(SpecError::Unauthorized("link validity window is too long"@))
        } else {
            match spec_hex_decode(encode_utf8(sig_hex)) {
                Some(sig) => if sig.len() != 64 {
                    Err(SpecError::Unauthorized("malformed signature"@))
                } else if !spec_ed25519_key_decodes(site_public_key_bytes()) {
                    Err(SpecError::Unauthorized("invalid embedded public key"@))
                } else if spec_ed25519_accepts(site_public_key_bytes(), encode_utf8(message), sig) {
                    Ok(())
                } else {
                    Err(SpecError::Unauthorized("invalid signature"@))
                },
                None => Err(SpecError::Unauthorized("malformed signature"@)),
            }
        },
    }
}

/// The view of a check's result.
pub open spec fn check_view(r: Result<(), LauncherError>) -> Result<(), SpecError> {
    match r {
        Ok(_) => Ok(()),
        Err(e) => Err(e@),
    }
}

fn unauthorized(detail: &str) -> (res: LauncherError)
    ensures
        res@ == SpecError::Unauthorized(detail@),
{
    LauncherError::Unauthorized(detail.to_owned())
}

/// Checks a signature over `message` at time `now`.
pub fn check_signed(message: &str, exp: &str, sig_hex: &str, now: u64) -> (res: Result<(), LauncherError>)
    ensures
        check_view(res) == signed_outcome(message@, exp@, sig_hex@, now),
{
    let exp_ts = match parse_u64(exp) {
        Some(t) => t,
        None => return Err(unauthorized("invalid exp")),
    };
    if exp_ts < now {
        return Err(unauthorized("link has expired"));
    }
    if exp_ts - now > MAX_VALIDITY_SECONDS {
        return Err(unauthorized("link validity window is too long"));
    }
    let sig_bytes = match hex_decode(sig_hex.as_bytes()) {
        Some(b) => b,
        None => return Err(unauthorized("malformed signature")),
    };
    assert(sig_bytes.deep_view() =~= sig_bytes@);
    if sig_bytes.len() != 64 {
        return Err(unauthorized("malformed signature"));
    }
    let mut sig_array: [u8; 64] = [0u8; 64];
    let mut i: usize = 0;
    while i < 64
        invariant
            sig_bytes@.len() == 64,
            sig_array@.len() == 64,
            i <= 64,
            forall|j: int| 0 <= j < i ==> sig_array@[j] == sig_bytes@[j],
        decreases 64 - i,
    {
        sig_array[i] = sig_bytes[i];
        i = i + 1;
    }
    assert(sig_array@ =~= sig_bytes@);
    let key = site_public_key();
    if !ed25519_key_decodes(&key) {
        return Err(unauthorized("invalid embedded public key"));
    }
    if ed25519_accepts(&key, message.as_bytes(), &sig_array) {
        Ok(())
    } else {
        Err(unauthorized("invalid signature"))
    }
}

/// Builds the signed message of a run link.
pub fn build_run_message(repo_path: &str, commit: Option<&str>, exp: &str) -> (res: String)
    ensures
        res@ == run_message(repo_path@, match commit {
            Some(c) => Some(c@),
            None => None,
        }, exp@),
{
    let mut m = repo_path.to_owned();
    m.append("|");
    match commit {
        Some(c) => m.append(c),
        None => {},
    }
    m.append("|");
    m.append(exp);
    m
}

/// The commit of a run link as a view.
pub open spec fn opt_view(o: Option<&str>) -> Option<Seq<char>> {
    match o {
        Some(c) => Some(c@),
        None => None,
    }
}

/// Checks a run link's signature at time `now`.
pub fn verify_at(repo_path: &str, commit: Option<&str>, exp: &str, sig_hex: &str, now: u64) -> (res: Result<(), LauncherError>)
    ensures
        check_view(res) == signed_outcome(run_message(repo_path@, opt_view(commit), exp@), exp@, sig_hex@, now),
{
    let message = build_run_message(repo_path, commit, exp);
    check_signed(message.as_str(), exp, sig_hex, now)
}

/// Reconstructs the message the website signed for a run link and checks
/// `sig_hex` against it, at the current time. Whatever the clock reads,
/// the result is the outcome of [`verify_at`] for that reading.
pub fn verify(repo_path: &str, commit: Option<&str>, exp: &str, sig_hex: &str) -> (res: Result<(), LauncherError>)
    ensures
        exists|now: u64| check_view(res) == signed_outcome(run_message(repo_path@, opt_view(commit), exp@), exp@, sig_hex@, now),
{
    let now = now_unix_seconds();
    verify_at(repo_path, commit, exp, sig_hex, now)
}

/// Checks a device-linking link's signature at time `now`.
pub fn verify_link_at(user: &str, exp: &str, sig_hex: &str, now: u64) -> (res: Result<(), LauncherError>)
    ensures
        check_view(res) == signed_outcome(link_message(user@, exp@), exp@, sig_hex@, now),
{
    let mut message = "link|".to_owned();
    message.append(user);
    message.append("|");
    message.append(exp);
    check_signed(message.as_str(), exp, sig_hex, now)
}

/// Checks a device-linking link's signature at the current time.
pub fn verify_link(user: &str, exp: &str, sig_hex: &str) -> (res: Result<(), LauncherError>)
    ensures
        exists|now: u64| check_view(res) == signed_outcome(link_message(user@, exp@), exp@, sig_hex@, now),
{
    let now = now_unix_seconds();
    verify_link_at(user, exp, sig_hex, now)
}


/// A link is accepted only inside its validity window and only with a
/// signature the site's key accepts: its `exp` parses, is not in the past
/// and at most [`MAX_VALIDITY_SECONDS`] ahead of the clock, and the
/// signature is 64 hex-encoded bytes valid over the message's UTF-8
/// bytes. Expired and over-long links are always refused.
pub proof fn law_accepted_only_within_window(message: Seq<char>, exp: Seq<char>, sig_hex: Seq<char>, now: u64)
    ensures
        signed_outcome(message, exp, sig_hex, now) is Ok ==> {
            &&& spec_parse_u64(exp) is Some
            &&& now <= spec_parse_u64(exp)->0 <= now + MAX_VALIDITY_SECONDS
            &&& spec_hex_decode(encode_utf8(sig_hex)) is Some
            &&& spec_hex_decode(encode_utf8(sig_hex))->0.len() == 64
            &&& spec_ed25519_accepts(
                site_public_key_bytes(),
                encode_utf8(message),
                spec_hex_decode(encode_utf8(sig_hex))->0,
            )
        },
        spec_parse_u64(exp) matches Some(t) && t < now ==> signed_outcome(message, exp, sig_hex, now)
            == Err::<(), SpecError>(SpecError::Unauthorized("link has expired"@)),
{
}

/// Every well-formed link the site signed is accepted while it is valid:
/// an `exp` that parses to a time no earlier than `now` and at most
/// [`MAX_VALIDITY_SECONDS`] after it, with 64 hex-encoded signature bytes
/// that the site's key accepts over the message's UTF-8 bytes, passes.
pub proof fn law_valid_signature_accepted(
    message: Seq<char>,
    exp: Seq<char>,
    sig_hex: Seq<char>,
    now: u64,
    exp_ts: u64,
    sig: Seq<u8>,
)
    requires
        spec_parse_u64(exp) == Some(exp_ts),
        now <= exp_ts,
        exp_ts <= now + 300,
        spec_hex_decode(encode_utf8(sig_hex)) == Some(sig),
        sig.len() == 64,
        spec_ed25519_key_decodes(site_public_key_bytes()),
        spec_ed25519_accepts(site_public_key_bytes(), encode_utf8(message), sig),
    ensures
        signed_outcome(message, exp, sig_hex, now) == Ok::<(), SpecError>(()),
{
}

} // verus!
