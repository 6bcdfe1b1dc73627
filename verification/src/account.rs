//! This device's link to a Securexe account, and its stable device id.
use vstd::prelude::*;

use crate::codec::{hex_encode, spec_hex_encode};
use crate::text::{spec_trim, trim};

verus! {

/// This device's link to a Securexe account. `device_token` is a bearer
/// credential for the worker's endpoints and is never shown to the
/// webview.
pub struct Account {
    pub github_username: String,
    pub device_token: String,
    pub linked_at: u64,
}

/// Sixteen random bytes from the thread-local generator
/// (`rand::random::<[u8; 16]>()`). Nothing is promised about their
/// values.
#[verifier::external_body]
fn random_bytes_16() -> [u8; 16] {
    rand::random::<[u8; 16]>()
}

/// The text of a stored device id file, when it names an id: its trimmed
/// content if that is not empty.
pub open spec fn stored_device_id(existing: Option<Seq<char>>) -> Option<Seq<char>> {
    match existing {
        Some(text) => if spec_trim(text).len() > 0 {
            Some(spec_trim(text))
        } else {
            None
        },
        None => None,
    }
}

/// This install's device id, given what the device id file holds (`None`
/// if it could not be read). An id already on record is kept; otherwise a
/// new one is generated — 16 random bytes as lower-case hex — and the
/// second component says it must be written back. The id survives
/// unlinking and relinking, so re-linking reports the same device.
pub fn device_id(existing: Option<&str>) -> (res: (String, bool))
    ensures
        match stored_device_id(
            match existing {
                Some(t) => Some(t@),
                None => None,
            },
        ) {
            Some(id) => res.0@ == id && !res.1,
            None => res.1 && exists|b: Seq<u8>| b.len() == 16 && res.0@ == spec_hex_encode(b),
        },
{
    match existing {
        Some(text) => {
            let trimmed = trim(text);
            if trimmed.as_str().unicode_len() > 0 {
                return (trimmed, false);
            }
        },
        None => {},
    }
    let bytes = random_bytes_16();
    let id = hex_encode(bytes.as_slice());
    (id, true)
}

} // verus!
