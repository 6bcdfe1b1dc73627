//! The wall clock.
use vstd::prelude::*;

verus! {

/// Seconds since the Unix epoch (`SystemTime::now`), or 0 if the clock
/// reads earlier than the epoch. Nothing is promised about the value: it
/// is whatever the machine's clock says.
#[verifier::external_body]
pub(crate) fn now_unix_seconds() -> u64 {
    std::time::SystemTime::now()
        .duration_since(std::time::UNIX_EPOCH)
        .map(|d| d.as_secs())
        .unwrap_or(0)
}

} // verus!
