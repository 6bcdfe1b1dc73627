//! The launcher's error type and the user-facing message for each kind.
use vstd::prelude::*;
use vstd::string::*;

verus! {

/// Everything that can go wrong between receiving a link and running the
/// app it names. The payload, where there is one, is a human-readable
/// detail.
#[derive(Debug)]
pub enum LauncherError {
    InvalidUrl(String),
    Unauthorized(String),
    NotFound(String),
    Network(String),
    ChecksumMismatch,
    Io(String),
}

/// The mathematical value of a [`LauncherError`]: the same variants with
/// their details as character sequences.
pub enum SpecError {
    InvalidUrl(Seq<char>),
    Unauthorized(Seq<char>),
    NotFound(Seq<char>),
    Network(Seq<char>),
    ChecksumMismatch,
    Io(Seq<char>),
}

impl View for LauncherError {
    type V = SpecError;

    open spec fn view(&self) -> SpecError {
        match self {
            LauncherError::InvalidUrl(m) => SpecError::InvalidUrl(m@),
            LauncherError::Unauthorized(m) => SpecError::Unauthorized(m@),
            LauncherError::NotFound(m) => SpecError::NotFound(m@),
            LauncherError::Network(m) => SpecError::Network(m@),
            LauncherError::ChecksumMismatch => SpecError::ChecksumMismatch,
            LauncherError::Io(m) => SpecError::Io(m@),
        }
    }
}

/// The view of a `Result` whose error is a [`LauncherError`].
pub open spec fn result_view<T: View>(r: Result<T, LauncherError>) -> Result<T::V, SpecError> {
    match r {
        Ok(v) => Ok(v@),
        Err(e) => Err(e@),
    }
}

/// The text shown to the user for an error.
pub open spec fn spec_message(e: SpecError) -> Seq<char> {
    match e {
        SpecError::InvalidUrl(m) => "Invalid link: "@ + m,
        SpecError::Unauthorized(m) => "Unauthorized link: "@ + m,
        SpecError::NotFound(m) => "Not found: "@ + m,
        SpecError::Network(m) => "Network error: "@ + m,
        SpecError::ChecksumMismatch => "Checksum mismatch \u{2014} refusing to run this file"@,
        SpecError::Io(m) => "Local error: "@ + m,
    }
}

impl LauncherError {
    /// The user-facing text for this error (what the status banner shows).
    pub fn message(&self) -> (res: String)
        ensures
            res@ == spec_message(self@),
    {
        let (prefix, detail): (&str, &str) = match self {
            LauncherError::InvalidUrl(m) => ("Invalid link: ", m.as_str()),
            LauncherError::Unauthorized(m) => ("Unauthorized link: ", m.as_str()),
            LauncherError::NotFound(m) => ("Not found: ", m.as_str()),
            LauncherError::Network(m) => ("Network error: ", m.as_str()),
            LauncherError::ChecksumMismatch => {
                return "Checksum mismatch \u{2014} refusing to run this file".to_owned();
            },
            LauncherError::Io(m) => ("Local error: ", m.as_str()),
        };
        let mut res = prefix.to_owned();
        res.append(detail);
        res
    }

    /// An error with the same variant and detail.
    pub fn duplicate(&self) -> (res: LauncherError)
        ensures
            res@ == self@,
    {
        match self {
            LauncherError::InvalidUrl(m) => LauncherError::InvalidUrl(m.clone()),
            LauncherError::Unauthorized(m) => LauncherError::Unauthorized(m.clone()),
            LauncherError::NotFound(m) => LauncherError::NotFound(m.clone()),
            LauncherError::Network(m) => LauncherError::Network(m.clone()),
            LauncherError::ChecksumMismatch => LauncherError::ChecksumMismatch,
            LauncherError::Io(m) => LauncherError::Io(m.clone()),
        }
    }
}

} // verus!
