//! Application-level error values and their user-visible messages.

use vstd::prelude::*;

verus! {

/// Errors surfaced to the user by the application at large.
#[derive(Debug)]
pub enum Error {
    /// The home directory could not be found or accessed.
    HomeDir,
    /// A value of one type could not be converted into another.
    Conversion { from: String, into: String },
    /// Something that was looked up does not exist.
    NotFound { whats_missing: String },
}

/// The user-visible message of an [`Error`].
pub open spec fn spec_message(e: Error) -> Seq<char> {
    match e {
        Error::HomeDir => "failed to access or find the home directory"@,
        Error::Conversion { from, into } => "failed to convert "@ + from@ + " into "@ + into@,
        Error::NotFound { whats_missing } => whats_missing@ + " does not exist"@,
    }
}

impl Error {
    /// Renders this error as the message shown to the user.
    pub fn message(&self) -> (r: String)
        ensures
            r@ == spec_message(*self),
    {
        match self {
            Error::HomeDir => String::from_str("failed to access or find the home directory"),
            Error::Conversion { from, into } => String::from_str("failed to convert ").concat(
                from.as_str(),
            ).concat(" into ").concat(into.as_str()),
            Error::NotFound { whats_missing } => String::from_str(whats_missing.as_str()).concat(
                " does not exist",
            ),
        }
    }
}

} // verus!
