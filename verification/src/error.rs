//! Error taxonomy of the directory.

use vstd::prelude::*;

verus! {

/// Outcome classes a directory operation can fail with.
#[derive(Clone, Copy, Debug, PartialEq, Eq, Structural)]
pub enum DirectoryError {
    /// Resolving an alias with no live record; a 404-class outcome.
    NotFound,
    /// Registering an alias that already has a live record; a 409-class
    /// outcome.
    Conflict,
    /// A malformed (empty) alias or room id reached the façade; a 400-class
    /// outcome.
    InvalidInput,
    /// The backing store could not be reached. The in-memory store of this
    /// crate never fails, so no verified operation returns this variant; it
    /// is reserved for a transport layer that talks to a remote store and
    /// surfaces its failures as a 5xx-class outcome.
    StoreUnavailable,
}

impl DirectoryError {
    /// Stable name of the error class, for callers that render responses.
    pub fn as_text(&self) -> (r: &'static str)
        ensures
            r@ == match *self {
                DirectoryError::NotFound => "not found"@,
                DirectoryError::Conflict => "conflict"@,
                DirectoryError::InvalidInput => "invalid input"@,
                DirectoryError::StoreUnavailable => "store unavailable"@,
            },
    {
        match *self {
            DirectoryError::NotFound => "not found",
            DirectoryError::Conflict => "conflict",
            DirectoryError::InvalidInput => "invalid input",
            DirectoryError::StoreUnavailable => "store unavailable",
        }
    }
}

} // verus!
