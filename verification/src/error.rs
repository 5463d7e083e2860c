//! The failures that a guarded handler reports.

use vstd::prelude::*;
use vstd::std_specs::convert::FromSpecImpl;

verus! {

/// Why the size guard turned a request away.
#[derive(Clone, Copy, Debug, PartialEq, Eq, Structural)]
pub enum SizedLimitError {
    /// The request declares no usable `Content-Length`.
    MissingContentLength,
    /// The declared length is above the configured ceiling.
    PayloadTooLarge,
}

/// What a call to a handler can fail with.
#[derive(Debug, PartialEq, Eq)]
pub enum Error {
    /// The size guard turned the request away.
    SizedLimit(SizedLimitError),
    /// A handler further down the chain failed, with its own message.
    Handler(String),
}

/// A rejection by the size guard, as the failure of the whole call.
impl From<SizedLimitError> for Error {
    fn from(kind: SizedLimitError) -> (err: Error) {
        Error::SizedLimit(kind)
    }
}

/// What the conversion gives: the rejection, kept as it is.
impl FromSpecImpl<SizedLimitError> for Error {
    open spec fn obeys_from_spec() -> bool {
        true
    }

    open spec fn from_spec(kind: SizedLimitError) -> Error {
        Error::SizedLimit(kind)
    }
}

} // verus!
