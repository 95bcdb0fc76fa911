//! The unified error type for all fallible operations in this library.
//!
//! Every failure source — the network transport, decoding a response body,
//! encoding a request body — is folded into one tagged union so that callers
//! write a single error-handling path and can still match on the failure kind.

use vstd::prelude::*;

verus! {

/// One error type for the whole library.
///
/// Each variant carries a human-readable description of the underlying cause.
/// Expected failure modes (bad network, malformed JSON, an invalid enumeration
/// token) are always returned as values of this type, never panics.
#[derive(Debug)]
pub enum Error {
    /// The underlying network or connection layer failed.
    Transport(String),
    /// The response body was malformed, of an unexpected shape, or held an
    /// invalid enumeration token.
    Decode(String),
    /// A value could not be serialized into a request body.
    Encode(String),
}

impl Error {
    /// The human-readable description of the underlying cause.
    pub fn description(&self) -> (r: String)
        ensures
            r@ == self.message(),
    {
        match self {
            Error::Transport(m) => m.clone(),
            Error::Decode(m) => m.clone(),
            Error::Encode(m) => m.clone(),
        }
    }

    /// The description carried by the error, whichever variant holds it.
    pub open spec fn message(self) -> Seq<char> {
        match self {
            Error::Transport(m) => m@,
            Error::Decode(m) => m@,
            Error::Encode(m) => m@,
        }
    }
}

} // verus!
