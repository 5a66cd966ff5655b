//! The failures of the token lifecycle.

use vstd::prelude::*;
use vstd::std_specs::convert::FromSpecImpl;

verus! {

/// What the token library reported when it refused a token.
#[derive(Debug, Clone, Copy, PartialEq, Eq, Structural)]
pub enum TokenFault {
    /// The token does not consist of three dot-separated parts.
    InvalidToken,
    /// The signature does not match the header and claims under the key.
    InvalidSignature,
    /// The header names an algorithm other than the accepted one.
    InvalidAlgorithm,
    /// A part is not valid base64.
    Base64,
    /// The header or the claims are not the expected JSON.
    Json,
    /// Any other refusal.
    Other,
}

/// The liveness store could not be reached, or did not answer in time.
#[derive(Debug, Clone, Copy, PartialEq, Eq, Structural)]
pub struct CacheFault;

/// Why an operation on a token or a token pair failed.
#[derive(Debug, Clone, Copy, PartialEq, Eq, Structural)]
pub enum Error {
    /// The token cannot be parsed into header, claims and signature.
    Malformed,
    /// The signature does not verify under the secret of the token's class.
    InvalidSignature,
    /// The claims carry an expiry time that has passed.
    Expired,
    /// The signature is valid but the session's liveness marker is absent.
    InvalidSession,
    /// The liveness store could not be reached.
    CacheUnavailable,
    /// The token could not be signed.
    SigningError,
}

impl Error {
    /// The text shown for an error. Every refusal of a token reads the same, so
    /// that a client learns nothing about why a forged token was turned down.
    pub open spec fn text(self) -> Seq<char> {
        match self {
            Error::InvalidSession => "Invalid session"@,
            Error::CacheUnavailable => "Cache unavailable"@,
            _ => "Invalid token"@,
        }
    }

    pub fn message(&self) -> (r: String)
        ensures
            r@ == self.text(),
    {
        match self {
            Error::InvalidSession => "Invalid session".to_string(),
            Error::CacheUnavailable => "Cache unavailable".to_string(),
            _ => "Invalid token".to_string(),
        }
    }
}

/// A refused signature is reported as such; every other refusal means that the
/// token could not be read.
pub open spec fn error_of_fault(fault: TokenFault) -> Error {
    match fault {
        TokenFault::InvalidSignature => Error::InvalidSignature,
        _ => Error::Malformed,
    }
}

impl From<TokenFault> for Error {
    fn from(fault: TokenFault) -> (r: Error) {
        match fault {
            TokenFault::InvalidSignature => Error::InvalidSignature,
            _ => Error::Malformed,
        }
    }
}

impl FromSpecImpl<TokenFault> for Error {
    open spec fn obeys_from_spec() -> bool {
        true
    }

    open spec fn from_spec(fault: TokenFault) -> Error {
        error_of_fault(fault)
    }
}

impl From<CacheFault> for Error {
    fn from(fault: CacheFault) -> (r: Error) {
        Error::CacheUnavailable
    }
}

impl FromSpecImpl<CacheFault> for Error {
    open spec fn obeys_from_spec() -> bool {
        true
    }

    open spec fn from_spec(fault: CacheFault) -> Error {
        Error::CacheUnavailable
    }
}

} // verus!
