//! Why a request or a token is turned away.
//!
//! None of this detail ever reaches the client: the interceptor answers
//! every rejection with the same bare status.  It is kept for the server's
//! own diagnostics.

use vstd::prelude::*;

verus! {

/// The credential could not even be read as a token.
#[derive(Debug, Clone, Copy, PartialEq, Eq, Structural)]
pub enum TokenFormatError {
    /// The request has no `Authorization` header.
    NoHeader,
    /// The header holds bytes that are not visible ASCII.
    UnreadableHeader,
    /// The header does not start with the `Bearer ` scheme.
    NotBearer,
    /// The token's header segment does not decode.
    MalformedToken,
    /// The token's header names no key.
    MissingKeyId,
}

/// The provider's key set could not be had.
#[derive(Debug, Clone, Copy, PartialEq, Eq, Structural)]
pub enum KeyFetchError {
    /// The signing-keys endpoint did not answer.
    Network,
    /// The answer is not a key set.
    Malformed,
}

/// A claim of a correctly signed token that the policy refuses.
#[derive(Debug, Clone, Copy, PartialEq, Eq, Structural)]
pub enum ClaimError {
    /// A required claim is absent from the payload, or has the wrong type.
    Missing,
    /// The issuer is not the configured one.
    Issuer,
    /// The audience is not the configured one.
    Audience,
    /// The expiry is not in the future.
    Expired,
}

/// Why a token was not accepted: the step of validation that failed.
#[derive(Debug, Clone, Copy, PartialEq, Eq, Structural)]
pub enum Rejection {
    TokenFormat(TokenFormatError),
    KeyFetch(KeyFetchError),
    /// No key of the set has the key id that the token names.
    KeyNotFound,
    /// The matched key's material does not make a verification key.
    KeyMaterial,
    /// The token carries no payload that verifies under the matched key.
    Signature,
    Claim(ClaimError),
}

} // verus!
