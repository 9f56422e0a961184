//! The unverified header of a compact token.

use vstd::prelude::*;
use crate::rejection::{Rejection, TokenFormatError};

verus! {

/// What a token's header says before any signature is checked.
#[derive(Debug, PartialEq, Eq)]
pub struct DecodedHeader {
    /// The identifier of the key that signed the token, if the header names one.
    pub key_id: Option<String>,
}

/// The key id in a header, as a plain value.
pub open spec fn key_id_view(header: DecodedHeader) -> Option<Seq<char>> {
    match header.key_id {
        Some(id) => Some(id@),
        None => None,
    }
}

/// What the header segment of a compact token decodes to: `None` where the
/// token has no three segments or its first one is not a header,
/// `Some(None)` for a header without a key id, `Some(Some(id))` otherwise.
pub uninterp spec fn token_header(token: Seq<char>) -> Option<Option<Seq<char>>>;

/// `jsonwebtoken::decode_header`: splits the token at its two dots,
/// base64-decodes the first segment and parses it as a JOSE header.
/// Trusted: the outcome is a function of the token's text alone.
#[verifier::external_body]
pub(crate) fn decode_header(token: &str) -> (r: Option<DecodedHeader>)
    ensures
        match r {
            Some(header) => token_header(token@) == Some(key_id_view(header)),
            None => token_header(token@) is None,
        },
{
    match jsonwebtoken::decode_header(token) {
        Ok(header) => Some(DecodedHeader { key_id: header.kid }),
        Err(_) => None,
    }
}

/// The key id that a decoded header yields, or the reason there is none.
pub open spec fn key_id_outcome(header: Option<Option<Seq<char>>>) -> Result<Seq<char>, Rejection> {
    match header {
        None => Err(Rejection::TokenFormat(TokenFormatError::MalformedToken)),
        Some(None) => Err(Rejection::TokenFormat(TokenFormatError::MissingKeyId)),
        Some(Some(id)) => Ok(id),
    }
}

/// Requires a key id of a decoded header: a header that did not decode is
/// a malformed token, one that names no key has a missing key id.
pub fn require_key_id(header: Option<DecodedHeader>) -> (r: Result<String, Rejection>)
    ensures
        match r {
            Ok(id) => header matches Some(h) && h.key_id == Some(id),
            Err(e) => Err::<Seq<char>, Rejection>(e) == key_id_outcome(
                match header {
                    Some(h) => Some(key_id_view(h)),
                    None => None,
                },
            ),
        },
{
    match header {
        None => Err(Rejection::TokenFormat(TokenFormatError::MalformedToken)),
        Some(h) => match h.key_id {
            None => Err(Rejection::TokenFormat(TokenFormatError::MissingKeyId)),
            Some(id) => Ok(id),
        },
    }
}

/// Reads the key id out of a token's header.  Nothing here touches the
/// network: a token without a key id is refused on its text alone.
pub fn token_key_id(token: &str) -> (r: Result<String, Rejection>)
    ensures
        match r {
            Ok(id) => key_id_outcome(token_header(token@)) == Ok::<Seq<char>, Rejection>(id@),
            Err(e) => key_id_outcome(token_header(token@)) == Err::<Seq<char>, Rejection>(e),
        },
{
    require_key_id(decode_header(token))
}

} // verus!
