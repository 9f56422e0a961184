//! The token extractor: from a request's headers to a bearer token.

use vstd::prelude::*;
use vstd::slice::slice_subrange;
use crate::rejection::TokenFormatError;

verus! {

/// What the gateway reads of an inbound request before its body.
#[derive(Debug, PartialEq, Eq)]
pub struct RequestHead {
    /// The path of the request's URI.
    pub path: String,
    /// The raw value of the `Authorization` header, if the request has one.
    pub authorization: Option<Vec<u8>>,
}

impl RequestHead {
    /// The header value, as a plain value.
    pub open spec fn authorization_view(&self) -> Option<Seq<u8>> {
        match self.authorization {
            Some(value) => Some(value@),
            None => None,
        }
    }
}

/// A byte that may stand in a header value that is read as text:
/// printable ASCII, or a tab.
pub open spec fn visible_ascii(byte: u8) -> bool {
    (32 <= byte && byte < 127) || byte == 9
}

/// A header value that can be read as text.
pub open spec fn readable(value: Seq<u8>) -> bool {
    forall|i: int| 0 <= i < value.len() ==> visible_ascii(#[trigger] value[i])
}

/// The scheme that a credential must carry: the bytes of `Bearer `.
pub open spec fn bearer_scheme() -> Seq<u8> {
    seq![66u8, 101u8, 97u8, 114u8, 101u8, 114u8, 32u8]
}

/// ASCII bytes as text: each byte is the character of the same code.
pub open spec fn ascii_text(bytes: Seq<u8>) -> Seq<char> {
    Seq::new(bytes.len(), |i: int| bytes[i] as char)
}

/// The token that a header value carries: what follows the scheme of a
/// readable value, or the reason there is none.
pub open spec fn bearer_token(authorization: Option<Seq<u8>>) -> Result<
    Seq<char>,
    TokenFormatError,
> {
    match authorization {
        None => Err(TokenFormatError::NoHeader),
        Some(value) => if !readable(value) {
            Err(TokenFormatError::UnreadableHeader)
        } else if !bearer_scheme().is_prefix_of(value) {
            Err(TokenFormatError::NotBearer)
        } else {
            Ok(ascii_text(value.subrange(7, value.len() as int)))
        },
    }
}

/// `String::from_utf8_lossy` on ASCII bytes.  Trusted: ASCII is valid
/// UTF-8, one byte to the character, so nothing is replaced and each
/// character has the code of its byte.
#[verifier::external_body]
fn text_of_ascii(bytes: &[u8]) -> (text: String)
    requires
        forall|i: int| 0 <= i < bytes@.len() ==> bytes@[i] < 128,
    ensures
        text@ == ascii_text(bytes@),
{
    String::from_utf8_lossy(bytes).into_owned()
}

/// Whether every byte of a header value is visible ASCII.
fn is_readable(value: &[u8]) -> (r: bool)
    ensures
        r == readable(value@),
{
    let n = value.len();
    let mut i: usize = 0;
    while i < n
        invariant
            n == value@.len(),
            i <= n,
            forall|j: int| 0 <= j < i ==> visible_ascii(#[trigger] value@[j]),
        decreases n - i,
    {
        let byte = value[i];
        if !((32 <= byte && byte < 127) || byte == 9) {
            return false;
        }
        i = i + 1;
    }
    true
}

/// Whether a header value starts with `Bearer `.
fn has_bearer_scheme(value: &[u8]) -> (r: bool)
    ensures
        r == bearer_scheme().is_prefix_of(value@),
{
    if value.len() < 7 {
        return false;
    }
    let r = value[0] == 66 && value[1] == 101 && value[2] == 97 && value[3] == 114 && value[4]
        == 101 && value[5] == 114 && value[6] == 32;
    proof {
        let head = value@.subrange(0, 7);
        if r {
            assert(bearer_scheme() =~= head);
        } else {
            assert(bearer_scheme()[0] == 66 && bearer_scheme()[1] == 101 && bearer_scheme()[2]
                == 97 && bearer_scheme()[3] == 114 && bearer_scheme()[4] == 101
                && bearer_scheme()[5] == 114 && bearer_scheme()[6] == 32);
            assert(head[0] == value@[0] && head[1] == value@[1] && head[2] == value@[2]
                && head[3] == value@[3] && head[4] == value@[4] && head[5] == value@[5]
                && head[6] == value@[6]);
        }
    }
    r
}

/// Pulls the bearer token out of a request's `Authorization` header: the
/// header must be there, must read as text, and must start with `Bearer `;
/// the token is everything after that.
pub fn extract_header_token(request: &RequestHead) -> (r: Result<String, TokenFormatError>)
    ensures
        match r {
            Ok(token) => bearer_token(request.authorization_view()) == Ok::<
                Seq<char>,
                TokenFormatError,
            >(token@),
            Err(e) => bearer_token(request.authorization_view()) == Err::<
                Seq<char>,
                TokenFormatError,
            >(e),
        },
{
    match &request.authorization {
        None => Err(TokenFormatError::NoHeader),
        Some(value) => {
            let bytes = value.as_slice();
            if !is_readable(bytes) {
                Err(TokenFormatError::UnreadableHeader)
            } else if !has_bearer_scheme(bytes) {
                Err(TokenFormatError::NotBearer)
            } else {
                let tail = slice_subrange(bytes, 7, bytes.len());
                assert forall|i: int| 0 <= i < tail@.len() implies tail@[i] < 128 by {
                    assert(visible_ascii(bytes@[i + 7]));
                }
                Ok(text_of_ascii(tail))
            }
        },
    }
}

} // verus!
