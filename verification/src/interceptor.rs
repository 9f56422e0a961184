//! The request interceptor: the gateway proper.
//!
//! Intercepting a request alternates outside work (reading the body,
//! fetching the key set, calling the next stage) with decisions.  The
//! decisions are here, as one transition function: the caller performs the
//! action it is handed and comes back with the event that followed.

use vstd::prelude::*;
use vstd::string::StrSliceExecFns;
use crate::claims::{Claims, ClaimsView};
use crate::extractor::{bearer_token, extract_header_token, RequestHead};
use crate::gateway::RequestContext;
use crate::rejection::Rejection;
use crate::token::{key_id_outcome, token_header, token_key_id};
use crate::validator::{
    check_password,
    fetched_view,
    outcome_view,
    validated,
    PolicyView,
    ValidationPolicy,
};

verus! {

/// The prefix under which every route requires a verified bearer token.
pub open spec fn protected_prefix() -> Seq<char> {
    "/api/v1/item/"@
}

/// Whether a path falls under the protected prefix.
pub open spec fn protected(path: Seq<char>) -> bool {
    protected_prefix().is_prefix_of(path)
}

/// Whether requests to `path` need a verified bearer token.
pub fn is_protected_path(path: &str) -> (r: bool)
    ensures
        r == protected(path@),
{
    let prefix = "/api/v1/item/";
    let n = prefix.unicode_len();
    if path.unicode_len() < n {
        return false;
    }
    let mut i: usize = 0;
    while i < n
        invariant
            prefix@ == protected_prefix(),
            n == prefix@.len(),
            n <= path@.len(),
            i <= n,
            forall|j: int| 0 <= j < i ==> path@[j] == prefix@[j],
        decreases n - i,
    {
        if path.get_char(i) != prefix.get_char(i) {
            assert(path@.subrange(0, n as int)[i as int] != prefix@[i as int]);
            return false;
        }
        i = i + 1;
    }
    assert(prefix@ =~= path@.subrange(0, n as int));
    true
}

/// The credential of a request that is worth fetching the key set for:
/// a bearer token whose header names a key.  Decided on the request
/// alone.
pub open spec fn credential(authorization: Option<Seq<u8>>) -> Result<Seq<char>, Rejection> {
    match bearer_token(authorization) {
        Err(e) => Err(Rejection::TokenFormat(e)),
        Ok(token) => match key_id_outcome(token_header(token)) {
            Err(e) => Err(e),
            Ok(_) => Ok(token),
        },
    }
}

/// Checks all that can be checked of a request's credential before any
/// network call: the header, the scheme, and the key id in the token.
pub fn preflight(request: &RequestHead) -> (r: Result<String, Rejection>)
    ensures
        match r {
            Ok(token) => credential(request.authorization_view()) == Ok::<Seq<char>, Rejection>(
                token@,
            ),
            Err(e) => credential(request.authorization_view()) == Err::<Seq<char>, Rejection>(e),
        },
{
    let token = match extract_header_token(request) {
        Ok(token) => token,
        Err(e) => {
            return Err(Rejection::TokenFormat(e));
        },
    };
    match token_key_id(token.as_str()) {
        Ok(_) => Ok(token),
        Err(e) => Err(e),
    }
}

/// What a request's credential is worth against a fetched key set: a
/// header without a bearer token is refused as it is, a token is
/// validated.
pub open spec fn token_outcome(
    authorization: Option<Seq<u8>>,
    fetched: Option<Seq<u8>>,
    policy: PolicyView,
    now: nat,
) -> Result<ClaimsView, Rejection> {
    match bearer_token(authorization) {
        Err(e) => Err(Rejection::TokenFormat(e)),
        Ok(token) => validated(token, fetched, policy, now),
    }
}

/// Extracts the bearer token of a request and validates it against a
/// fetched key set: authorized with the token's claims, or rejected with
/// the reason.  On success the claims are attached to the request's
/// context, the same that are returned; a rejection leaves the context as
/// it was.  The body in the context is never touched.
pub fn process_token(
    request: &RequestHead,
    context: &mut RequestContext,
    fetched: Option<&[u8]>,
    policy: &ValidationPolicy,
    now: u64,
) -> (r: Result<Claims, Rejection>)
    ensures
        outcome_view(r) == token_outcome(
            request.authorization_view(),
            fetched_view(fetched),
            policy@,
            now as nat,
        ),
        final(context).body == old(context).body,
        final(context).claims == (match r {
            Ok(claims) => Some(claims),
            Err(_) => old(context).claims,
        }),
{
    match extract_header_token(request) {
        Err(e) => Err(Rejection::TokenFormat(e)),
        Ok(token) => match check_password(token.as_str(), fetched, policy, now) {
            Ok(claims) => {
                context.claims = Some(claims.clone());
                Ok(claims)
            },
            Err(e) => Err(e),
        },
    }
}

} // verus!
