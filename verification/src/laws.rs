//! What holds of the gateway as a whole, proved from the contracts of its
//! parts.

use vstd::prelude::*;
use crate::claims::{payload_claims, payload_complete, ClaimsView};
use crate::extractor::bearer_token;
use crate::gateway::{
    after_body,
    transition,
    ActionView,
    EventView,
    InterceptionView,
    Refusal,
    RequestContextView,
};
use crate::interceptor::{protected, token_outcome};
use crate::json::JsonMembers;
use crate::keys::{document_key_ids, lemma_first_match_none};
use crate::rejection::{Rejection, TokenFormatError};
use crate::token::token_header;
use crate::validator::{selected_key, signed, validated, PolicyView};

verus! {

/// A token that arrives in a well-formed `Bearer` header, is signed by the
/// key that its key id selects in the fetched key set, names the configured
/// issuer (and audience, where one is configured), has not expired and
/// carries every claim is authorized, and the claims returned are the
/// fields of its payload.
pub proof fn law_valid_token_is_authorized(
    authorization: Option<Seq<u8>>,
    token: Seq<char>,
    fetched: Option<Seq<u8>>,
    policy: PolicyView,
    now: nat,
    payload: JsonMembers,
)
    requires
        bearer_token(authorization) == Ok::<Seq<char>, TokenFormatError>(token),
        signed(token, fetched, policy.algorithm) == Some(payload),
        payload_complete(payload),
        payload.strings["iss"@] == policy.issuer,
        policy.audience matches Some(expected) ==> payload.strings["aud"@] == expected,
        payload.numbers["exp"@] > now,
    ensures
        token_outcome(authorization, fetched, policy, now) == Ok::<ClaimsView, Rejection>(
            payload_claims(payload)->0,
        ),
        payload_claims(payload)->0.sub == payload.strings["sub"@],
        payload_claims(payload)->0.iss == payload.strings["iss"@],
        payload_claims(payload)->0.aud == payload.strings["aud"@],
        payload_claims(payload)->0.azp == payload.strings["azp"@],
        payload_claims(payload)->0.email == payload.strings["email"@],
        payload_claims(payload)->0.name == payload.strings["name"@],
        payload_claims(payload)->0.given_name == payload.strings["given_name"@],
        payload_claims(payload)->0.family_name == payload.strings["family_name"@],
        payload_claims(payload)->0.preferred_username == payload.strings["preferred_username"@],
        payload_claims(payload)->0.exp == payload.numbers["exp"@],
        payload_claims(payload)->0.iat == payload.numbers["iat"@],
{
}

/// A token that is not signed by the key that its key id selects is never
/// accepted; where a key is selected, it is refused for its signature.
pub proof fn law_unverified_token_is_refused(
    token: Seq<char>,
    fetched: Option<Seq<u8>>,
    policy: PolicyView,
    now: nat,
)
    requires
        signed(token, fetched, policy.algorithm) is None,
    ensures
        validated(token, fetched, policy, now) is Err,
        selected_key(token, fetched) is Ok ==> validated(token, fetched, policy, now) == Err::<
            ClaimsView,
            Rejection,
        >(Rejection::Signature),
{
}

/// A token is accepted only with the claims of a payload that is signed
/// by the selected key and keeps the issuer and the expiry that the policy
/// asks for.
pub proof fn law_accepted_token_is_signed(
    token: Seq<char>,
    fetched: Option<Seq<u8>>,
    policy: PolicyView,
    now: nat,
)
    requires
        validated(token, fetched, policy, now) is Ok,
    ensures
        signed(token, fetched, policy.algorithm) matches Some(payload) && payload_claims(payload)
            == Some(validated(token, fetched, policy, now)->Ok_0),
        validated(token, fetched, policy, now)->Ok_0.iss == policy.issuer,
        validated(token, fetched, policy, now)->Ok_0.exp > now,
{
}

/// A token whose header names no key is refused on its text alone,
/// whatever the key set holds; and the gateway refuses a request that
/// carries such a token without asking for the key set.
pub proof fn law_missing_key_id_is_refused_before_any_fetch(
    path: Seq<char>,
    authorization: Option<Seq<u8>>,
    token: Seq<char>,
    body: Seq<u8>,
    url: Option<Seq<char>>,
    fetched: Option<Seq<u8>>,
    policy: PolicyView,
    now: nat,
)
    requires
        bearer_token(authorization) == Ok::<Seq<char>, TokenFormatError>(token),
        token_header(token) == Some(None::<Seq<char>>),
    ensures
        validated(token, fetched, policy, now) == Err::<ClaimsView, Rejection>(
            Rejection::TokenFormat(TokenFormatError::MissingKeyId),
        ),
        !(after_body(path, authorization, body, url).1 is FetchKeySet),
        protected(path) && url is Some ==> after_body(path, authorization, body, url) == (
            InterceptionView::Finished,
            ActionView::Respond {
                refusal: Refusal::Unauthorized,
                reason: Some(Rejection::TokenFormat(TokenFormatError::MissingKeyId)),
            },
        ),
{
}

/// A token whose key id is the id of no key in the fetched key set is
/// refused because the key was not found.
pub proof fn law_unknown_key_id_is_key_not_found(
    token: Seq<char>,
    id: Seq<char>,
    document: Seq<u8>,
    policy: PolicyView,
    now: nat,
)
    requires
        token_header(token) == Some(Some(id)),
        document_key_ids(document) matches Some(ids) && forall|j: int|
            0 <= j < ids.len() ==> ids[j] != Some(id),
    ensures
        validated(token, Some(document), policy, now) == Err::<ClaimsView, Rejection>(
            Rejection::KeyNotFound,
        ),
{
    lemma_first_match_none(document_key_ids(document)->0, id);
}

/// A token whose expiry lies in the past is refused, whether or not its
/// signature verifies.
pub proof fn law_expired_token_is_refused(
    token: Seq<char>,
    fetched: Option<Seq<u8>>,
    policy: PolicyView,
    now: nat,
)
    requires
        signed(token, fetched, policy.algorithm) matches Some(payload)
            ==> payload.numbers.contains_key("exp"@) && payload.numbers["exp"@] < now,
    ensures
        validated(token, fetched, policy, now) is Err,
{
}

/// A request to a path outside the protected prefix is forwarded with
/// its body and without claims, whatever its headers and whatever the
/// configuration.
pub proof fn law_unprotected_path_is_forwarded(
    path: Seq<char>,
    authorization: Option<Seq<u8>>,
    body: Seq<u8>,
    url: Option<Seq<char>>,
)
    requires
        !protected(path),
    ensures
        after_body(path, authorization, body, url) == (
            InterceptionView::Finished,
            ActionView::Forward { context: RequestContextView { body, claims: None } },
        ),
{
}

/// The chunks of a body, one after the other.
pub open spec fn concatenation(chunks: Seq<Seq<u8>>) -> Seq<u8>
    decreases chunks.len(),
{
    if chunks.len() == 0 {
        Seq::<u8>::empty()
    } else {
        concatenation(chunks.drop_last()) + chunks.last()
    }
}

/// The state of the gateway after it was handed the chunks of a body in
/// order.
pub open spec fn drained(
    state: InterceptionView,
    chunks: Seq<Seq<u8>>,
    url: Option<Seq<char>>,
    policy: PolicyView,
    now: nat,
) -> InterceptionView
    decreases chunks.len(),
{
    if chunks.len() == 0 {
        state
    } else {
        transition(
            drained(state, chunks.drop_last(), url, policy, now),
            EventView::Chunk(chunks.last()),
            url,
            policy,
            now,
        ).0
    }
}

/// Draining a body buffers exactly the bytes that were delivered, in
/// order; the one other end is that the request was given up, which
/// happens only to a body that the machine cannot address.
pub proof fn lemma_drained_buffers_every_chunk(
    path: Seq<char>,
    authorization: Option<Seq<u8>>,
    chunks: Seq<Seq<u8>>,
    url: Option<Seq<char>>,
    policy: PolicyView,
    now: nat,
)
    ensures
        ({
            let start = InterceptionView::Draining {
                path,
                authorization,
                body: Seq::<u8>::empty(),
            };
            let read = drained(start, chunks, url, policy, now);
            let whole = InterceptionView::Draining {
                path,
                authorization,
                body: concatenation(chunks),
            };
            &&& read == whole || read == InterceptionView::Finished
            &&& concatenation(chunks).len() <= usize::MAX ==> read == whole
        }),
    decreases chunks.len(),
{
    if chunks.len() > 0 {
        lemma_drained_buffers_every_chunk(
            path,
            authorization,
            chunks.drop_last(),
            url,
            policy,
            now,
        );
    }
}

/// Body replay: whenever the gateway forwards a request, on a protected
/// path or not, the body it hands to the next stage is byte for byte what
/// the client sent.
pub proof fn law_forwarded_body_is_what_was_sent(
    path: Seq<char>,
    authorization: Option<Seq<u8>>,
    chunks: Seq<Seq<u8>>,
    url: Option<Seq<char>>,
    policy: PolicyView,
    now: nat,
    fetched: Option<Seq<u8>>,
)
    ensures
        ({
            let start = InterceptionView::Draining {
                path,
                authorization,
                body: Seq::<u8>::empty(),
            };
            let read = drained(start, chunks, url, policy, now);
            let decided = transition(read, EventView::EndOfBody, url, policy, now);
            let resolved = transition(decided.0, EventView::KeySet(fetched), url, policy, now);
            &&& decided.1 matches ActionView::Forward { context } ==> context.body
                == concatenation(chunks)
            &&& resolved.1 matches ActionView::Forward { context } ==> context.body
                == concatenation(chunks)
        }),
{
    lemma_drained_buffers_every_chunk(path, authorization, chunks, url, policy, now);
}

/// Claims reach the next stage on a protected path only out of a
/// validation that succeeded: what is forwarded when the key set arrives
/// carries exactly the claims that validation returned, and a request that
/// validation rejects is answered with 401 and never forwarded.
pub proof fn law_claims_are_attached_only_on_success(
    body: Seq<u8>,
    token: Seq<char>,
    url: Option<Seq<char>>,
    policy: PolicyView,
    now: nat,
    fetched: Option<Seq<u8>>,
)
    ensures
        ({
            let outcome = validated(token, fetched, policy, now);
            let next = transition(
                InterceptionView::Resolving { body, token },
                EventView::KeySet(fetched),
                url,
                policy,
                now,
            );
            &&& outcome matches Ok(claims) ==> next.1 == (ActionView::Forward {
                context: RequestContextView { body, claims: Some(claims) },
            })
            &&& outcome matches Err(e) ==> next.1 == (ActionView::Respond {
                refusal: Refusal::Unauthorized,
                reason: Some(e),
            })
        }),
{
}

/// No request on a protected path is forwarded when its body ends: it is
/// refused, or the key set is asked for.  And whatever is forwarded when
/// the key set arrives carries claims.
pub proof fn law_protected_request_is_forwarded_only_with_claims(
    path: Seq<char>,
    authorization: Option<Seq<u8>>,
    body: Seq<u8>,
    token: Seq<char>,
    url: Option<Seq<char>>,
    policy: PolicyView,
    now: nat,
    fetched: Option<Seq<u8>>,
)
    requires
        protected(path),
    ensures
        !(after_body(path, authorization, body, url).1 is Forward),
        transition(
            InterceptionView::Resolving { body, token },
            EventView::KeySet(fetched),
            url,
            policy,
            now,
        ).1 matches ActionView::Forward { context } ==> context.claims is Some,
{
}

} // verus!
