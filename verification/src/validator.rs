//! The token validator: a linear pipeline with no backtracking.
//!
//! Header, key id, key set, key match, key material, signature, claims:
//! each step either hands on to the next or ends validation with the
//! reason.  The only thing the pipeline needs from outside is the fetched
//! key set document and the time.

use vstd::prelude::*;
use crate::claims::{payload_claims, Claims, ClaimsView};
use crate::json::JsonMembers;
use crate::keys::{document_key, document_key_ids, document_key_usable, first_match, KeySet};
use crate::rejection::{ClaimError, KeyFetchError, Rejection};
use crate::signature::{payload_view, signed_members, verified_payload, SigningAlgorithm};
use crate::token::{key_id_outcome, token_header, token_key_id};

verus! {

/// What the gateway demands of a correctly signed token.
#[derive(Debug, PartialEq, Eq)]
pub struct ValidationPolicy {
    /// The issuer that every token must name.
    pub issuer: String,
    /// The audience that every token must name; `None` relaxes the check.
    pub audience: Option<String>,
    /// The algorithm the provider signs with.
    pub algorithm: SigningAlgorithm,
}

impl ValidationPolicy {
    /// The usual policy of a single-tenant deployment: tokens of `issuer`,
    /// signed with RS256, for any audience.
    pub fn new(issuer: String) -> (policy: ValidationPolicy)
        ensures
            policy.issuer == issuer,
            policy.audience is None,
            policy.algorithm == SigningAlgorithm::Rs256,
    {
        ValidationPolicy { issuer, audience: None, algorithm: SigningAlgorithm::Rs256 }
    }

    /// The configured audience, as a plain value.
    pub open spec fn audience_view(&self) -> Option<Seq<char>> {
        match self.audience {
            Some(audience) => Some(audience@),
            None => None,
        }
    }
}

/// The plain content of a [`ValidationPolicy`].
pub struct PolicyView {
    pub issuer: Seq<char>,
    pub audience: Option<Seq<char>>,
    pub algorithm: SigningAlgorithm,
}

impl View for ValidationPolicy {
    type V = PolicyView;

    open spec fn view(&self) -> PolicyView {
        PolicyView {
            issuer: self.issuer@,
            audience: self.audience_view(),
            algorithm: self.algorithm,
        }
    }
}

/// The first claim rule that a set of claims breaks, if any: the issuer
/// is the configured one, the audience is the configured one where one is
/// configured, and the expiry lies strictly after `now`.
pub open spec fn broken_claim(
    claims: ClaimsView,
    issuer: Seq<char>,
    audience: Option<Seq<char>>,
    now: nat,
) -> Option<ClaimError> {
    if claims.iss != issuer {
        Some(ClaimError::Issuer)
    } else if audience is Some && claims.aud != audience->0 {
        Some(ClaimError::Audience)
    } else if claims.exp <= now {
        Some(ClaimError::Expired)
    } else {
        None
    }
}

/// Holds a set of claims against the policy at time `now` (seconds since
/// the epoch).
pub fn check_claims(claims: &Claims, policy: &ValidationPolicy, now: u64) -> (r: Result<
    (),
    ClaimError,
>)
    ensures
        match r {
            Ok(()) => broken_claim(claims@, policy.issuer@, policy.audience_view(), now as nat)
                is None,
            Err(e) => broken_claim(claims@, policy.issuer@, policy.audience_view(), now as nat)
                == Some(e),
        },
{
    if claims.iss != policy.issuer {
        return Err(ClaimError::Issuer);
    }
    match &policy.audience {
        Some(audience) => {
            if claims.aud != *audience {
                return Err(ClaimError::Audience);
            }
        },
        None => {},
    }
    if claims.exp as u64 <= now {
        return Err(ClaimError::Expired);
    }
    Ok(())
}

/// What validation concludes from the outcome of the signature check:
/// without a verified payload the signature is refused; a payload that is
/// not a complete claims record has a missing claim; complete claims are
/// held against the policy.
pub open spec fn conclusion(
    payload: Option<JsonMembers>,
    issuer: Seq<char>,
    audience: Option<Seq<char>>,
    now: nat,
) -> Result<ClaimsView, Rejection> {
    match payload {
        None => Err(Rejection::Signature),
        Some(members) => match payload_claims(members) {
            None => Err(Rejection::Claim(ClaimError::Missing)),
            Some(claims) => match broken_claim(claims, issuer, audience, now) {
                Some(e) => Err(Rejection::Claim(e)),
                None => Ok(claims),
            },
        },
    }
}

/// The last step of validation: takes what the signature check returned
/// and either accepts the claims or names the reason not to.
pub fn conclude(verified: Option<serde_json::Value>, policy: &ValidationPolicy, now: u64) -> (r:
    Result<Claims, Rejection>)
    ensures
        match r {
            Ok(claims) => conclusion(
                payload_view(verified),
                policy.issuer@,
                policy.audience_view(),
                now as nat,
            ) == Ok::<ClaimsView, Rejection>(claims@),
            Err(e) => conclusion(
                payload_view(verified),
                policy.issuer@,
                policy.audience_view(),
                now as nat,
            ) == Err::<ClaimsView, Rejection>(e),
        },
{
    match verified {
        None => Err(Rejection::Signature),
        Some(payload) => match Claims::from_payload(&payload) {
            None => Err(Rejection::Claim(ClaimError::Missing)),
            Some(claims) => match check_claims(&claims, policy, now) {
                Err(e) => Err(Rejection::Claim(e)),
                Ok(()) => Ok(claims),
            },
        },
    }
}

/// The key that validation selects for a token, as a position in the
/// fetched key set, or the reason validation ends before the signature
/// check.  `fetched` is `None` where the key set could not be fetched.
pub open spec fn selected_key(token: Seq<char>, fetched: Option<Seq<u8>>) -> Result<
    int,
    Rejection,
> {
    match key_id_outcome(token_header(token)) {
        Err(e) => Err(e),
        Ok(id) => match fetched {
            None => Err(Rejection::KeyFetch(KeyFetchError::Network)),
            Some(document) => match document_key_ids(document) {
                None => Err(Rejection::KeyFetch(KeyFetchError::Malformed)),
                Some(ids) => match first_match(ids, id) {
                    None => Err(Rejection::KeyNotFound),
                    Some(i) => if document_key_usable(document)->0[i] {
                        Ok(i)
                    } else {
                        Err(Rejection::KeyMaterial)
                    },
                },
            },
        },
    }
}

/// What validation returns for a token and a fetched key set, given what
/// the signature check found (`verified`: the payload's string and number
/// members, `None` where no payload verified).  Every step before the
/// signature check is decided by the token's text and the document alone.
pub open spec fn validation_result(
    token: Seq<char>,
    fetched: Option<Seq<u8>>,
    issuer: Seq<char>,
    audience: Option<Seq<char>>,
    now: nat,
    verified: Option<JsonMembers>,
) -> Result<ClaimsView, Rejection> {
    match selected_key(token, fetched) {
        Err(e) => Err(e),
        Ok(_) => conclusion(verified, issuer, audience, now),
    }
}

/// The outcome of validation, with the claims as plain values.
pub open spec fn outcome_view(outcome: Result<Claims, Rejection>) -> Result<ClaimsView, Rejection> {
    match outcome {
        Ok(claims) => Ok(claims@),
        Err(e) => Err(e),
    }
}

/// A fetched document, as a plain value.
pub open spec fn fetched_view(fetched: Option<&[u8]>) -> Option<Seq<u8>> {
    match fetched {
        Some(document) => Some(document@),
        None => None,
    }
}

/// What the signature check finds for a token: the payload that the token
/// carries under the key that validation selects in the fetched key set,
/// checked with the provider's algorithm.  `None` where no key is selected
/// or the token is not signed by that key.
pub open spec fn signed(
    token: Seq<char>,
    fetched: Option<Seq<u8>>,
    algorithm: SigningAlgorithm,
) -> Option<JsonMembers> {
    match selected_key(token, fetched) {
        Ok(i) => signed_members(token, document_key(fetched->0, i), algorithm),
        Err(_) => None,
    }
}

/// What validation returns for a token, a fetched key set, a policy and a
/// time: the pipeline, run on what the signature check finds.
pub open spec fn validated(
    token: Seq<char>,
    fetched: Option<Seq<u8>>,
    policy: PolicyView,
    now: nat,
) -> Result<ClaimsView, Rejection> {
    validation_result(
        token,
        fetched,
        policy.issuer,
        policy.audience,
        now,
        signed(token, fetched, policy.algorithm),
    )
}

/// Validates a bearer token against a fetched key set, at time `now`
/// (seconds since the epoch).
///
/// The outcome is [`validated`]: a token is accepted exactly where a key
/// of the set is selected by its key id, the token carries a payload signed
/// by that key with the policy's algorithm, and the claims of that payload
/// keep every rule of the policy; the claims returned are those of that
/// payload.  Every other token is refused, with the step that failed.
pub fn check_password(
    token_string: &str,
    fetched: Option<&[u8]>,
    policy: &ValidationPolicy,
    now: u64,
) -> (r: Result<Claims, Rejection>)
    ensures
        outcome_view(r) == validated(token_string@, fetched_view(fetched), policy@, now as nat),
{
    let id = match token_key_id(token_string) {
        Ok(id) => id,
        Err(e) => {
            return Err(e);
        },
    };
    let keys = match KeySet::resolve(fetched) {
        Ok(keys) => keys,
        Err(e) => {
            return Err(Rejection::KeyFetch(e));
        },
    };
    let index = match keys.find_by_key_id(id.as_str()) {
        Some(index) => index,
        None => {
            return Err(Rejection::KeyNotFound);
        },
    };
    let key = match keys.materialize(index) {
        Some(key) => key,
        None => {
            return Err(Rejection::KeyMaterial);
        },
    };
    assert(selected_key(token_string@, fetched_view(fetched)) == Ok::<int, Rejection>(
        index as int,
    ));
    assert(key == document_key(fetched_view(fetched)->0, index as int));
    let verified = verified_payload(token_string, &key, policy.algorithm);
    conclude(verified, policy, now)
}

} // verus!
