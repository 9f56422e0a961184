//! The cryptographic check, done by `jsonwebtoken`.
//!
//! The library asks the outside crate one question only: does this token
//! carry a payload that verifies under this key?  What the claims in that
//! payload must say is decided here, not there, so the outside check runs
//! with every claim rule switched off.

use vstd::prelude::*;
use crate::json::{json_members, JsonMembers};

verus! {

#[verifier::external_type_specification]
#[verifier::external_body]
pub struct ExAlgorithm(jsonwebtoken::Algorithm);

#[verifier::external_type_specification]
#[verifier::external_body]
pub struct ExValidation(jsonwebtoken::Validation);

/// The algorithm that the provider signs its tokens with.
#[derive(Debug, Clone, Copy, PartialEq, Eq, Structural)]
pub enum SigningAlgorithm {
    Hs256,
    Hs384,
    Hs512,
    Es256,
    Es384,
    Rs256,
    Rs384,
    Rs512,
    Ps256,
    Ps384,
    Ps512,
    EdDsa,
}

/// The algorithm of the same name in `jsonwebtoken`'s own enumeration.
pub uninterp spec fn algorithm_named(algorithm: SigningAlgorithm) -> jsonwebtoken::Algorithm;

/// The rules that check a signature made with an algorithm, and nothing
/// else: no claim is required, and neither expiry nor audience is looked
/// at.
pub uninterp spec fn signature_rules(algorithm: jsonwebtoken::Algorithm) -> jsonwebtoken::Validation;

/// The payload that a token carries under a key and a set of
/// signature-only rules, as its string and number members; `None` where the
/// token does not pass.  It is spoken of for the rules that
/// [`signature_rules`] names and no others: under rules that look at the
/// expiry the outcome would change with the time.
pub uninterp spec fn decoded_members(
    token: Seq<char>,
    key: jsonwebtoken::DecodingKey,
    rules: jsonwebtoken::Validation,
) -> Option<JsonMembers>;

/// The payload of a token that is signed by `key` with `algorithm`; `None`
/// for every token that is not.
pub open spec fn signed_members(
    token: Seq<char>,
    key: jsonwebtoken::DecodingKey,
    algorithm: SigningAlgorithm,
) -> Option<JsonMembers> {
    decoded_members(token, key, signature_rules(algorithm_named(algorithm)))
}

/// A decoded payload as the members that the contracts speak of.
pub open spec fn payload_view(verified: Option<serde_json::Value>) -> Option<JsonMembers> {
    match verified {
        Some(payload) => Some(json_members(payload)),
        None => None,
    }
}

/// Names the same algorithm in `jsonwebtoken`'s own enumeration.
#[verifier::external_body]
fn outside_algorithm(algorithm: SigningAlgorithm) -> (r: jsonwebtoken::Algorithm)
    ensures
        r == algorithm_named(algorithm),
{
    match algorithm {
        SigningAlgorithm::Hs256 => jsonwebtoken::Algorithm::HS256,
        SigningAlgorithm::Hs384 => jsonwebtoken::Algorithm::HS384,
        SigningAlgorithm::Hs512 => jsonwebtoken::Algorithm::HS512,
        SigningAlgorithm::Es256 => jsonwebtoken::Algorithm::ES256,
        SigningAlgorithm::Es384 => jsonwebtoken::Algorithm::ES384,
        SigningAlgorithm::Rs256 => jsonwebtoken::Algorithm::RS256,
        SigningAlgorithm::Rs384 => jsonwebtoken::Algorithm::RS384,
        SigningAlgorithm::Rs512 => jsonwebtoken::Algorithm::RS512,
        SigningAlgorithm::Ps256 => jsonwebtoken::Algorithm::PS256,
        SigningAlgorithm::Ps384 => jsonwebtoken::Algorithm::PS384,
        SigningAlgorithm::Ps512 => jsonwebtoken::Algorithm::PS512,
        SigningAlgorithm::EdDsa => jsonwebtoken::Algorithm::EdDSA,
    }
}

/// `Validation::new` for one algorithm, with the expiry and audience rules
/// and the list of required claims switched off: what is left is the
/// signature check alone.  Trusted: the rules are a function of the
/// algorithm.
#[verifier::external_body]
fn signature_only(algorithm: jsonwebtoken::Algorithm) -> (r: jsonwebtoken::Validation)
    ensures
        r == signature_rules(algorithm),
{
    let mut validation = jsonwebtoken::Validation::new(algorithm);
    validation.validate_exp = false;
    validation.validate_aud = false;
    validation.required_spec_claims.clear();
    validation
}

/// `jsonwebtoken::decode::<serde_json::Value>`: checks the token's
/// signature with the key and decodes its payload.  The rules must be
/// those of [`signature_only`]: with them the call never reads the clock
/// and does no arithmetic on the expiry.  Trusted: under such rules the
/// outcome is a function of the token's text, the key and the rules.
#[verifier::external_body]
fn decode_verified(
    token: &str,
    key: &jsonwebtoken::DecodingKey,
    validation: &jsonwebtoken::Validation,
) -> (r: Option<serde_json::Value>)
    requires
        exists|algorithm: jsonwebtoken::Algorithm|
            #[trigger] signature_rules(algorithm) == *validation,
    ensures
        payload_view(r) == decoded_members(token@, *key, *validation),
{
    match jsonwebtoken::decode::<serde_json::Value>(token, key, validation) {
        Ok(data) => Some(data.claims),
        Err(_) => None,
    }
}

/// The payload of a token, if the token is signed by `key` with
/// `algorithm`; `None` for every token that is not.
pub(crate) fn verified_payload(
    token: &str,
    key: &jsonwebtoken::DecodingKey,
    algorithm: SigningAlgorithm,
) -> (r: Option<serde_json::Value>)
    ensures
        payload_view(r) == signed_members(token@, *key, algorithm),
{
    let validation = signature_only(outside_algorithm(algorithm));
    decode_verified(token, key, &validation)
}

} // verus!
