//! The identity claims that a validated token carries.

use vstd::prelude::*;
use crate::json::{json_members, json_numbers, number_member, string_member, JsonMembers};

verus! {

/// The claims of a validated token.  Every field is required: a payload
/// that lacks one of them yields no claims at all.
#[derive(Debug, PartialEq, Eq)]
pub struct Claims {
    pub aud: String,
    pub exp: usize,
    pub iat: usize,
    pub iss: String,
    pub sub: String,
    pub azp: String,
    pub preferred_username: String,
    pub name: String,
    pub given_name: String,
    pub family_name: String,
    pub email: String,
}

/// The mathematical content of a [`Claims`] record.
pub struct ClaimsView {
    pub aud: Seq<char>,
    pub exp: nat,
    pub iat: nat,
    pub iss: Seq<char>,
    pub sub: Seq<char>,
    pub azp: Seq<char>,
    pub preferred_username: Seq<char>,
    pub name: Seq<char>,
    pub given_name: Seq<char>,
    pub family_name: Seq<char>,
    pub email: Seq<char>,
}

impl View for Claims {
    type V = ClaimsView;

    open spec fn view(&self) -> ClaimsView {
        ClaimsView {
            aud: self.aud@,
            exp: self.exp as nat,
            iat: self.iat as nat,
            iss: self.iss@,
            sub: self.sub@,
            azp: self.azp@,
            preferred_username: self.preferred_username@,
            name: self.name@,
            given_name: self.given_name@,
            family_name: self.family_name@,
            email: self.email@,
        }
    }
}

/// Whether a payload has every member that a claims record needs: nine
/// strings, and two timestamps that fit the machine word.
pub open spec fn payload_complete(payload: JsonMembers) -> bool {
    let strings = payload.strings;
    let numbers = payload.numbers;
    &&& strings.contains_key("aud"@)
    &&& numbers.contains_key("exp"@) && numbers["exp"@] <= usize::MAX
    &&& numbers.contains_key("iat"@) && numbers["iat"@] <= usize::MAX
    &&& strings.contains_key("iss"@)
    &&& strings.contains_key("sub"@)
    &&& strings.contains_key("azp"@)
    &&& strings.contains_key("preferred_username"@)
    &&& strings.contains_key("name"@)
    &&& strings.contains_key("given_name"@)
    &&& strings.contains_key("family_name"@)
    &&& strings.contains_key("email"@)
}

/// The claims that a payload spells: each field is the member of the same
/// name, and there are no claims unless the payload is complete.
pub open spec fn payload_claims(payload: JsonMembers) -> Option<ClaimsView> {
    let strings = payload.strings;
    let numbers = payload.numbers;
    if payload_complete(payload) {
        Some(
            ClaimsView {
                aud: strings["aud"@],
                exp: numbers["exp"@] as nat,
                iat: numbers["iat"@] as nat,
                iss: strings["iss"@],
                sub: strings["sub"@],
                azp: strings["azp"@],
                preferred_username: strings["preferred_username"@],
                name: strings["name"@],
                given_name: strings["given_name"@],
                family_name: strings["family_name"@],
                email: strings["email"@],
            },
        )
    } else {
        None
    }
}

/// Reads a timestamp member, refusing one that does not fit a `usize`.
fn timestamp_member(payload: &serde_json::Value, name: &str) -> (r: Option<usize>)
    ensures
        match r {
            Some(t) => json_numbers(*payload).contains_key(name@) && json_numbers(*payload)[name@]
                == t,
            None => !(json_numbers(*payload).contains_key(name@) && json_numbers(
                *payload,
            )[name@] <= usize::MAX),
        },
{
    match number_member(payload, name) {
        Some(number) => {
            if number <= usize::MAX as u64 {
                Some(number as usize)
            } else {
                None
            }
        },
        None => None,
    }
}

impl Clone for Claims {
    fn clone(&self) -> (copy: Claims)
        ensures
            copy == *self,
    {
        Claims {
            aud: self.aud.clone(),
            exp: self.exp,
            iat: self.iat,
            iss: self.iss.clone(),
            sub: self.sub.clone(),
            azp: self.azp.clone(),
            preferred_username: self.preferred_username.clone(),
            name: self.name.clone(),
            given_name: self.given_name.clone(),
            family_name: self.family_name.clone(),
            email: self.email.clone(),
        }
    }
}

impl Claims {
    /// Builds the claims record out of a token's decoded payload.
    pub fn from_payload(payload: &serde_json::Value) -> (r: Option<Claims>)
        ensures
            match r {
                Some(claims) => payload_claims(json_members(*payload)) == Some(claims@),
                None => payload_claims(json_members(*payload)) is None,
            },
    {
        let aud = string_member(payload, "aud")?;
        let exp = timestamp_member(payload, "exp")?;
        let iat = timestamp_member(payload, "iat")?;
        let iss = string_member(payload, "iss")?;
        let sub = string_member(payload, "sub")?;
        let azp = string_member(payload, "azp")?;
        let preferred_username = string_member(payload, "preferred_username")?;
        let name = string_member(payload, "name")?;
        let given_name = string_member(payload, "given_name")?;
        let family_name = string_member(payload, "family_name")?;
        let email = string_member(payload, "email")?;
        Some(
            Claims {
                aud,
                exp,
                iat,
                iss,
                sub,
                azp,
                preferred_username,
                name,
                given_name,
                family_name,
                email,
            },
        )
    }
}

} // verus!
