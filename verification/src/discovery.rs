//! The discovery client: from the provider's metadata document to its
//! signing-keys URL.
//!
//! Discovery runs once, at startup.  The request itself is made outside;
//! what is decided here is where to ask and what the answer means.

use vstd::prelude::*;
use vstd::string::{StrSliceExecFns, StringExecFns};
use crate::json::{document_strings, parse_document, string_member};

verus! {

/// The part of the provider's metadata that the gateway needs.
#[derive(Debug, PartialEq, Eq)]
pub struct OpenIdConfig {
    /// Where the provider publishes its signing keys.
    pub jwks_uri: String,
}

/// The provider's coordinates, as the deployment configures them.
#[derive(Debug, PartialEq, Eq)]
pub struct KeycloakClientConfig {
    pub auth_server_url: String,
    pub realm: String,
    pub client_id: String,
}

impl Clone for KeycloakClientConfig {
    fn clone(&self) -> (copy: KeycloakClientConfig)
        ensures
            copy == *self,
    {
        KeycloakClientConfig {
            auth_server_url: self.auth_server_url.clone(),
            realm: self.realm.clone(),
            client_id: self.client_id.clone(),
        }
    }
}

/// Why discovery failed.  Either way the process must not start serving
/// protected routes.
#[derive(Debug, Clone, Copy, PartialEq, Eq, Structural)]
pub enum DiscoveryError {
    /// The provider gave no usable answer: the request failed, or the
    /// status was not a success.
    Network,
    /// The answer is not a metadata document with a signing-keys URL.
    Malformed,
}

/// What came back from the discovery request.
#[derive(Debug, PartialEq, Eq)]
pub enum DiscoveryReply {
    /// The request could not be made or got no response.
    Unreachable,
    /// The provider answered.
    Answer { status: u16, body: Vec<u8> },
}

/// A text without the slashes at its end.
pub open spec fn without_trailing_slashes(text: Seq<char>) -> Seq<char>
    decreases text.len(),
{
    if text.len() > 0 && text.last() == '/' {
        without_trailing_slashes(text.drop_last())
    } else {
        text
    }
}

/// Cutting a slash off the end leaves the same text once every slash at
/// the end is gone.
proof fn lemma_trailing_slash(text: Seq<char>, end: int)
    requires
        0 < end <= text.len(),
        text[end - 1] == '/',
    ensures
        without_trailing_slashes(text.subrange(0, end)) == without_trailing_slashes(
            text.subrange(0, end - 1),
        ),
{
    let head = text.subrange(0, end);
    assert(head.last() == '/');
    assert(head.drop_last() =~= text.subrange(0, end - 1));
}

/// The text without the slashes at its end.
fn trim_trailing_slashes(text: &str) -> (trimmed: String)
    ensures
        trimmed@ == without_trailing_slashes(text@),
{
    let mut end = text.unicode_len();
    assert(text@.subrange(0, end as int) =~= text@);
    while end > 0 && text.get_char(end - 1) == '/'
        invariant
            end <= text@.len(),
            without_trailing_slashes(text@) == without_trailing_slashes(
                text@.subrange(0, end as int),
            ),
        decreases end,
    {
        proof {
            lemma_trailing_slash(text@, end as int);
        }
        end = end - 1;
    }
    proof {
        let head = text@.subrange(0, end as int);
        if end > 0 {
            assert(head.last() == text@[end - 1]);
        }
    }
    String::from_str(text.substring_char(0, end))
}

/// The issuer URL of a realm: the server's URL without trailing slashes,
/// then `/realms/` and the realm.
pub open spec fn issuer_url(auth_server_url: Seq<char>, realm: Seq<char>) -> Seq<char> {
    without_trailing_slashes(auth_server_url) + "/realms/"@ + realm
}

/// Where a provider with this issuer URL publishes its metadata.
pub open spec fn metadata_url(issuer: Seq<char>) -> Seq<char> {
    issuer + "/.well-known/openid-configuration"@
}

impl KeycloakClientConfig {
    /// The issuer URL of the configured realm.
    pub fn openid_base_url(&self) -> (url: String)
        ensures
            url@ == issuer_url(self.auth_server_url@, self.realm@),
    {
        let mut url = trim_trailing_slashes(self.auth_server_url.as_str());
        url.append("/realms/");
        url.append(self.realm.as_str());
        url
    }
}

/// The URL of the discovery request for an issuer.
pub fn discovery_url(keycloak_base_url: &str) -> (url: String)
    ensures
        url@ == metadata_url(keycloak_base_url@),
{
    let mut url = String::from_str(keycloak_base_url);
    url.append("/.well-known/openid-configuration");
    url
}

/// Whether a status code is a success: 200 to 299.
pub open spec fn is_success(status: u16) -> bool {
    200 <= status && status < 300
}

/// The reply, as a plain value: the status and body of an answer.
pub open spec fn reply_view(reply: DiscoveryReply) -> Option<(u16, Seq<u8>)> {
    match reply {
        DiscoveryReply::Unreachable => None,
        DiscoveryReply::Answer { status, body } => Some((status, body@)),
    }
}

/// What discovery yields for a reply: the `jwks_uri` string of a
/// successful answer's JSON document.
pub open spec fn discovered(reply: Option<(u16, Seq<u8>)>) -> Result<Seq<char>, DiscoveryError> {
    match reply {
        None => Err(DiscoveryError::Network),
        Some((status, body)) => if !is_success(status) {
            Err(DiscoveryError::Network)
        } else {
            match document_strings(body) {
                None => Err(DiscoveryError::Malformed),
                Some(strings) => if strings.contains_key("jwks_uri"@) {
                    Ok(strings["jwks_uri"@])
                } else {
                    Err(DiscoveryError::Malformed)
                },
            }
        },
    }
}

/// Reads the provider's metadata out of the reply to the discovery
/// request.
pub fn read_openid_config(reply: &DiscoveryReply) -> (r: Result<OpenIdConfig, DiscoveryError>)
    ensures
        match r {
            Ok(config) => discovered(reply_view(*reply)) == Ok::<Seq<char>, DiscoveryError>(
                config.jwks_uri@,
            ),
            Err(e) => discovered(reply_view(*reply)) == Err::<Seq<char>, DiscoveryError>(e),
        },
{
    match reply {
        DiscoveryReply::Unreachable => Err(DiscoveryError::Network),
        DiscoveryReply::Answer { status, body } => {
            if !(200 <= *status && *status < 300) {
                return Err(DiscoveryError::Network);
            }
            match parse_document(body.as_slice()) {
                None => Err(DiscoveryError::Malformed),
                Some(document) => match string_member(&document, "jwks_uri") {
                    None => Err(DiscoveryError::Malformed),
                    Some(jwks_uri) => Ok(OpenIdConfig { jwks_uri }),
                },
            }
        },
    }
}

} // verus!
