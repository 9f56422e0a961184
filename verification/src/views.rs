//! The pages of the front end, filled in with the provider's coordinates.

use vstd::prelude::*;
use vstd::string::StringExecFns;
use crate::discovery::KeycloakClientConfig;

verus! {

/// The script that tells the front end where the provider is: three
/// assignments, one for each coordinate.
pub open spec fn client_script(
    auth_server_url: Seq<char>,
    realm: Seq<char>,
    client_id: Seq<char>,
) -> Seq<char> {
    "\n        window.KEYCLOAK_FRONTEND_URL = \""@ + auth_server_url
        + "\";\n        window.KEYCLOAK_FRONTEND_REALM = \""@ + realm
        + "\";\n        window.KEYCLOAK_FRONTEND_CLIENT_ID = \""@ + client_id + "\";\n        "@
}

/// A text with every occurrence of a pattern replaced, from left to right
/// and without overlap.
pub uninterp spec fn replaced(text: Seq<char>, pattern: Seq<char>, with: Seq<char>) -> Seq<char>;

/// `str::replace`.  Trusted: the result is a function of the three texts.
#[verifier::external_body]
fn replace(text: &str, pattern: &str, with: &str) -> (r: String)
    ensures
        r@ == replaced(text@, pattern@, with@),
{
    text.replace(pattern, with)
}

impl KeycloakClientConfig {
    /// The script that hands the provider's coordinates to the front end.
    pub fn script(&self) -> (script: String)
        ensures
            script@ == client_script(self.auth_server_url@, self.realm@, self.client_id@),
    {
        let mut script = String::from_str("\n        window.KEYCLOAK_FRONTEND_URL = \"");
        script.append(self.auth_server_url.as_str());
        script.append("\";\n        window.KEYCLOAK_FRONTEND_REALM = \"");
        script.append(self.realm.as_str());
        script.append("\";\n        window.KEYCLOAK_FRONTEND_CLIENT_ID = \"");
        script.append(self.client_id.as_str());
        script.append("\";\n        ");
        script
    }
}

/// Renders a page: the template with its `{{JAVASCRIPT}}` marker replaced
/// by the provider's coordinates and then the page's own script.
pub fn render_page(template: &str, config: &KeycloakClientConfig, javascript: &str) -> (page:
    String)
    ensures
        page@ == replaced(
            template@,
            "{{JAVASCRIPT}}"@,
            client_script(config.auth_server_url@, config.realm@, config.client_id@) + javascript@,
        ),
{
    let mut script = config.script();
    script.append(javascript);
    replace(template, "{{JAVASCRIPT}}", script.as_str())
}

} // verus!
