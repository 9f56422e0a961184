use keycloak_gateway::discovery::{
    discovery_url, read_openid_config, DiscoveryError, DiscoveryReply, KeycloakClientConfig,
    OpenIdConfig,
};

fn answer(status: u16, body: &str) -> DiscoveryReply {
    DiscoveryReply::Answer { status, body: body.as_bytes().to_vec() }
}

fn client(auth_server_url: &str) -> KeycloakClientConfig {
    KeycloakClientConfig {
        auth_server_url: String::from(auth_server_url),
        realm: String::from("myrealm"),
        client_id: String::from("myclient"),
    }
}

#[test]
fn discovery_url_is_the_well_known_path_under_the_issuer() {
    assert_eq!(
        discovery_url("http://idp.example/realms/demo"),
        "http://idp.example/realms/demo/.well-known/openid-configuration"
    );
    assert_eq!(discovery_url(""), "/.well-known/openid-configuration");
}

#[test]
fn issuer_url_drops_trailing_slashes_of_the_server() {
    assert_eq!(client("http://localhost:8080/").openid_base_url(), "http://localhost:8080/realms/myrealm");
    assert_eq!(client("http://localhost:8080").openid_base_url(), "http://localhost:8080/realms/myrealm");
    assert_eq!(client("http://localhost:8080///").openid_base_url(), "http://localhost:8080/realms/myrealm");
    assert_eq!(client("http://host/auth/").openid_base_url(), "http://host/auth/realms/myrealm");
    assert_eq!(client("").openid_base_url(), "/realms/myrealm");
    assert_eq!(client("///").openid_base_url(), "/realms/myrealm");
    assert_eq!(client("http://h\u{f4}te//").openid_base_url(), "http://h\u{f4}te/realms/myrealm");
    assert_eq!(client("http://host/\u{e9}").openid_base_url(), "http://host/\u{e9}/realms/myrealm");
}

#[test]
fn metadata_yields_the_signing_keys_url() {
    let reply = answer(
        200,
        "{\"issuer\":\"http://idp.example/realms/demo\",\
         \"jwks_uri\":\"http://idp.example/realms/demo/protocol/openid-connect/certs\"}",
    );
    assert_eq!(
        read_openid_config(&reply),
        Ok(OpenIdConfig {
            jwks_uri: String::from("http://idp.example/realms/demo/protocol/openid-connect/certs"),
        })
    );
}

#[test]
fn every_success_status_is_accepted() {
    let body = "{\"jwks_uri\":\"u\"}";
    assert!(read_openid_config(&answer(200, body)).is_ok());
    assert!(read_openid_config(&answer(204, body)).is_ok());
    assert!(read_openid_config(&answer(299, body)).is_ok());
}

#[test]
fn unreachable_provider_is_a_network_error() {
    assert_eq!(read_openid_config(&DiscoveryReply::Unreachable), Err(DiscoveryError::Network));
}

#[test]
fn status_outside_success_is_a_network_error() {
    let body = "{\"jwks_uri\":\"u\"}";
    for status in [0, 199, 300, 301, 404, 500, 503] {
        assert_eq!(read_openid_config(&answer(status, body)), Err(DiscoveryError::Network));
    }
}

#[test]
fn metadata_without_the_field_is_malformed() {
    for body in ["", "not json", "{}", "[]", "{\"jwks_uri\":7}", "{\"jwks_uri\":null}", "{\"JWKS_URI\":\"u\"}"] {
        assert_eq!(read_openid_config(&answer(200, body)), Err(DiscoveryError::Malformed));
    }
}

#[test]
fn client_config_clones_field_by_field() {
    let config = client("http://localhost:8080/");
    assert_eq!(config.clone(), config);
}
