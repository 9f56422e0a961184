use keycloak_gateway::discovery::KeycloakClientConfig;
use keycloak_gateway::views::render_page;

fn config() -> KeycloakClientConfig {
    KeycloakClientConfig {
        auth_server_url: String::from("http://localhost:8080/"),
        realm: String::from("myrealm"),
        client_id: String::from("myclient"),
    }
}

const SCRIPT: &str = "\n        window.KEYCLOAK_FRONTEND_URL = \"http://localhost:8080/\";\
\n        window.KEYCLOAK_FRONTEND_REALM = \"myrealm\";\
\n        window.KEYCLOAK_FRONTEND_CLIENT_ID = \"myclient\";\
\n        ";

#[test]
fn script_assigns_the_three_coordinates() {
    assert_eq!(config().script(), SCRIPT);
}

#[test]
fn page_gets_the_script_in_place_of_its_marker() {
    let page = render_page("<script>{{JAVASCRIPT}}</script>", &config(), "start();");
    assert_eq!(page, format!("<script>{}start();</script>", SCRIPT));
}

#[test]
fn every_marker_is_replaced() {
    let page = render_page("{{JAVASCRIPT}}|{{JAVASCRIPT}}", &config(), "x");
    assert_eq!(page, format!("{}x|{}x", SCRIPT, SCRIPT));
}

#[test]
fn page_without_marker_is_unchanged() {
    assert_eq!(render_page("<p>hello</p>", &config(), "x"), "<p>hello</p>");
}
