use keycloak_gateway::claims::Claims;
use serde_json::Value;

const PAYLOAD: &str = "{\"aud\":\"account\",\"exp\":1700003600,\"iat\":1700000000,\
    \"iss\":\"http://idp.example/realms/demo\",\"sub\":\"user-1\",\"azp\":\"myclient\",\
    \"preferred_username\":\"ada\",\"name\":\"Ada Lovelace\",\"given_name\":\"Ada\",\
    \"family_name\":\"Lovelace\",\"email\":\"ada@example.org\",\"scope\":\"openid\"}";

fn parsed(text: &str) -> Value {
    serde_json::from_str(text).unwrap()
}

#[test]
fn claims_are_the_members_of_the_payload() {
    let claims = Claims::from_payload(&parsed(PAYLOAD)).unwrap();
    assert_eq!(
        claims,
        Claims {
            aud: String::from("account"),
            exp: 1700003600,
            iat: 1700000000,
            iss: String::from("http://idp.example/realms/demo"),
            sub: String::from("user-1"),
            azp: String::from("myclient"),
            preferred_username: String::from("ada"),
            name: String::from("Ada Lovelace"),
            given_name: String::from("Ada"),
            family_name: String::from("Lovelace"),
            email: String::from("ada@example.org"),
        }
    );
}

#[test]
fn clone_of_claims_is_equal() {
    let claims = Claims::from_payload(&parsed(PAYLOAD)).unwrap();
    assert_eq!(claims.clone(), claims);
}

#[test]
fn payload_that_is_no_object_has_no_claims() {
    assert_eq!(Claims::from_payload(&parsed("[]")), None);
    assert_eq!(Claims::from_payload(&parsed("\"aud\"")), None);
    assert_eq!(Claims::from_payload(&parsed("null")), None);
    assert_eq!(Claims::from_payload(&parsed("{}")), None);
}

#[test]
fn timestamp_must_be_a_non_negative_integer() {
    for bad in ["-1", "1.5", "\"1700003600\"", "null", "true"] {
        let text = PAYLOAD.replace("\"exp\":1700003600", &format!("\"exp\":{}", bad));
        assert_eq!(Claims::from_payload(&parsed(&text)), None);
    }
    let zero = PAYLOAD.replace("\"exp\":1700003600", "\"exp\":0");
    assert_eq!(Claims::from_payload(&parsed(&zero)).unwrap().exp, 0);
}

#[test]
fn text_claim_must_be_a_string() {
    for bad in ["7", "null", "[\"account\"]", "{}"] {
        let text = PAYLOAD.replace("\"aud\":\"account\"", &format!("\"aud\":{}", bad));
        assert_eq!(Claims::from_payload(&parsed(&text)), None);
    }
    let empty = PAYLOAD.replace("\"aud\":\"account\"", "\"aud\":\"\"");
    assert_eq!(Claims::from_payload(&parsed(&empty)).unwrap().aud, "");
}
