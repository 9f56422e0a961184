use keycloak_gateway::extractor::{extract_header_token, RequestHead};
use keycloak_gateway::rejection::TokenFormatError;

fn request(authorization: Option<&[u8]>) -> RequestHead {
    RequestHead {
        path: String::from("/api/v1/item/get"),
        authorization: authorization.map(|value| value.to_vec()),
    }
}

#[test]
fn bearer_header_yields_the_token() {
    let head = request(Some(b"Bearer abc.def.ghi"));
    assert_eq!(extract_header_token(&head), Ok(String::from("abc.def.ghi")));
}

#[test]
fn missing_header_is_refused() {
    assert_eq!(extract_header_token(&request(None)), Err(TokenFormatError::NoHeader));
}

#[test]
fn other_scheme_is_refused() {
    let head = request(Some(b"Basic dXNlcjpwYXNz"));
    assert_eq!(extract_header_token(&head), Err(TokenFormatError::NotBearer));
}

#[test]
fn scheme_is_case_sensitive_and_needs_its_space() {
    assert_eq!(extract_header_token(&request(Some(b"bearer abc"))), Err(TokenFormatError::NotBearer));
    assert_eq!(extract_header_token(&request(Some(b"Bearer"))), Err(TokenFormatError::NotBearer));
    assert_eq!(extract_header_token(&request(Some(b"Bearer "))), Ok(String::new()));
}

#[test]
fn unreadable_header_is_refused() {
    let head = request(Some(&[66, 101, 97, 114, 101, 114, 32, 0xff, 0x80]));
    assert_eq!(extract_header_token(&head), Err(TokenFormatError::UnreadableHeader));
    let control = request(Some(b"Bearer a\x01b"));
    assert_eq!(extract_header_token(&control), Err(TokenFormatError::UnreadableHeader));
}

#[test]
fn tab_counts_as_readable() {
    let head = request(Some(b"Bearer a\tb"));
    assert_eq!(extract_header_token(&head), Ok(String::from("a\tb")));
}
