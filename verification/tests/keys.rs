use keycloak_gateway::keys::KeySet;
use keycloak_gateway::rejection::KeyFetchError;

const DOCUMENT: &[u8] = b"{\"keys\":[\
    {\"kty\":\"RSA\",\"kid\":\"first\",\"n\":\"AQAB\",\"e\":\"AQAB\"},\
    {\"kty\":\"oct\",\"k\":\"c2VjcmV0\"},\
    {\"kty\":\"RSA\",\"kid\":\"second\",\"n\":\"???\",\"e\":\"AQAB\"},\
    {\"kty\":\"RSA\",\"kid\":\"first\",\"n\":\"AQAB\",\"e\":\"AQAB\"}]}";

#[test]
fn key_set_keeps_the_order_of_the_document() {
    let keys = KeySet::resolve(Some(DOCUMENT)).ok().unwrap();
    assert_eq!(keys.len(), 4);
    assert_eq!(keys.key_id(0), Some(String::from("first")));
    assert_eq!(keys.key_id(1), None);
    assert_eq!(keys.key_id(2), Some(String::from("second")));
    assert_eq!(keys.key_id(3), Some(String::from("first")));
}

#[test]
fn lookup_finds_the_first_key_with_the_id() {
    let keys = KeySet::resolve(Some(DOCUMENT)).ok().unwrap();
    assert_eq!(keys.find_by_key_id("first"), Some(0));
    assert_eq!(keys.find_by_key_id("second"), Some(2));
}

#[test]
fn lookup_of_an_absent_id_finds_nothing() {
    let keys = KeySet::resolve(Some(DOCUMENT)).ok().unwrap();
    assert_eq!(keys.find_by_key_id("third"), None);
    assert_eq!(keys.find_by_key_id("First"), None);
    assert_eq!(keys.find_by_key_id("firs"), None);
    assert_eq!(keys.find_by_key_id(""), None);
}

#[test]
fn lookup_in_an_empty_set_finds_nothing() {
    let keys = KeySet::resolve(Some(b"{\"keys\":[]}")).ok().unwrap();
    assert_eq!(keys.len(), 0);
    assert_eq!(keys.find_by_key_id("first"), None);
}

#[test]
fn unfetched_key_set_is_a_network_error() {
    assert_eq!(KeySet::resolve(None).err(), Some(KeyFetchError::Network));
}

#[test]
fn unparsable_key_set_is_malformed() {
    assert_eq!(KeySet::resolve(Some(b"not json")).err(), Some(KeyFetchError::Malformed));
    assert_eq!(KeySet::resolve(Some(b"[]")).err(), Some(KeyFetchError::Malformed));
    assert_eq!(
        KeySet::resolve(Some(b"{\"keys\":[{\"kid\":\"x\"}]}")).err(),
        Some(KeyFetchError::Malformed)
    );
}

#[test]
fn key_material_is_built_only_where_it_decodes() {
    let keys = KeySet::resolve(Some(DOCUMENT)).ok().unwrap();
    assert!(keys.materialize(0).is_some());
    assert!(keys.materialize(1).is_some());
    assert!(keys.materialize(2).is_none());
}
