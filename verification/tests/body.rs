use bytes::Bytes;
use keycloak_gateway::body::BodyBuffer;

#[test]
fn new_buffer_is_empty() {
    assert_eq!(BodyBuffer::new().finish().to_vec(), Vec::<u8>::new());
}

#[test]
fn chunks_are_appended_in_order() {
    let mut buffer = BodyBuffer::new();
    assert!(buffer.push(Bytes::from_static(b"one,")));
    assert!(buffer.push(Bytes::from_static(b"")));
    assert!(buffer.push(Bytes::from_static(b"two,")));
    assert!(buffer.push(Bytes::from(vec![0u8, 255u8])));
    assert_eq!(buffer.finish().to_vec(), b"one,two,\x00\xff".to_vec());
}

#[test]
fn body_can_be_replayed_more_than_once() {
    let mut buffer = BodyBuffer::new();
    assert!(buffer.push(Bytes::from_static(b"payload")));
    let body = buffer.finish();
    let first = body.replay();
    let second = body.replay();
    assert_eq!(first.as_ref(), b"payload");
    assert_eq!(second.as_ref(), b"payload");
    assert_eq!(body.to_vec(), b"payload".to_vec());
}
