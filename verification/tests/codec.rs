//! The wire codecs: round trips in both formats, agreement with the
//! serialization crates the peers on the wire use, and rejection of bytes
//! that are no encoding.

use actix_directory::message::{bin_round_trip, json_round_trip, OpaqueMessage, Payload};
use actix_directory::test_plugin::{TestMessage, TestMessageEmpty, TestResponse};

#[test]
fn envelope_binary_round_trip() {
    let msg = OpaqueMessage::new("weather".to_string(), vec![1, 2, 3, 250]);
    let back = bin_round_trip(&msg).unwrap();
    assert_eq!(back.id, "weather");
    assert_eq!(back.inner, vec![1, 2, 3, 250]);
}

#[test]
fn envelope_json_round_trip() {
    let msg = OpaqueMessage::new("weather".to_string(), vec![0, 255]);
    let back = json_round_trip(&msg).unwrap();
    assert_eq!(back.id, "weather");
    assert_eq!(back.inner, vec![0, 255]);
}

#[test]
fn envelope_empty_round_trip() {
    let msg = OpaqueMessage::new(String::new(), Vec::new());
    let back = bin_round_trip(&msg).unwrap();
    assert_eq!(back.id, "");
    assert_eq!(back.inner, Vec::<u8>::new());
    let back = json_round_trip(&msg).unwrap();
    assert_eq!(back.id, "");
    assert_eq!(back.inner, Vec::<u8>::new());
}

#[test]
fn test_message_round_trips() {
    for x in [0u8, 1, 42, 255] {
        let back = bin_round_trip(&TestMessage(x)).unwrap();
        assert_eq!(back.0, x);
        let back = json_round_trip(&TestMessage(x)).unwrap();
        assert_eq!(back.0, x);
        let back = bin_round_trip(&TestResponse(x)).unwrap();
        assert_eq!(back.0, x);
        let back = json_round_trip(&TestResponse(x)).unwrap();
        assert_eq!(back.0, x);
    }
    assert!(bin_round_trip(&TestMessageEmpty).is_some());
    assert!(json_round_trip(&TestMessageEmpty).is_some());
}

#[test]
fn envelope_wire_matches_the_serializers() {
    // The envelope travels as its id and bytes together, in the form the
    // serialization crates give the pair.
    let msg = OpaqueMessage::new("test".to_string(), vec![9, 8, 7]);
    let expected = bincode::serialize(&("test".to_string(), vec![9u8, 8, 7])).unwrap();
    assert_eq!(msg.to_bin(), expected);
    let expected = serde_json::to_vec(&("test".to_string(), vec![9u8, 8, 7])).unwrap();
    assert_eq!(msg.to_json(), expected);
}

#[test]
fn byte_wire_matches_the_serializers() {
    // A one-byte message travels as that byte in binary form and as its
    // decimal numeral in JSON.
    assert_eq!(TestMessage(42).to_bin(), bincode::serialize(&42u8).unwrap());
    assert_eq!(TestMessage(42).to_bin(), vec![42u8]);
    assert_eq!(TestMessage(42).to_json(), serde_json::to_vec(&42u8).unwrap());
    assert_eq!(TestMessage(42).to_json(), b"42".to_vec());
    assert_eq!(TestMessageEmpty.to_bin(), bincode::serialize(&()).unwrap());
    assert_eq!(TestMessageEmpty.to_json(), serde_json::to_vec(&()).unwrap());
}

#[test]
fn malformed_bytes_are_rejected() {
    // A length prefix pointing far past the buffer is no encoding of any
    // pair.
    let garbage: Vec<u8> = vec![255, 255, 255, 255, 255, 255, 255, 255, 1];
    assert!(OpaqueMessage::from_bin(&garbage).is_none());
    assert!(OpaqueMessage::from_json(b"{not json").is_none());
    assert!(TestMessage::from_bin(&[1, 2]).is_none());
    assert!(TestMessage::from_json(b"\"x\"").is_none());
}

#[test]
fn envelope_carries_an_encoded_payload() {
    let msg = OpaqueMessage::try_new("test", &TestMessage(123));
    assert_eq!(msg.id, "test");
    assert_eq!(msg.inner, vec![123u8]);
    let inner: TestMessage = msg.inner().unwrap();
    assert_eq!(inner.0, 123);
}
