use sign_gateway::DigestOrder;
use sign_gateway::SignError;
use sign_gateway::digest::compute_digest;
use sign_gateway::hexstr::decode_payload;
use sign_gateway::textmatch::contains_marker;
use sign_gateway::textmatch::is_public_payload;

#[test]
fn decode_payload_decodes_hex_pairs() {
    assert_eq!(decode_payload("deadbeef").unwrap(), vec![0xde, 0xad, 0xbe, 0xef]);
    assert_eq!(decode_payload("00ff10").unwrap(), vec![0x00, 0xff, 0x10]);
    assert_eq!(decode_payload("DEADBEEF").unwrap(), vec![0xde, 0xad, 0xbe, 0xef]);
    assert_eq!(decode_payload("").unwrap(), Vec::<u8>::new());
}

#[test]
fn decode_payload_rejects_what_is_not_hex() {
    assert_eq!(decode_payload("zz"), Err(SignError::DecodeError));
    assert_eq!(decode_payload("abc"), Err(SignError::DecodeError));
    assert_eq!(decode_payload("0g"), Err(SignError::DecodeError));
    assert_eq!(decode_payload("dead beef"), Err(SignError::DecodeError));
}

#[test]
fn compute_digest_of_no_bytes_is_the_known_constant() {
    let expected =
        hex::decode("c5d2460186f7233c927e7db2dcc703c0e500b653ca82273b7bfad8045d85a470").unwrap();
    assert_eq!(compute_digest(DigestOrder::Forward, &[]), expected);
    let mut reversed = expected.clone();
    reversed.reverse();
    assert_eq!(compute_digest(DigestOrder::Reversed, &[]), reversed);
}

#[test]
fn compute_digest_is_deterministic() {
    let bytes = vec![0x6a, 0x62, 0x78, 0x42, 0x00, 0xde, 0xad];
    let first = compute_digest(DigestOrder::Forward, &bytes);
    let second = compute_digest(DigestOrder::Forward, &bytes);
    assert_eq!(first, second);
    assert_eq!(first.len(), 32);
}

#[test]
fn contains_marker_finds_the_needle_anywhere() {
    assert!(contains_marker("6a627842deadbeef", "6a627842"));
    assert!(contains_marker("deadbeef6a627842", "6a627842"));
    assert!(contains_marker("dead6a627842beef", "6a627842"));
    assert!(!contains_marker("deadbeef", "6a627842"));
    assert!(!contains_marker("6a6278", "6a627842"));
    assert!(contains_marker("anything", ""));
    assert!(!contains_marker("", "a"));
}

#[test]
fn is_public_payload_checks_every_marker() {
    let markers = vec!["6a627842".to_string(), "c0ffee".to_string()];
    assert!(is_public_payload(&markers, "00c0ffee00"));
    assert!(is_public_payload(&markers, "6a627842"));
    assert!(!is_public_payload(&markers, "deadbeef"));
    let none: Vec<String> = Vec::new();
    assert!(!is_public_payload(&none, "deadbeef"));
}

#[test]
fn error_messages_state_the_reason() {
    assert_eq!(
        SignError::AuthorizationError.message(),
        "only contract owner can sign arbitrary EVM transactions"
    );
    assert_eq!(SignError::PaymentError.message(), "pay the piper");
    assert_eq!(SignError::DecodeError.message(), "invalid hex payload");
}
