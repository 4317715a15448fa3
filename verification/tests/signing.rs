use base64::Engine;
use dingtalk_sdk::{create_signature, current_timestamp_millis, encode_signature_tag, format_u64};

#[test]
fn creates_expected_signature() {
    let signature = create_signature("1700000000000", "secret").expect("signature");
    assert_eq!(
        signature,
        "OuzzJR5%2BxZ4%2FEYwqtNt6sMYZQMTa%2FHEGvc9miJe7XzY%3D"
    );
}

#[test]
fn signature_is_deterministic() {
    let first = create_signature("1700000000000", "another-secret").expect("signature");
    let second = create_signature("1700000000000", "another-secret").expect("signature");
    assert_eq!(first, second);
}

#[test]
fn signature_encoding_matches_urlencoding_crate() {
    let tag: Vec<u8> = (0u8..=255).collect();
    let mine = encode_signature_tag(&tag);
    let b64 = base64::engine::general_purpose::STANDARD.encode(&tag);
    let theirs = urlencoding::encode(&b64).into_owned();
    assert_eq!(mine, theirs);
}

#[test]
fn timestamp_is_decimal_millis() {
    let timestamp = current_timestamp_millis().expect("clock after epoch");
    assert!(!timestamp.is_empty());
    assert!(timestamp.bytes().all(|b| b.is_ascii_digit()));
    // Milliseconds since the epoch have been 13 digits since 2001.
    assert!(timestamp.len() >= 13);
}

#[test]
fn format_u64_renders_decimal() {
    assert_eq!(format_u64(0), "0");
    assert_eq!(format_u64(7), "7");
    assert_eq!(format_u64(1700000000000), "1700000000000");
    assert_eq!(format_u64(u64::MAX), u64::MAX.to_string());
}
