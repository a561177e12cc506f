use deskmon::encode64::{encode_capture, validate_encoded_capture};
use deskmon::errors::CaptureError;
use deskmon::validate::{image_size_acceptable, png_signature_matches, MIN_IMAGE_BYTES};

#[test]
fn minimum_size_is_one_thousand_bytes() {
    assert_eq!(MIN_IMAGE_BYTES, 1000);
    assert!(!image_size_acceptable(0));
    assert!(!image_size_acceptable(999));
    assert!(image_size_acceptable(1000));
    assert!(image_size_acceptable(1001));
}

#[test]
fn png_signature_is_checked_bytewise() {
    let good = vec![0x89, 0x50, 0x4e, 0x47, 0x0d, 0x0a, 0x1a, 0x0a, 0x00, 0x01];
    assert!(png_signature_matches(&good));
    let wrong = vec![0x89, 0x50, 0x4e, 0x47, 0x0d, 0x0a, 0x1a, 0x0b];
    assert!(!png_signature_matches(&wrong));
    let short = vec![0x89, 0x50, 0x4e];
    assert!(!png_signature_matches(&short));
    assert!(!png_signature_matches(&Vec::new()));
}

#[test]
fn encoding_matches_the_standard_alphabet() {
    // The library's encoding must agree with a direct use of the engine;
    // in particular it is not the raw bytes passed through.
    let bytes: Vec<u8> = (0u8..=255).collect();
    let encoded = encode_capture(&bytes).expect("encoding small buffers always succeeds");
    let direct = base64::Engine::encode(&base64::engine::general_purpose::STANDARD, &bytes);
    assert_eq!(encoded, direct);
    assert_ne!(encoded.as_bytes(), bytes.as_slice());
    assert_eq!(encoded.len(), 4 * ((bytes.len() + 2) / 3));
}

#[test]
fn encoded_captures_round_trip_through_validation() {
    let bytes = vec![0x42u8; 1500];
    let encoded = encode_capture(&bytes).unwrap();
    let back = validate_encoded_capture(&encoded).expect("a valid capture must validate");
    assert_eq!(back, bytes);
}

#[test]
fn non_base64_text_is_rejected() {
    let text = "this is not base64 !!!".to_string();
    assert!(matches!(
        validate_encoded_capture(&text),
        Err(CaptureError::MethodFailed(_))
    ));
}

#[test]
fn undersized_encoded_capture_is_rejected() {
    let bytes = vec![7u8; 10];
    let encoded = encode_capture(&bytes).unwrap();
    assert!(matches!(
        validate_encoded_capture(&encoded),
        Err(CaptureError::ValidationFailed(10))
    ));
}
