use pynthora_terminal::signing::{hash_data_text, signature_payload};

#[test]
fn digest_placeholder_names_the_length() {
    assert_eq!(hash_data_text(0), "hash_0");
    assert_eq!(hash_data_text(15), "hash_15");
}

#[test]
fn signature_document_is_exact() {
    assert_eq!(
        signature_payload("test_event", 1234, 15),
        "{\"data_hash\":\"hash_15\",\"event_type\":\"test_event\",\"timestamp\":1234}"
    );
}

#[test]
fn signature_document_matches_a_real_serialization() {
    // The same document built through serde_json comes out identically.
    let mut m = serde_json::Map::new();
    m.insert(
        "event_type".to_string(),
        serde_json::Value::String("test_event".to_string()),
    );
    m.insert(
        "timestamp".to_string(),
        serde_json::Value::Number(serde_json::Number::from(1234u64)),
    );
    m.insert(
        "data_hash".to_string(),
        serde_json::Value::String("hash_15".to_string()),
    );
    let reference = serde_json::to_string(&serde_json::Value::Object(m)).unwrap();
    assert_eq!(signature_payload("test_event", 1234, 15), reference);
}

#[test]
fn signature_is_never_empty() {
    let signature = signature_payload("test_event", 1, 2);
    assert!(!signature.is_empty());
}
