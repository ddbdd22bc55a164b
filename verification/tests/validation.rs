use pynthora_terminal::events::Event;
use pynthora_terminal::validation::{
    validate_batch, validate_event, validate_pipeline, JsonValue, ValidationResult,
};

fn valid_event() -> Event {
    Event {
        raw: "{\"data\":{},\"source\":\"s\",\"timestamp\":1}".to_string(),
        is_object: true,
        keys: vec!["data".to_string(), "source".to_string(), "timestamp".to_string()],
    }
}

#[test]
fn result_tracks_errors_and_warnings() {
    let mut r = ValidationResult::new();
    assert!(r.is_valid);
    r.add_warning("advisory".to_string());
    assert!(r.is_valid);
    r.add_error("blocking".to_string());
    assert!(!r.is_valid);
    assert_eq!(r.errors, vec!["blocking"]);
    assert_eq!(r.warnings, vec!["advisory"]);
}

#[test]
fn non_object_event_is_one_error() {
    let e = Event { raw: "[1]".to_string(), is_object: false, keys: vec![] };
    let r = validate_event(&e);
    assert!(!r.is_valid);
    assert_eq!(r.errors, vec!["Event must be a JSON object"]);
    assert!(r.warnings.is_empty());
}

#[test]
fn missing_fields_each_get_a_message() {
    let e = Event { raw: "{}".to_string(), is_object: true, keys: vec![] };
    let r = validate_event(&e);
    assert_eq!(
        r.errors,
        vec![
            "Event must have a 'timestamp' field",
            "Event must have a 'source' field",
            "Event must have a 'data' field"
        ]
    );
}

#[test]
fn empty_batch_is_an_error() {
    let r = validate_batch(&vec![]);
    assert!(!r.is_valid);
    assert_eq!(r.errors, vec!["Batch cannot be empty"]);
    assert!(r.warnings.is_empty());
}

#[test]
fn oversized_batch_is_valid_with_one_warning() {
    let mut events = Vec::new();
    for _ in 0..1001 {
        events.push(valid_event());
    }
    let r = validate_batch(&events);
    assert!(r.is_valid);
    assert!(r.errors.is_empty());
    assert_eq!(r.warnings, vec!["Large batch size: 1001 events (recommended: < 1000)"]);
}

#[test]
fn batch_messages_carry_the_event_index() {
    let bad = Event { raw: "{}".to_string(), is_object: true, keys: vec!["timestamp".to_string(), "source".to_string()] };
    let events = vec![valid_event(), bad];
    let r = validate_batch(&events);
    assert!(!r.is_valid);
    assert_eq!(r.errors, vec!["Event 1: Event must have a 'data' field"]);
}

fn text(s: &str) -> JsonValue {
    JsonValue::Text(s.to_string())
}

#[test]
fn pipeline_must_be_an_object() {
    let r = validate_pipeline(&JsonValue::Null);
    assert!(!r.is_valid);
    assert_eq!(r.errors, vec!["Pipeline must be a JSON object"]);
}

#[test]
fn valid_pipeline_passes() {
    let p = JsonValue::Object(vec![
        ("name".to_string(), text("ingest")),
        ("version".to_string(), text("1.0")),
    ]);
    let r = validate_pipeline(&p);
    assert!(r.is_valid);
    assert!(r.errors.is_empty());
    assert!(r.warnings.is_empty());
}

#[test]
fn pipeline_name_and_version_rules() {
    let p = JsonValue::Object(vec![("name".to_string(), text(""))]);
    let r = validate_pipeline(&p);
    assert_eq!(
        r.errors,
        vec![
            "Pipeline 'name' must be a non-empty string",
            "Pipeline must have a 'version' field"
        ]
    );
    let p = JsonValue::Object(vec![
        ("name".to_string(), JsonValue::Number("7".to_string())),
        ("version".to_string(), JsonValue::Bool(true)),
    ]);
    let r = validate_pipeline(&p);
    assert_eq!(
        r.errors,
        vec![
            "Pipeline 'name' must be a non-empty string",
            "Pipeline 'version' must be a string"
        ]
    );
}

#[test]
fn pipeline_step_rules() {
    let p = JsonValue::Object(vec![
        ("name".to_string(), text("ingest")),
        ("version".to_string(), text("1.0")),
        ("steps".to_string(), text("oops")),
    ]);
    let r = validate_pipeline(&p);
    assert_eq!(r.errors, vec!["Pipeline 'steps' must be an array"]);

    let p = JsonValue::Object(vec![
        ("name".to_string(), text("ingest")),
        ("version".to_string(), text("1.0")),
        ("steps".to_string(), JsonValue::Array(vec![])),
    ]);
    let r = validate_pipeline(&p);
    assert!(r.is_valid);
    assert_eq!(r.warnings, vec!["Pipeline has no steps defined"]);

    let p = JsonValue::Object(vec![
        ("name".to_string(), text("ingest")),
        ("version".to_string(), text("1.0")),
        (
            "steps".to_string(),
            JsonValue::Array(vec![
                JsonValue::Object(vec![("type".to_string(), text("map"))]),
                JsonValue::Null,
                JsonValue::Object(vec![("kind".to_string(), text("map"))]),
            ]),
        ),
    ]);
    let r = validate_pipeline(&p);
    assert_eq!(
        r.errors,
        vec!["Step 1 must be an object", "Step 2 must have a 'type' field"]
    );
}

#[test]
fn pipeline_metadata_rule() {
    let p = JsonValue::Object(vec![
        ("name".to_string(), text("ingest")),
        ("version".to_string(), text("1.0")),
        ("metadata".to_string(), text("free-form")),
    ]);
    let r = validate_pipeline(&p);
    assert!(r.is_valid);
    assert_eq!(r.warnings, vec!["Pipeline 'metadata' should be an object"]);
}

#[test]
fn repeated_keys_read_the_first_binding() {
    let p = JsonValue::Object(vec![
        ("name".to_string(), text("first")),
        ("name".to_string(), text("")),
        ("version".to_string(), text("1.0")),
    ]);
    let r = validate_pipeline(&p);
    assert!(r.is_valid);
}
