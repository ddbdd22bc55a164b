use pynthora_terminal::events::read_events;
use pynthora_terminal::sender::batch_payload;
use pynthora_terminal::validation::validate_event;

#[test]
fn blank_lines_produce_nothing() {
    let lines = vec![
        "".to_string(),
        "   ".to_string(),
        "\t \t".to_string(),
        "\u{00a0}\u{2003}".to_string(),
    ];
    let (events, errors) = read_events(&lines);
    assert_eq!(events.len(), 0);
    assert_eq!(errors, 0);
}

#[test]
fn malformed_lines_counted_wellformed_lines_kept() {
    let lines = vec![
        "{\"timestamp\":1,\"source\":\"s\",\"data\":{}}".to_string(),
        "not json".to_string(),
        "".to_string(),
        "{\"timestamp\":2,\"source\":\"t\",\"data\":{}}".to_string(),
        "{broken".to_string(),
    ];
    let (events, errors) = read_events(&lines);
    assert_eq!(events.len(), 2);
    assert_eq!(errors, 2);
    assert_eq!(events[0].raw, "{\"data\":{},\"source\":\"s\",\"timestamp\":1}");
    assert_eq!(events[1].raw, "{\"data\":{},\"source\":\"t\",\"timestamp\":2}");
}

#[test]
fn parsed_event_exposes_object_shape() {
    let lines = vec!["{\"timestamp\":1,\"source\":\"s\",\"data\":{}}".to_string()];
    let (events, _) = read_events(&lines);
    assert!(events[0].is_object);
    assert_eq!(events[0].keys, vec!["data", "source", "timestamp"]);
    let lines = vec!["[1,2,3]".to_string()];
    let (events, _) = read_events(&lines);
    assert!(!events[0].is_object);
    assert!(events[0].keys.is_empty());
}

#[test]
fn round_trip_line_validates_and_reappears_byte_for_byte() {
    let lines = vec!["{\"timestamp\":1,\"source\":\"s\",\"data\":{}}".to_string()];
    let (events, errors) = read_events(&lines);
    assert_eq!(errors, 0);
    assert_eq!(events.len(), 1);
    let result = validate_event(&events[0]);
    assert!(result.is_valid);
    let payload = batch_payload(&events, 0, 1);
    assert_eq!(payload, format!("[{}]", events[0].raw));
    assert!(payload.contains(events[0].raw.as_str()));
}
