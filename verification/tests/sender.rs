use pynthora_terminal::events::Event;
use pynthora_terminal::sender::{
    batch_bounds, batch_payload, tally_outcomes, SendReport, DEFAULT_BATCH_SIZE,
};

fn event(raw: &str) -> Event {
    Event {
        raw: raw.to_string(),
        is_object: true,
        keys: vec!["data".to_string(), "source".to_string(), "timestamp".to_string()],
    }
}

#[test]
fn default_batch_size_is_one_hundred() {
    assert_eq!(DEFAULT_BATCH_SIZE, 100);
}

#[test]
fn bounds_cover_the_run_in_order() {
    assert_eq!(batch_bounds(250, 100), vec![(0, 100), (100, 200), (200, 250)]);
    assert_eq!(batch_bounds(100, 100), vec![(0, 100)]);
    assert_eq!(batch_bounds(0, 100), vec![]);
    assert_eq!(batch_bounds(3, 1), vec![(0, 1), (1, 2), (2, 3)]);
}

#[test]
fn payload_is_the_batch_as_a_json_array() {
    let events = vec![
        event("{\"data\":{},\"source\":\"a\",\"timestamp\":1}"),
        event("{\"data\":{},\"source\":\"b\",\"timestamp\":2}"),
    ];
    let payload = batch_payload(&events, 0, 2);
    assert_eq!(
        payload,
        "[{\"data\":{},\"source\":\"a\",\"timestamp\":1},{\"data\":{},\"source\":\"b\",\"timestamp\":2}]"
    );
    assert_eq!(batch_payload(&events, 0, 0), "[]");
    assert_eq!(batch_payload(&events, 1, 2), "[{\"data\":{},\"source\":\"b\",\"timestamp\":2}]");
}

#[test]
fn report_accumulates_each_outcome() {
    let mut report = SendReport::new();
    report.record(100, true);
    report.record(100, false);
    report.record(50, true);
    assert_eq!(report.successful, 150);
    assert_eq!(report.failed, 100);
}

#[test]
fn one_failing_batch_fails_only_its_own_events() {
    // Batch 1 of three always fails; the others succeed.
    let sizes = vec![100, 100, 50];
    let delivered = vec![true, false, true];
    let report = tally_outcomes(&sizes, &delivered);
    assert_eq!(report.successful, 150);
    assert_eq!(report.failed, 100);

    // The failing batch first, then last: every batch is still counted.
    let report = tally_outcomes(&sizes, &vec![false, true, true]);
    assert_eq!(report.successful, 150);
    assert_eq!(report.failed, 100);
    let report = tally_outcomes(&vec![100, 100, 50], &vec![true, true, false]);
    assert_eq!(report.successful, 200);
    assert_eq!(report.failed, 50);
}

#[test]
fn all_delivered_means_no_failures() {
    let report = tally_outcomes(&vec![100, 100, 7], &vec![true, true, true]);
    assert_eq!(report.successful, 207);
    assert_eq!(report.failed, 0);
}
