use pynthora_terminal::client::{
    bearer_header, health_url, ingest_batch_url, ingest_event_url, pipelines_url, uptime_parts,
    PipelineResponse,
};

#[test]
fn endpoints_follow_the_wire_contract() {
    let base = "https://api.pynthora.network/ingest";
    assert_eq!(ingest_event_url(base), format!("{}/api/v1/ingest", base));
    assert_eq!(ingest_batch_url(base), format!("{}/api/v1/ingest/batch", base));
    assert_eq!(health_url(base), format!("{}/api/v1/health", base));
    assert_eq!(pipelines_url(base), format!("{}/api/v1/pipelines", base));
}

#[test]
fn credential_header_is_a_bearer_token() {
    assert_eq!(bearer_header("test_key_12345678"), "Bearer test_key_12345678");
}

#[test]
fn uptime_splits_into_hours_and_minutes() {
    assert_eq!(uptime_parts(0), (0, 0));
    assert_eq!(uptime_parts(3661), (1, 1));
    assert_eq!(uptime_parts(7325), (2, 2));
}

#[test]
fn pipeline_response_carries_the_answer() {
    let r = PipelineResponse {
        id: "p-1".to_string(),
        name: "ingest".to_string(),
        version: "1.0".to_string(),
        status: "active".to_string(),
    };
    assert_eq!(r.id, "p-1");
    assert_eq!(r.status, "active");
}
