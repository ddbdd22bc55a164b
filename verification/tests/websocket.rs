use pynthora_terminal::config::Config;
use pynthora_terminal::websocket::{
    NextStep, SessionEnd, StreamAction, StreamInbound, WebSocketClient,
};

fn client() -> WebSocketClient {
    WebSocketClient::new(Config {
        api_key: "test_key_12345678".to_string(),
        ingest_url: "https://api.pynthora.network/ingest".to_string(),
        workspace: "test-workspace".to_string(),
    })
}

#[test]
fn stream_url_mirrors_the_http_scheme() {
    assert_eq!(
        client().build_ws_url(),
        "wss://api.pynthora.network/ingest/ws/stream"
    );
    let plain = WebSocketClient::new(Config {
        api_key: "test_key_12345678".to_string(),
        ingest_url: "http://localhost:8080".to_string(),
        workspace: "w".to_string(),
    });
    assert_eq!(plain.build_ws_url(), "ws://localhost:8080/ws/stream");
}

#[test]
fn auth_frame_carries_credential_and_workspace() {
    assert_eq!(
        client().auth_message(),
        "{\"type\":\"auth\",\"api_key\":\"test_key_12345678\",\"workspace\":\"test-workspace\"}"
    );
    let tricky = WebSocketClient::new(Config {
        api_key: "key\"with\\quotes".to_string(),
        ingest_url: "https://h".to_string(),
        workspace: "w".to_string(),
    });
    assert_eq!(
        tricky.auth_message(),
        "{\"type\":\"auth\",\"api_key\":\"key\\\"with\\\\quotes\",\"workspace\":\"w\"}"
    );
}

#[test]
fn ping_is_answered_with_the_identical_payload() {
    let payload = vec![1u8, 2, 3, 250];
    match client().on_inbound(StreamInbound::Ping(payload.clone())) {
        StreamAction::Pong(p) => assert_eq!(p, payload),
        _ => panic!("a ping must be answered with a pong"),
    }
}

#[test]
fn text_frames_are_delivered_or_skipped() {
    let c = client();
    match c.on_inbound(StreamInbound::Text(
        "{\"timestamp\":1,\"source\":\"s\",\"data\":{}}".to_string(),
    )) {
        StreamAction::Deliver(e) => {
            assert_eq!(e.raw, "{\"data\":{},\"source\":\"s\",\"timestamp\":1}")
        }
        _ => panic!("a parseable text frame must reach the handler"),
    }
    assert!(matches!(
        c.on_inbound(StreamInbound::Text("not json".to_string())),
        StreamAction::SkipMalformed
    ));
    assert!(matches!(
        c.on_inbound(StreamInbound::Close),
        StreamAction::EndSession
    ));
    assert!(matches!(
        c.on_inbound(StreamInbound::Failure("reset".to_string())),
        StreamAction::FailSession(_)
    ));
    assert!(matches!(c.on_inbound(StreamInbound::Other), StreamAction::Ignore));
}

#[test]
fn errored_sessions_reconnect_normal_close_stops() {
    let c = client();
    assert_eq!(c.reconnect_interval, 5);
    assert!(matches!(
        c.after_session(SessionEnd::Errored),
        NextStep::ReconnectAfter(5)
    ));
    assert!(matches!(c.after_session(SessionEnd::Normal), NextStep::Stop));
}
