//! Duplex Stream Client: the decision core of a persistent,
//! authenticated, self-healing connection to the gateway. The
//! transport itself (connecting, sending, receiving, sleeping) runs
//! outside the library and asks these functions what to do next:
//! a bad payload or a failing handler never tears the connection down,
//! a close frame ends it for good, and any transport error leads to a
//! fixed-pause reconnect, without bound.

use vstd::prelude::*;
use vstd::string::*;
use crate::config::Config;
use crate::events::{json_parses, parse_event_line, Event, event_of_line};
use crate::text::{append_escaped, escape_json, starts_with, str_starts_with};

verus! {

/// The streaming endpoint derived from the ingestion endpoint: the
/// HTTP(S) scheme rewritten to its WebSocket equivalent, with the
/// fixed stream path appended.
pub open spec fn ws_url_spec(base: Seq<char>) -> Seq<char> {
    if starts_with(base, "https://"@) {
        "wss://"@ + base.skip("https://"@.len() as int) + "/ws/stream"@
    } else if starts_with(base, "http://"@) {
        "ws://"@ + base.skip("http://"@.len() as int) + "/ws/stream"@
    } else {
        base + "/ws/stream"@
    }
}

/// The authentication frame sent first on every fresh connection.
pub open spec fn auth_message_spec(api_key: Seq<char>, workspace: Seq<char>) -> Seq<char> {
    "{\"type\":\"auth\",\"api_key\":\""@ + escape_json(api_key) + "\",\"workspace\":\""@
        + escape_json(workspace) + "\"}"@
}

/// The duplex client: owns the connection parameters and the fixed
/// pause between reconnection attempts.
pub struct WebSocketClient {
    pub config: Config,
    /// Seconds to wait after an errored session before reconnecting.
    pub reconnect_interval: u64,
}

/// One inbound item, as the transport reports it.
pub enum StreamInbound {
    /// A text frame.
    Text(String),
    /// A keep-alive ping with its payload.
    Ping(Vec<u8>),
    /// The server closed the stream normally.
    Close,
    /// The transport failed: a send or receive error, or a protocol
    /// violation.
    Failure(String),
    /// Any other frame (binary data, a pong).
    Other,
}

/// The client's reaction to one inbound item.
pub enum StreamAction {
    /// Hand this event to the caller-supplied handler and read on. A
    /// handler error is logged and does not close the connection.
    Deliver(Event),
    /// The text did not parse: log it and read on.
    SkipMalformed,
    /// Answer with a pong carrying exactly this payload, then read on.
    Pong(Vec<u8>),
    /// Leave the read loop: the session ended normally.
    EndSession,
    /// Leave the read loop: the session failed with this error.
    FailSession(String),
    /// Ignore the frame and read on.
    Ignore,
}

/// How a finished session ended.
pub enum SessionEnd {
    /// The server closed the stream normally.
    Normal,
    /// A transport-level error tore the session down.
    Errored,
}

/// What follows a finished session.
pub enum NextStep {
    /// Return to the caller: a normal close is terminal.
    Stop,
    /// Sleep this many seconds, then connect again.
    ReconnectAfter(u64),
}

impl WebSocketClient {
    /// One client per configuration; it reconnects after five seconds.
    pub fn new(config: Config) -> (r: WebSocketClient)
        ensures
            r.config == config,
            r.reconnect_interval == 5,
    {
        WebSocketClient { config, reconnect_interval: 5 }
    }

    /// The URL every session of this client connects to.
    pub fn build_ws_url(&self) -> (r: String)
        ensures
            r@ == ws_url_spec(self.config.ingest_url@),
    {
        let base = self.config.ingest_url.as_str();
        proof {
            reveal_strlit("https://");
            reveal_strlit("http://");
        }
        let mut r: String;
        if str_starts_with(base, "https://") {
            r = "wss://".to_owned();
            let rest = base.substring_char(8, base.unicode_len());
            proof {
                assert(rest@ =~= base@.skip("https://"@.len() as int));
            }
            r.append(rest);
        } else if str_starts_with(base, "http://") {
            r = "ws://".to_owned();
            let rest = base.substring_char(7, base.unicode_len());
            proof {
                assert(rest@ =~= base@.skip("http://"@.len() as int));
            }
            r.append(rest);
        } else {
            r = base.to_owned();
        }
        r.append("/ws/stream");
        r
    }

    /// The first outbound frame of every fresh connection: the
    /// authentication message carrying the credential and workspace.
    /// It is fire-and-forget: no acknowledgement is awaited.
    pub fn auth_message(&self) -> (r: String)
        ensures
            r@ == auth_message_spec(self.config.api_key@, self.config.workspace@),
    {
        let mut r = "{\"type\":\"auth\",\"api_key\":\"".to_owned();
        append_escaped(&mut r, self.config.api_key.as_str());
        r.append("\",\"workspace\":\"");
        append_escaped(&mut r, self.config.workspace.as_str());
        r.append("\"}");
        r
    }

    /// The reaction to one inbound item while streaming: a parseable
    /// text frame is handed to the handler, a malformed one is only
    /// logged, a ping is answered with a pong carrying the identical
    /// payload, a close frame ends the session normally, and a
    /// transport failure ends it as errored.
    pub fn on_inbound(&self, inbound: StreamInbound) -> (r: StreamAction)
        ensures
            inbound matches StreamInbound::Text(t) ==> {
                &&& json_parses(t@) ==> (r matches StreamAction::Deliver(e) && event_of_line(
                    e,
                    t@,
                ))
                &&& !json_parses(t@) ==> r == StreamAction::SkipMalformed
            },
            inbound matches StreamInbound::Ping(p) ==> r matches StreamAction::Pong(q) && q@ == p@,
            inbound is Close ==> r == StreamAction::EndSession,
            inbound matches StreamInbound::Failure(m) ==> r matches StreamAction::FailSession(e)
                && e@ == m@,
            inbound is Other ==> r == StreamAction::Ignore,
    {
        match inbound {
            StreamInbound::Text(t) => {
                match parse_event_line(t.as_str()) {
                    Some(e) => StreamAction::Deliver(e),
                    None => StreamAction::SkipMalformed,
                }
            },
            StreamInbound::Ping(p) => StreamAction::Pong(p),
            StreamInbound::Close => StreamAction::EndSession,
            StreamInbound::Failure(m) => StreamAction::FailSession(m),
            StreamInbound::Other => StreamAction::Ignore,
        }
    }

    /// After a normal close the client stops for good; after any error
    /// it waits exactly the fixed reconnect pause and connects again.
    /// There is no bound on reconnections: a long-lived stream heals
    /// itself indefinitely rather than give up.
    pub fn after_session(&self, end: SessionEnd) -> (r: NextStep)
        ensures
            end is Normal ==> r == NextStep::Stop,
            end is Errored ==> r == NextStep::ReconnectAfter(self.reconnect_interval),
    {
        match end {
            SessionEnd::Normal => NextStep::Stop,
            SessionEnd::Errored => NextStep::ReconnectAfter(self.reconnect_interval),
        }
    }
}

} // verus!
