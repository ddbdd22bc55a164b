//! The computational side of the gateway client: endpoint derivation,
//! request headers, and the arithmetic behind the health display. The
//! HTTP transport itself runs outside the library and is handed these
//! values.

use vstd::prelude::*;
use vstd::string::*;

verus! {

/// The endpoint a single event is posted to.
pub fn ingest_event_url(base: &str) -> (r: String)
    ensures
        r@ == base@ + "/api/v1/ingest"@,
{
    let mut r = base.to_owned();
    r.append("/api/v1/ingest");
    r
}

/// The endpoint a batch is posted to.
pub fn ingest_batch_url(base: &str) -> (r: String)
    ensures
        r@ == base@ + "/api/v1/ingest/batch"@,
{
    let mut r = base.to_owned();
    r.append("/api/v1/ingest/batch");
    r
}

/// The endpoint the health probe reads.
pub fn health_url(base: &str) -> (r: String)
    ensures
        r@ == base@ + "/api/v1/health"@,
{
    let mut r = base.to_owned();
    r.append("/api/v1/health");
    r
}

/// The endpoint pipeline definitions are pushed to.
pub fn pipelines_url(base: &str) -> (r: String)
    ensures
        r@ == base@ + "/api/v1/pipelines"@,
{
    let mut r = base.to_owned();
    r.append("/api/v1/pipelines");
    r
}

/// The credential header every request carries.
pub fn bearer_header(api_key: &str) -> (r: String)
    ensures
        r@ == "Bearer "@ + api_key@,
{
    let mut r = "Bearer ".to_owned();
    r.append(api_key);
    r
}

/// An uptime in seconds as whole hours and leftover minutes.
pub fn uptime_parts(uptime_secs: u64) -> (r: (u64, u64))
    ensures
        r.0 == uptime_secs / 3600,
        r.1 == (uptime_secs % 3600) / 60,
{
    (uptime_secs / 3600, (uptime_secs % 3600) / 60)
}

/// What the gateway answers when a pipeline definition is accepted.
#[derive(Clone, Debug)]
pub struct PipelineResponse {
    pub id: String,
    pub name: String,
    pub version: String,
    pub status: String,
}

} // verus!
