//! Event signing: the signature document derived from an event's
//! type, timestamp and the length of its serialized data payload.
//! Serializing the payload itself happens outside the library; the
//! caller hands its byte length in.

use vstd::prelude::*;
use vstd::string::*;
use crate::text::{append_escaped, dec_str, escape_json, u64_to_string, usize_to_string};

verus! {

/// The placeholder digest of a serialized payload of `len` bytes.
pub open spec fn data_hash_spec(len: nat) -> Seq<char> {
    "hash_"@ + dec_str(len)
}

/// The signature document for an event: its data digest, type and
/// timestamp, keys in sorted order.
pub open spec fn signature_spec(event_type: Seq<char>, timestamp: u64, data_len: nat) -> Seq<
    char,
> {
    "{\"data_hash\":\"hash_"@ + dec_str(data_len) + "\",\"event_type\":\""@ + escape_json(
        event_type,
    ) + "\",\"timestamp\":"@ + dec_str(timestamp as nat) + "}"@
}

/// The placeholder digest: names the length of the serialized data.
pub fn hash_data_text(data_len: usize) -> (r: String)
    ensures
        r@ == data_hash_spec(data_len as nat),
{
    let mut r = "hash_".to_owned();
    r.append(usize_to_string(data_len).as_str());
    r
}

/// Builds the signature document for an event whose serialized data
/// payload is `data_len` bytes long.
pub fn signature_payload(event_type: &str, timestamp: u64, data_len: usize) -> (r: String)
    ensures
        r@ == signature_spec(event_type@, timestamp, data_len as nat),
{
    let mut r = "{\"data_hash\":\"hash_".to_owned();
    r.append(usize_to_string(data_len).as_str());
    r.append("\",\"event_type\":\"");
    append_escaped(&mut r, event_type);
    r.append("\",\"timestamp\":");
    r.append(u64_to_string(timestamp).as_str());
    r.append("}");
    r
}

} // verus!
