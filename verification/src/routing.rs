//! Client-side routing: the shard hash of a message's routing key, and the
//! frames a request occupies on the way to the broker.
//!
//! A connection sends each request as two frames: the request tag flagged as
//! having more to follow, then the serialized header, which embeds the shard
//! hash when the message carries a routing key. The broker proxies the
//! frames to a router, which uses the hash to pick the shard.

use vstd::prelude::*;

use crate::hash::{fnv1a, fnv1a_hash};
use crate::message::{rq_tag, rq_tag_bytes, Frame, FrameView, Msg, Protocol, RouteInfo};

verus! {

/// Milliseconds before a client-facing receive times out.
pub const RECV_TIMEOUT_MS: i32 = 5000;

/// Milliseconds before a client-facing send times out.
pub const SEND_TIMEOUT_MS: i32 = 5000;

/// The fixed in-process endpoint where the broker accepts local clients.
pub fn route_inproc_addr() -> (r: &'static str)
    ensures
        r@ == "inproc://route-broker"@,
{
    "inproc://route-broker"
}

/// The shard hash for a routing key: the FNV-1a hash of the key bytes, or
/// `None` for a message that may go to any shard. Every connection computes
/// the same hash for the same key, whatever it hashed before.
pub fn route_hash_for(key: &Option<Vec<u8>>) -> (r: Option<u64>)
    ensures
        r == match key {
            Some(k) => Some(fnv1a(k@)),
            None => None::<u64>,
        },
{
    match key {
        Some(k) => Some(fnv1a_hash(k)),
        None => None,
    }
}

/// Builds the header for one routable message: the application payload with
/// the shard hash of its routing key installed in the routing section, so a
/// router can pick the shard without touching the payload.
pub fn routed_header(
    message_id: String,
    body: Vec<u8>,
    protocol: Protocol,
    route_key: &Option<Vec<u8>>,
) -> (m: Msg)
    ensures
        m@.message_id == message_id@,
        m@.body == body@,
        m@.route_info.protocol == protocol,
        m@.route_info.route_hash == match route_key {
            Some(k) => Some(fnv1a(k@)),
            None => None::<u64>,
        },
{
    let route_hash = route_hash_for(route_key);
    Msg { message_id, body, route_info: RouteInfo { protocol, route_hash } }
}

/// The two frames of one outbound request: the request tag with more to
/// follow, then the serialized header as the final frame.
pub open spec fn request_frames_spec(header: Seq<u8>) -> Seq<FrameView> {
    seq![FrameView { data: rq_tag(), more: true }, FrameView { data: header, more: false }]
}

/// Lays one request out as its wire frames.
pub fn request_frames(header: Vec<u8>) -> (r: Vec<Frame>)
    ensures
        r.deep_view() == request_frames_spec(header@),
{
    let ghost h: Seq<u8> = header@;
    let mut r: Vec<Frame> = Vec::new();
    r.push(Frame { data: rq_tag_bytes(), more: true });
    r.push(Frame { data: header, more: false });
    proof {
        assert(r.deep_view() =~~= request_frames_spec(h));
    }
    r
}

} // verus!
