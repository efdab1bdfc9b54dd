//! The decoded message header carried by an envelope, and the frames that
//! cross the wire.
//!
//! The header's byte-level serialization is supplied by an outside
//! serialization layer; this module models only what the routing fabric reads
//! from it: the message identifier, the opaque application body, and the
//! routing section with its optional shard hash.

use vstd::prelude::*;

verus! {

/// Service class addressed by a message.
#[derive(Clone, Copy, Debug, PartialEq, Eq, Structural)]
pub enum Protocol {
    Net,
    RouteSrv,
    SessionSrv,
    VaultSrv,
    JobSrv,
}

/// Routing section of a message header. A hash of `None` means "any shard".
#[derive(Clone, Copy, Debug)]
pub struct RouteInfo {
    pub protocol: Protocol,
    pub route_hash: Option<u64>,
}

/// Decoded message header: identifier, application payload, routing section.
#[derive(Clone, Debug)]
pub struct Msg {
    pub message_id: String,
    pub body: Vec<u8>,
    pub route_info: RouteInfo,
}

/// Mathematical model of a `Msg`.
#[verifier::ext_equal]
pub ghost struct MsgView {
    pub message_id: Seq<char>,
    pub body: Seq<u8>,
    pub route_info: RouteInfo,
}

impl View for Msg {
    type V = MsgView;

    open spec fn view(&self) -> MsgView {
        MsgView {
            message_id: self.message_id@,
            body: self.body@,
            route_info: self.route_info,
        }
    }
}

/// The model of an empty header, as `Msg::new` builds it.
pub open spec fn empty_msg() -> MsgView {
    MsgView {
        message_id: Seq::<char>::empty(),
        body: Seq::<u8>::empty(),
        route_info: RouteInfo { protocol: Protocol::Net, route_hash: None },
    }
}

impl Msg {
    /// An empty header: no identifier, no body, no shard hash.
    pub fn new() -> (r: Msg)
        ensures
            r@ == empty_msg(),
    {
        Msg {
            message_id: String::new(),
            body: Vec::new(),
            route_info: RouteInfo { protocol: Protocol::Net, route_hash: None },
        }
    }
}

/// One wire frame: its payload bytes and whether more frames follow in the
/// same message.
#[derive(Debug)]
pub struct Frame {
    pub data: Vec<u8>,
    pub more: bool,
}

/// Mathematical model of a `Frame`.
#[verifier::ext_equal]
pub ghost struct FrameView {
    pub data: Seq<u8>,
    pub more: bool,
}

impl View for Frame {
    type V = FrameView;

    open spec fn view(&self) -> FrameView {
        FrameView { data: self.data@, more: self.more }
    }
}

impl DeepView for Frame {
    type V = FrameView;

    open spec fn deep_view(&self) -> FrameView {
        self@
    }
}

/// The two-byte tag that marks a request frame sequence.
pub open spec fn rq_tag() -> Seq<u8> {
    seq![82u8, 81u8]
}

/// The two-byte tag that marks a reply frame sequence.
pub open spec fn rp_tag() -> Seq<u8> {
    seq![82u8, 80u8]
}

/// The literal request tag, `"RQ"` in ASCII.
pub fn rq_tag_bytes() -> (r: Vec<u8>)
    ensures
        r@ == rq_tag(),
{
    let mut v: Vec<u8> = Vec::new();
    v.push(82);
    v.push(81);
    proof {
        assert(v@ =~= rq_tag());
    }
    v
}

/// The literal reply tag, `"RP"` in ASCII.
pub fn rp_tag_bytes() -> (r: Vec<u8>)
    ensures
        r@ == rp_tag(),
{
    let mut v: Vec<u8> = Vec::new();
    v.push(82);
    v.push(80);
    proof {
        assert(v@ =~= rp_tag());
    }
    v
}

} // verus!
