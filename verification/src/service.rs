//! Services: the worker abstraction and the registration handshake a service
//! drives against every configured router on startup.
//!
//! Registration connects the heartbeat socket to each router's heartbeat
//! address, then answers each router's probe with the service's
//! `Registration` claim, and counts acknowledgements: the handshake is
//! complete only when every configured router has acknowledged. Only then is
//! the request plane connected, to each router's main address in
//! configuration order.

use vstd::prelude::*;

use crate::envelope::Envelope;
use crate::ident::{router_addr_chars, tcp_addr_chars, NetIdent, RouterAddr};
use crate::message::{Frame, Protocol};

verus! {

/// A long-running application driven by the fabric.
pub trait Application {
    type Error;

    fn run(&mut self) -> Result<(), Self::Error>;
}

/// A worker type that receives envelopes from an in-process queue and
/// replies. Replies are framed through the envelope's `reply` and
/// `reply_complete` into an outbound frame buffer that the runtime sends.
pub trait Dispatcher: Sized {
    type Config;

    type Error;

    type State;

    /// The in-process endpoint the worker's queue socket connects to.
    fn message_queue() -> &'static str;

    /// Handles one envelope: reply through `message`, or deliberately drop.
    fn dispatch(
        message: &mut Envelope,
        out: &mut Vec<Frame>,
        state: &mut Self::State,
    ) -> Result<(), Self::Error>;

    /// One-shot warmup; an error here prevents readiness.
    fn init(&mut self) -> Result<(), Self::Error> {
        Ok(())
    }

    /// The dispatcher's mutable handler state.
    fn state(&mut self) -> &mut Self::State;
}

/// A service: an application with a stable wire identity and a service
/// class, registering with the router fleet on startup.
pub trait Service: NetIdent {
    type Application: Application;

    /// The service class this service answers for.
    fn protocol() -> Protocol;
}

/// What a service claims when registering with a router: its service class,
/// its wire identity, and the shards it answers for.
pub struct Registration {
    pub protocol: Protocol,
    pub endpoint: String,
    pub shards: Vec<u32>,
}

impl Registration {
    /// A registration claim with exactly the given class, identity and
    /// shard list.
    pub fn new(protocol: Protocol, endpoint: String, shards: Vec<u32>) -> (r: Registration)
        ensures
            r.protocol == protocol,
            r.endpoint == endpoint,
            r.shards == shards,
    {
        Registration { protocol, endpoint, shards }
    }
}

/// The heartbeat-plane address of every configured router, in configuration
/// order: each router's IP with the shared heartbeat port.
pub fn heartbeat_addrs(route_addrs: &Vec<RouterAddr>, heartbeat_port: u16) -> (r: Vec<String>)
    ensures
        r@.len() == route_addrs@.len(),
        forall|i: int| 0 <= i < r@.len() ==> #[trigger] r@[i]@ == tcp_addr_chars(
            route_addrs@[i].ip0,
            route_addrs@[i].ip1,
            route_addrs@[i].ip2,
            route_addrs@[i].ip3,
            heartbeat_port,
        ),
{
    let mut r: Vec<String> = Vec::new();
    let mut i: usize = 0;
    while i < route_addrs.len()
        invariant
            i <= route_addrs@.len(),
            r@.len() == i,
            forall|j: int| 0 <= j < i ==> #[trigger] r@[j]@ == tcp_addr_chars(
                route_addrs@[j].ip0,
                route_addrs@[j].ip1,
                route_addrs@[j].ip2,
                route_addrs@[j].ip3,
                heartbeat_port,
            ),
        decreases route_addrs@.len() - i,
    {
        r.push(route_addrs[i].addr_string_with_port(heartbeat_port));
        i = i + 1;
    }
    r
}

/// The request-plane address of every configured router, in configuration
/// order.
pub fn route_addr_strings(route_addrs: &Vec<RouterAddr>) -> (r: Vec<String>)
    ensures
        r@.len() == route_addrs@.len(),
        forall|i: int| 0 <= i < r@.len()
            ==> #[trigger] r@[i]@ == router_addr_chars(route_addrs@[i]),
{
    let mut r: Vec<String> = Vec::new();
    let mut i: usize = 0;
    while i < route_addrs.len()
        invariant
            i <= route_addrs@.len(),
            r@.len() == i,
            forall|j: int| 0 <= j < i ==> #[trigger] r@[j]@ == router_addr_chars(route_addrs@[j]),
        decreases route_addrs@.len() - i,
    {
        let a = route_addrs[i];
        r.push(a.addr_string_with_port(a.port));
        i = i + 1;
    }
    r
}

/// Progress of the registration handshake across the configured routers.
pub struct RegistrationHandshake {
    expected: usize,
    acked: usize,
}

impl RegistrationHandshake {
    /// How many routers must acknowledge.
    pub closed spec fn expected_spec(&self) -> int {
        self.expected as int
    }

    /// How many routers have acknowledged so far.
    pub closed spec fn acked_spec(&self) -> int {
        self.acked as int
    }

    /// Acknowledgements never outnumber the configured routers.
    pub open spec fn wf(&self) -> bool {
        0 <= self.acked_spec() <= self.expected_spec()
    }

    /// The handshake is complete when every configured router has
    /// acknowledged.
    pub open spec fn complete_spec(&self) -> bool {
        self.acked_spec() >= self.expected_spec()
    }

    /// A handshake awaiting `expected` acknowledgements, none received yet.
    pub fn new(expected: usize) -> (r: RegistrationHandshake)
        ensures
            r.expected_spec() == expected,
            r.acked_spec() == 0,
            r.wf(),
    {
        RegistrationHandshake { expected, acked: 0 }
    }

    /// Records one router's acknowledgement; returns whether the handshake
    /// is now complete. An acknowledgement past completion changes nothing.
    pub fn on_ack(&mut self) -> (done: bool)
        requires
            old(self).wf(),
        ensures
            final(self).wf(),
            final(self).expected_spec() == old(self).expected_spec(),
            old(self).acked_spec() < old(self).expected_spec()
                ==> final(self).acked_spec() == old(self).acked_spec() + 1,
            old(self).acked_spec() >= old(self).expected_spec()
                ==> final(self).acked_spec() == old(self).acked_spec(),
            done == final(self).complete_spec(),
    {
        if self.acked < self.expected {
            self.acked = self.acked + 1;
        }
        self.acked >= self.expected
    }

    /// Whether every configured router has acknowledged.
    pub fn complete(&self) -> (r: bool)
        ensures
            r == self.complete_spec(),
    {
        self.acked >= self.expected
    }
}

/// The acknowledgement count after `k` acknowledgements arrive at a fresh
/// handshake expecting `n`.
pub open spec fn acks_applied(n: int, k: nat) -> int
    decreases k,
{
    if k == 0 {
        0
    } else {
        let p = acks_applied(n, (k - 1) as nat);
        if p < n {
            p + 1
        } else {
            p
        }
    }
}

/// Registration completes only once every configured router has
/// acknowledged: after `k` acknowledgements the handshake counts
/// `min(k, n)`, and it is complete exactly when `k >= n`.
pub proof fn lemma_handshake_needs_every_ack(n: int, k: nat)
    requires
        n >= 0,
    ensures
        acks_applied(n, k) == if k <= n {
            k as int
        } else {
            n
        },
        (acks_applied(n, k) >= n) == (k >= n),
    decreases k,
{
    if k > 0 {
        lemma_handshake_needs_every_ack(n, (k - 1) as nat);
    }
}

} // verus!
