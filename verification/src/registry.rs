//! Liveness bookkeeping for one known router endpoint.
//!
//! A `ServerReg` tracks when the next heartbeat ping is owed (`ping_at`,
//! advanced by `PING_INTERVAL` on every send) and when the router is to be
//! considered dead (`expires`, pushed out by `SERVER_TTL` whenever the router
//! is heard from). The 3:1 ratio of TTL to ping interval tolerates two missed
//! pings before eviction, and `ping_at < expires` holds at all times.

use vstd::prelude::*;

use crate::{PING_INTERVAL, SERVER_TTL};

verus! {

/// `sec` whole seconds plus `ms` milliseconds, as one millisecond count,
/// saturating at the representable range instead of wrapping.
pub open spec fn clock_millis(sec: i64, ms: u16) -> i64 {
    if sec as int * 1000 > i64::MAX {
        i64::MAX
    } else if sec as int * 1000 < i64::MIN {
        i64::MIN
    } else if sec as int * 1000 + ms > i64::MAX {
        i64::MAX
    } else {
        (sec as int * 1000 + ms as int) as i64
    }
}

/// Reads the wall clock. Relies on `time::OffsetDateTime::now_utc` together
/// with its accessors `unix_timestamp` (whole seconds since the Unix epoch)
/// and `millisecond`, whose result `time` documents to lie in `0..1_000`.
#[verifier::external_body]
fn now_parts() -> (r: (i64, u16))
    ensures
        r.1 < 1000,
{
    let t = time::OffsetDateTime::now_utc();
    (t.unix_timestamp(), t.millisecond())
}

/// Combines a second count and a millisecond remainder into milliseconds.
pub fn millis_of(sec: i64, ms: u16) -> (r: i64)
    requires
        ms < 1000,
    ensures
        r == clock_millis(sec, ms),
{
    match sec.checked_mul(1000) {
        Some(v) => match v.checked_add(ms as i64) {
            Some(w) => w,
            None => i64::MAX,
        },
        None => {
            if sec > 0 {
                i64::MAX
            } else {
                i64::MIN
            }
        },
    }
}

/// Bookkeeping for one known router endpoint.
#[derive(Eq, Hash)]
pub struct ServerReg {
    /// Router identifier; two entries are the same router iff these match.
    pub endpoint: String,
    /// True once the router has been heard from.
    pub alive: bool,
    /// Moment (milliseconds) at which the next ping must be sent.
    pub ping_at: i64,
    /// Moment (milliseconds) after which the router counts as dead.
    pub expires: i64,
}

impl ServerReg {
    /// The next ping is always owed strictly before the entry can expire.
    pub open spec fn wf(&self) -> bool {
        self.ping_at < self.expires
    }

    /// An entry for a router first recorded at `now_ms`: not yet alive, first
    /// ping owed one interval from now, expiry one TTL from now.
    pub fn new_at(endpoint: String, now_ms: i64) -> (r: ServerReg)
        requires
            now_ms <= i64::MAX - SERVER_TTL,
        ensures
            r.endpoint == endpoint,
            !r.alive,
            r.ping_at == now_ms + PING_INTERVAL,
            r.expires == now_ms + SERVER_TTL,
            r.wf(),
    {
        ServerReg {
            endpoint,
            alive: false,
            ping_at: now_ms + PING_INTERVAL,
            expires: now_ms + SERVER_TTL,
        }
    }

    /// An entry for a router first recorded now, by the wall clock.
    pub fn new(endpoint: String) -> (r: ServerReg)
        ensures
            r.endpoint == endpoint,
            !r.alive,
            r.expires - r.ping_at == SERVER_TTL - PING_INTERVAL,
            r.wf(),
    {
        let now_ms = Self::clock_time();
        let base = if now_ms > i64::MAX - SERVER_TTL {
            i64::MAX - SERVER_TTL
        } else {
            now_ms
        };
        Self::new_at(endpoint, base)
    }

    /// Milliseconds on the wall clock since the Unix epoch.
    pub fn clock_time() -> i64 {
        let (sec, ms) = now_parts();
        millis_of(sec, ms)
    }

    /// Decides whether a heartbeat ping is owed at `now_ms`, and if so
    /// schedules the next one a full interval later. Returns true exactly
    /// when the caller must send a ping now.
    pub fn ping(&mut self, now_ms: i64) -> (send: bool)
        requires
            now_ms <= i64::MAX - PING_INTERVAL,
        ensures
            send == (now_ms >= old(self).ping_at),
            final(self).endpoint == old(self).endpoint,
            final(self).alive == old(self).alive,
            final(self).expires == old(self).expires,
            send ==> final(self).ping_at == now_ms + PING_INTERVAL,
            !send ==> final(self).ping_at == old(self).ping_at,
    {
        if now_ms >= self.ping_at {
            self.ping_at = now_ms + PING_INTERVAL;
            true
        } else {
            false
        }
    }

    /// Records traffic heard from the router at `now_ms`: the entry is alive
    /// and its expiry moves one full TTL out.
    pub fn refresh(&mut self, now_ms: i64)
        requires
            now_ms <= i64::MAX - SERVER_TTL,
        ensures
            final(self).endpoint == old(self).endpoint,
            final(self).ping_at == old(self).ping_at,
            final(self).alive,
            final(self).expires == now_ms + SERVER_TTL,
    {
        self.alive = true;
        self.expires = now_ms + SERVER_TTL;
    }

    /// True when the router has been silent past its expiry deadline and
    /// routing must avoid it.
    pub fn expired(&self, now_ms: i64) -> (r: bool)
        ensures
            r == (now_ms >= self.expires),
    {
        now_ms >= self.expires
    }
}

impl PartialEq for ServerReg {
    /// Identity is the endpoint alone: liveness bookkeeping does not
    /// distinguish two entries for the same router.
    fn eq(&self, other: &ServerReg) -> (r: bool) {
        self.endpoint == other.endpoint
    }
}

impl vstd::std_specs::cmp::PartialEqSpecImpl for ServerReg {
    open spec fn obeys_eq_spec() -> bool {
        true
    }

    open spec fn eq_spec(&self, other: &ServerReg) -> bool {
        self.endpoint@ == other.endpoint@
    }
}

/// The deadline for the ping after the next one, when pings are sent the
/// moment they fall due.
pub open spec fn next_ping_at(ping_at: int) -> int {
    ping_at + PING_INTERVAL
}

/// The ping deadline after `n` pings, each sent the moment it falls due.
pub open spec fn ping_at_after(p0: int, n: nat) -> int
    decreases n,
{
    if n == 0 {
        p0
    } else {
        next_ping_at(ping_at_after(p0, (n - 1) as nat))
    }
}

/// Driving `ping` at every deadline advances `ping_at` monotonically, by
/// exactly one `PING_INTERVAL` per ping: after `n` due pings the deadline
/// stands `n` whole intervals past where it began.
pub proof fn lemma_ping_at_monotone(p0: int, n: nat)
    ensures
        ping_at_after(p0, n) == p0 + n * PING_INTERVAL,
        n > 0 ==> ping_at_after(p0, n) > p0,
    decreases n,
{
    if n > 0 {
        lemma_ping_at_monotone(p0, (n - 1) as nat);
        assert(n * PING_INTERVAL == (n - 1) * PING_INTERVAL + PING_INTERVAL)
            by (nonlinear_arith);
    }
}

/// While inbound traffic keeps refreshing an entry, the ping deadline stays
/// strictly below the expiry deadline: a ping is never scheduled more than
/// one interval past the traffic that last refreshed the entry, and the TTL
/// is three intervals.
pub proof fn lemma_refresh_keeps_wf(ping_at: int, now: int)
    requires
        ping_at <= now + PING_INTERVAL,
    ensures
        ping_at < now + SERVER_TTL,
{
}

} // verus!
