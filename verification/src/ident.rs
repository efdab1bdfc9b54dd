//! Network identities and router addresses as the fabric renders them.
//!
//! A service's stable wire identity is `"{component}#{pid}@{hostname}"`, or
//! `"{pid}@{hostname}"` when no component name is configured; its heartbeat
//! socket carries the same identity behind an `"hb#"` prefix. Routers are
//! addressed as `"tcp://{ip}:{port}"`. Every renderer here is proved to
//! produce exactly the character sequence its spec function describes.

use vstd::prelude::*;
use vstd::string::*;

verus! {

/// The decimal digit character for `d`.
pub open spec fn dec_digit(d: int) -> char {
    if d == 0 {
        '0'
    } else if d == 1 {
        '1'
    } else if d == 2 {
        '2'
    } else if d == 3 {
        '3'
    } else if d == 4 {
        '4'
    } else if d == 5 {
        '5'
    } else if d == 6 {
        '6'
    } else if d == 7 {
        '7'
    } else if d == 8 {
        '8'
    } else {
        '9'
    }
}

/// The decimal rendering of `n`, most significant digit first, with no sign
/// and no leading zeros (save for `n == 0` itself).
pub open spec fn dec_str(n: nat) -> Seq<char>
    decreases n,
{
    if n < 10 {
        seq![dec_digit(n as int)]
    } else {
        dec_str(n / 10) + seq![dec_digit((n % 10) as int)]
    }
}

/// Appends the digit character for `d` to `s`.
fn push_digit(s: &mut String, d: u8)
    requires
        d < 10,
    ensures
        final(s)@ == old(s)@ + seq![dec_digit(d as int)],
{
    let lit: &str = match d {
        0 => "0",
        1 => "1",
        2 => "2",
        3 => "3",
        4 => "4",
        5 => "5",
        6 => "6",
        7 => "7",
        8 => "8",
        _ => "9",
    };
    proof {
        reveal_strlit("0");
        reveal_strlit("1");
        reveal_strlit("2");
        reveal_strlit("3");
        reveal_strlit("4");
        reveal_strlit("5");
        reveal_strlit("6");
        reveal_strlit("7");
        reveal_strlit("8");
        reveal_strlit("9");
        assert(lit@ =~= seq![dec_digit(d as int)]);
    }
    s.append(lit);
}

/// Appends the decimal rendering of `n` to `s`.
pub fn push_dec(s: &mut String, n: u64)
    ensures
        final(s)@ == old(s)@ + dec_str(n as nat),
    decreases n,
{
    if n >= 10 {
        push_dec(s, n / 10);
        push_digit(s, (n % 10) as u8);
        proof {
            assert(s@ =~= old(s)@ + dec_str(n as nat));
        }
    } else {
        push_digit(s, n as u8);
    }
}

/// The decimal rendering of `n` as a fresh string.
pub fn dec_string(n: u64) -> (r: String)
    ensures
        r@ == dec_str(n as nat),
{
    let mut s = String::new();
    push_dec(&mut s, n);
    proof {
        assert(s@ =~= dec_str(n as nat));
    }
    s
}

/// A router's socket address: the four octets of its IPv4 address and a
/// port.
#[derive(Clone, Copy, Debug, PartialEq, Eq, Structural)]
pub struct RouterAddr {
    pub ip0: u8,
    pub ip1: u8,
    pub ip2: u8,
    pub ip3: u8,
    pub port: u16,
}

/// The rendering of `"tcp://{a}.{b}.{c}.{d}:{port}"`.
pub open spec fn tcp_addr_chars(a: u8, b: u8, c: u8, d: u8, port: u16) -> Seq<char> {
    "tcp://"@ + dec_str(a as nat) + "."@ + dec_str(b as nat) + "."@ + dec_str(c as nat) + "."@
        + dec_str(d as nat) + ":"@ + dec_str(port as nat)
}

/// The rendered address of a router: its IP and port behind a `tcp://`
/// scheme.
pub open spec fn router_addr_chars(addr: RouterAddr) -> Seq<char> {
    tcp_addr_chars(addr.ip0, addr.ip1, addr.ip2, addr.ip3, addr.port)
}

/// A value with a rendering as a connectable socket address string.
pub trait ToAddrString {
    /// The exact characters `to_addr_string` renders.
    spec fn addr_chars(&self) -> Seq<char>;

    fn to_addr_string(&self) -> (r: String)
        ensures
            r@ == self.addr_chars(),
    ;
}

impl RouterAddr {
    /// Renders `"tcp://{ip}:{port}"` with `port` in place of the router's
    /// own port — the heartbeat plane uses one shared port across routers.
    pub fn addr_string_with_port(&self, port: u16) -> (r: String)
        ensures
            r@ == tcp_addr_chars(self.ip0, self.ip1, self.ip2, self.ip3, port),
    {
        let mut s = String::from_str("tcp://");
        push_dec(&mut s, self.ip0 as u64);
        s.append(".");
        push_dec(&mut s, self.ip1 as u64);
        s.append(".");
        push_dec(&mut s, self.ip2 as u64);
        s.append(".");
        push_dec(&mut s, self.ip3 as u64);
        s.append(":");
        push_dec(&mut s, port as u64);
        proof {
            assert(s@ =~= tcp_addr_chars(self.ip0, self.ip1, self.ip2, self.ip3, port));
        }
        s
    }
}

impl ToAddrString for RouterAddr {
    open spec fn addr_chars(&self) -> Seq<char> {
        router_addr_chars(*self)
    }

    /// Renders `"tcp://{ip}:{port}"` for this router's request plane.
    fn to_addr_string(&self) -> (r: String) {
        self.addr_string_with_port(self.port)
    }
}

/// The rendering of a service's stable network identity:
/// `"{component}#{pid}@{hostname}"`, or `"{pid}@{hostname}"` without a
/// configured component name.
pub open spec fn net_ident_chars(
    component: Option<Seq<char>>,
    pid: u32,
    hostname: Seq<char>,
) -> Seq<char> {
    match component {
        Some(c) => c + "#"@ + dec_str(pid as nat) + "@"@ + hostname,
        None => dec_str(pid as nat) + "@"@ + hostname,
    }
}

/// Renders the stable network identity for a service process.
pub fn format_net_ident(component: Option<&str>, pid: u32, hostname: &str) -> (r: String)
    ensures
        r@ == net_ident_chars(component.deep_view(), pid, hostname@),
{
    let mut s = String::new();
    match component {
        Some(c) => {
            s.append(c);
            s.append("#");
        },
        None => {},
    }
    push_dec(&mut s, pid as u64);
    s.append("@");
    s.append(hostname);
    proof {
        assert(s@ =~= net_ident_chars(component.deep_view(), pid, hostname@));
    }
    s
}

/// The rendering of a heartbeat socket's identity: the service's identity
/// behind an `"hb#"` prefix.
pub open spec fn heartbeat_ident_chars(ident: Seq<char>) -> Seq<char> {
    "hb#"@ + ident
}

/// Renders the heartbeat identity for a service identity.
pub fn heartbeat_ident(ident: &str) -> (r: String)
    ensures
        r@ == heartbeat_ident_chars(ident@),
{
    let mut s = String::from_str("hb#");
    s.append(ident);
    s
}

/// A type that knows its process's component name; the identity above is
/// derived from it together with the process id and hostname.
pub trait NetIdent {
    /// The configured component name, if any.
    fn component() -> (r: Option<&'static str>) {
        None
    }
}

} // verus!
