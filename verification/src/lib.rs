pub mod codec;
pub mod envelope;
pub mod hash;
pub mod ident;
pub mod message;
pub mod registry;
pub mod routing;
pub mod service;
pub mod supervisor;

use vstd::prelude::*;

verus! {

/// Greatest number of hop frames an envelope may carry.
pub const MAX_HOPS: usize = 8;

/// Milliseconds between heartbeat pings to a router.
pub const PING_INTERVAL: i64 = 2000;

/// Milliseconds after which a silent router is considered dead.
pub const SERVER_TTL: i64 = 6000;

/// Errors observable at the library boundary.
#[derive(Clone, Copy, Debug, PartialEq, Eq, Structural)]
pub enum Error {
    /// A socket operation failed in the messaging runtime.
    TransportFailure,
    /// A send or receive exceeded its timeout budget.
    Timeout,
    /// An envelope accumulated more than `MAX_HOPS` hop frames.
    MaxHops,
    /// A frame or body could not be decoded.
    ParseFailure,
    /// A host-environment lookup failed.
    Sys,
}

/// True of the bytes that separate tokens in hostname command output.
pub open spec fn is_space(b: u8) -> bool {
    b == 32 || b == 9
}

/// True of the bytes that end the first line of command output.
pub open spec fn is_line_end(b: u8) -> bool {
    b == 10 || b == 13
}

/// The first line of command output: everything before the first line end.
pub open spec fn first_line(s: Seq<u8>) -> Seq<u8>
    decreases s.len(),
{
    if s.len() == 0 {
        Seq::empty()
    } else if is_line_end(s[0]) {
        Seq::empty()
    } else {
        seq![s[0]] + first_line(s.drop_first())
    }
}

/// The maximal run of non-space bytes at the end of `s`.
pub open spec fn trailing_token(s: Seq<u8>) -> Seq<u8>
    decreases s.len(),
{
    if s.len() == 0 {
        Seq::<u8>::empty()
    } else if is_space(s.last()) {
        Seq::<u8>::empty()
    } else {
        trailing_token(s.drop_last()) + seq![s.last()]
    }
}

/// `s` without its trailing spaces.
pub open spec fn strip_trailing_spaces(s: Seq<u8>) -> Seq<u8>
    decreases s.len(),
{
    if s.len() == 0 {
        s
    } else if is_space(s.last()) {
        strip_trailing_spaces(s.drop_last())
    } else {
        s
    }
}

/// The last space-separated token of `s`; empty when `s` holds none.
pub open spec fn last_token(s: Seq<u8>) -> Seq<u8> {
    trailing_token(strip_trailing_spaces(s))
}

/// `first_line` takes exactly the bytes before the first line end.
proof fn lemma_first_line_take(s: Seq<u8>, k: int)
    requires
        0 <= k <= s.len(),
        forall|i: int| 0 <= i < k ==> !is_line_end(#[trigger] s[i]),
        k < s.len() ==> is_line_end(s[k]),
    ensures
        first_line(s) == s.take(k),
    decreases s.len(),
{
    if s.len() == 0 {
        assert(first_line(s) =~= s.take(k));
    } else if k == 0 {
        assert(first_line(s) =~= s.take(0));
    } else {
        lemma_first_line_take(s.drop_first(), k - 1);
        assert(seq![s[0]] + s.drop_first().take(k - 1) =~= s.take(k));
    }
}

/// Stripping trailing spaces takes exactly the bytes up to the last
/// non-space byte.
proof fn lemma_strip_take(s: Seq<u8>, e: int)
    requires
        0 <= e <= s.len(),
        forall|i: int| e <= i < s.len() ==> is_space(#[trigger] s[i]),
        e > 0 ==> !is_space(s[e - 1]),
    ensures
        strip_trailing_spaces(s) == s.take(e),
    decreases s.len(),
{
    if e == s.len() {
        assert(strip_trailing_spaces(s) =~= s.take(e));
    } else {
        assert(is_space(s.last()));
        lemma_strip_take(s.drop_last(), e);
    }
}

/// The trailing token is exactly the suffix back to the nearest space.
proof fn lemma_trailing_token_subrange(s: Seq<u8>, b: int)
    requires
        0 <= b <= s.len(),
        forall|i: int| b <= i < s.len() ==> !is_space(#[trigger] s[i]),
        b > 0 ==> is_space(s[b - 1]),
    ensures
        trailing_token(s) == s.subrange(b, s.len() as int),
    decreases s.len(),
{
    if b == s.len() {
        assert(trailing_token(s) =~= s.subrange(b, s.len() as int));
    } else {
        lemma_trailing_token_subrange(s.drop_last(), b);
        assert(trailing_token(s.drop_last()) + seq![s.last()]
            =~= s.subrange(b, s.len() as int));
    }
}

/// Extracts the machine's hostname from hostname command output: the last
/// space-separated token of the output's first line, a single token free of
/// whitespace. Output holding no such token is a host-environment failure.
pub fn hostname_token(output: &Vec<u8>) -> (r: Result<Vec<u8>, Error>)
    ensures
        match r {
            Ok(t) => t@ == last_token(first_line(output@)) && t@.len() > 0,
            Err(e) => e == Error::Sys && last_token(first_line(output@)).len() == 0,
        },
{
    let ghost s: Seq<u8> = output@;
    let n = output.len();
    let mut line_end: usize = 0;
    while line_end < n && output[line_end] != 10 && output[line_end] != 13
        invariant
            0 <= line_end <= n,
            n == s.len(),
            s == output@,
            forall|i: int| 0 <= i < line_end ==> !is_line_end(#[trigger] s[i]),
        decreases n - line_end,
    {
        line_end = line_end + 1;
    }
    proof {
        lemma_first_line_take(s, line_end as int);
    }
    let ghost line: Seq<u8> = s.take(line_end as int);
    let mut e: usize = line_end;
    while e > 0 && (output[e - 1] == 32 || output[e - 1] == 9)
        invariant
            0 <= e <= line_end <= n,
            n == s.len(),
            s == output@,
            line == s.take(line_end as int),
            forall|i: int| e <= i < line_end ==> is_space(#[trigger] line[i]),
        decreases e,
    {
        e = e - 1;
    }
    proof {
        lemma_strip_take(line, e as int);
    }
    let ghost stripped: Seq<u8> = line.take(e as int);
    let mut b: usize = e;
    while b > 0 && output[b - 1] != 32 && output[b - 1] != 9
        invariant
            0 <= b <= e <= line_end <= n,
            n == s.len(),
            s == output@,
            line == s.take(line_end as int),
            stripped == line.take(e as int),
            forall|i: int| b <= i < e ==> !is_space(#[trigger] stripped[i]),
        decreases b,
    {
        b = b - 1;
    }
    proof {
        lemma_trailing_token_subrange(stripped, b as int);
    }
    if b == e {
        proof {
            assert(last_token(first_line(s)).len() == 0);
        }
        return Err(Error::Sys);
    }
    let mut t: Vec<u8> = Vec::new();
    let mut j: usize = b;
    while j < e
        invariant
            b <= j <= e <= line_end <= n,
            n == s.len(),
            s == output@,
            t@ =~= s.subrange(b as int, j as int),
        decreases e - j,
    {
        t.push(output[j]);
        j = j + 1;
    }
    proof {
        assert(stripped.subrange(b as int, e as int) =~= s.subrange(b as int, e as int));
        assert(t@ == last_token(first_line(s)));
    }
    Ok(t)
}

} // verus!
