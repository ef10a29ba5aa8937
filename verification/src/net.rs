//! Socket addresses as plain values, and their canonical text.
//!
//! A [`BindAddr`] holds what a socket address is made of: an IPv4 address
//! as its 32-bit value, or an IPv6 address as its 128-bit value with flow
//! info and scope id, and a port. Its text is the standard rendering:
//! `a.b.c.d:port`, or `[v6]:port` / `[v6%scope]:port` with the IPv6 part
//! in compressed lowercase hex (the first longest run of two or more zero
//! groups written `::`, an IPv4-mapped address written `::ffff:a.b.c.d`).

use vstd::prelude::*;
use crate::text::{dec_nat, push_dec_u64};

verus! {

/// A socket address.
#[derive(Debug, Clone, Copy, PartialEq, Eq, Structural)]
pub enum BindAddr {
    V4 { ip: u32, port: u16 },
    V6 { ip: u128, port: u16, flowinfo: u32, scope_id: u32 },
}

/// The `k`-th octet of an IPv4 address, most significant first.
pub open spec fn v4_octet(ip: u32, k: int) -> nat {
    ((ip as nat) / pow256(3 - k)) % 256
}

/// `256^e` for the exponents an IPv4 address needs.
pub open spec fn pow256(e: int) -> nat {
    if e <= 0 {
        1
    } else if e == 1 {
        256
    } else if e == 2 {
        65536
    } else {
        16777216
    }
}

/// Dotted-decimal text of an IPv4 address.
pub open spec fn v4_text(ip: u32) -> Seq<char> {
    dec_nat(v4_octet(ip, 0)) + "."@ + dec_nat(v4_octet(ip, 1)) + "."@ + dec_nat(v4_octet(ip, 2))
        + "."@ + dec_nat(v4_octet(ip, 3))
}

/// The eight 16-bit groups of an IPv6 address, most significant first.
pub open spec fn v6_groups(ip: u128) -> Seq<nat> {
    Seq::new(8, |k: int| ((ip as nat) / pow65536(7 - k)) % 65536)
}

/// `65536^e`.
pub open spec fn pow65536(e: int) -> nat
    decreases e,
{
    if e <= 0 {
        1
    } else {
        65536 * pow65536(e - 1)
    }
}

/// Lowercase hex text of a natural number, without leading zeros.
pub open spec fn hex_nat(n: nat) -> Seq<char>
    decreases n,
{
    if n < 16 {
        seq![hex_digit(n)]
    } else {
        hex_nat(n / 16).push(hex_digit(n % 16))
    }
}

/// The lowercase hex character for a nibble.
pub open spec fn hex_digit(d: nat) -> char {
    if d < 10 {
        (48 + d) as char
    } else {
        (87 + d) as char
    }
}

/// Groups joined by `:`, each in hex.
pub open spec fn join_groups(g: Seq<nat>) -> Seq<char>
    decreases g.len(),
{
    if g.len() == 0 {
        Seq::empty()
    } else if g.len() == 1 {
        hex_nat(g[0])
    } else {
        join_groups(g.drop_last()) + ":"@ + hex_nat(g.last())
    }
}

/// The first longest run of zero groups, as `(start, len)`: a scan that
/// tracks the current run and replaces the best one only when strictly
/// longer.
pub open spec fn zero_run_scan(g: Seq<nat>, i: int, cur_start: int, cur_len: int, best: (int, int)) -> (
    int,
    int,
)
    decreases g.len() - i,
{
    if i >= g.len() {
        best
    } else if g[i] == 0 {
        let s = if cur_len == 0 {
            i
        } else {
            cur_start
        };
        let l = cur_len + 1;
        zero_run_scan(g, i + 1, s, l, if l > best.1 {
            (s, l)
        } else {
            best
        })
    } else {
        zero_run_scan(g, i + 1, 0, 0, best)
    }
}

/// The first longest run of zero groups of an address.
pub open spec fn longest_zero_run(g: Seq<nat>) -> (int, int) {
    zero_run_scan(g, 0, 0, 0, (0, 0))
}

/// An IPv4-mapped IPv6 address: `::ffff:a.b.c.d`.
pub open spec fn is_v4_mapped(ip: u128) -> bool {
    (ip as nat) / 4294967296 == 65535
}

/// Compressed text of an IPv6 address.
pub open spec fn v6_text(ip: u128) -> Seq<char> {
    if is_v4_mapped(ip) {
        "::ffff:"@ + v4_text(((ip as nat) % 4294967296) as u32)
    } else {
        let g = v6_groups(ip);
        let run = longest_zero_run(g);
        if run.1 > 1 {
            join_groups(g.subrange(0, run.0)) + "::"@ + join_groups(
                g.subrange(run.0 + run.1, 8),
            )
        } else {
            join_groups(g)
        }
    }
}

/// The text of a socket address.
pub open spec fn addr_text(a: BindAddr) -> Seq<char> {
    match a {
        BindAddr::V4 { ip, port } => v4_text(ip) + ":"@ + dec_nat(port as nat),
        BindAddr::V6 { ip, port, scope_id, .. } => "["@ + v6_text(ip) + (if scope_id == 0 {
            Seq::empty()
        } else {
            "%"@ + dec_nat(scope_id as nat)
        }) + "]:"@ + dec_nat(port as nat),
    }
}

/// One lowercase hex character.
fn hex_digit_str(d: u64) -> (s: &'static str)
    requires
        d < 16,
    ensures
        s@ == seq![hex_digit(d as nat)],
{
    proof {
        reveal_strlit("0");
        reveal_strlit("1");
        reveal_strlit("2");
        reveal_strlit("3");
        reveal_strlit("4");
        reveal_strlit("5");
        reveal_strlit("6");
        reveal_strlit("7");
        reveal_strlit("8");
        reveal_strlit("9");
        reveal_strlit("a");
        reveal_strlit("b");
        reveal_strlit("c");
        reveal_strlit("d");
        reveal_strlit("e");
        reveal_strlit("f");
    }
    match d {
        0 => "0",
        1 => "1",
        2 => "2",
        3 => "3",
        4 => "4",
        5 => "5",
        6 => "6",
        7 => "7",
        8 => "8",
        9 => "9",
        10 => "a",
        11 => "b",
        12 => "c",
        13 => "d",
        14 => "e",
        _ => "f",
    }
}

/// Append the hex text of `n`.
fn push_hex(out: &mut String, n: u64)
    ensures
        final(out)@ == old(out)@ + hex_nat(n as nat),
    decreases n,
{
    if n >= 16 {
        push_hex(out, n / 16);
        out.append(hex_digit_str(n % 16));
        assert(hex_nat(n as nat) == hex_nat((n / 16) as nat).push(hex_digit((n % 16) as nat)));
    } else {
        out.append(hex_digit_str(n));
    }
}

/// Append the dotted-decimal text of an IPv4 address.
fn push_v4(out: &mut String, ip: u32)
    ensures
        final(out)@ == old(out)@ + v4_text(ip),
{
    proof {
        reveal_strlit(".");
    }
    let ghost start = out@;
    push_dec_u64(out, (ip / 16777216) as u64);
    out.append(".");
    push_dec_u64(out, ((ip / 65536) % 256) as u64);
    out.append(".");
    push_dec_u64(out, ((ip / 256) % 256) as u64);
    out.append(".");
    push_dec_u64(out, (ip % 256) as u64);
    assert(v4_octet(ip, 0) == (ip / 16777216) as nat);
    assert(out@ =~= start + v4_text(ip));
}

/// The groups of an IPv6 address, computed.
fn groups_of(ip: u128) -> (g: Vec<u64>)
    ensures
        g@.len() == 8,
        forall|k: int| 0 <= k < 8 ==> g@[k] as nat == #[trigger] v6_groups(ip)[k],
{
    let mut g: Vec<u64> = Vec::new();
    let mut k: usize = 0;
    let mut div: u128 = 5192296858534827628530496329220096;
    assert(pow65536(7) == 5192296858534827628530496329220096) by {
        reveal_with_fuel(pow65536, 8);
    }
    while k < 8
        invariant
            k <= 8,
            g@.len() == k,
            div as nat == pow65536(7 - k),
            forall|j: int| 0 <= j < k ==> g@[j] as nat == #[trigger] v6_groups(ip)[j],
        decreases 8 - k,
    {
        proof {
            reveal_with_fuel(pow65536, 8);
        }
        g.push(((ip / div) % 65536) as u64);
        if k < 7 {
            div = div / 65536;
        }
        k = k + 1;
    }
    g
}

/// Append groups `[lo, hi)` joined by `:`.
fn push_groups(out: &mut String, g: &Vec<u64>, lo: usize, hi: usize)
    requires
        lo <= hi <= g@.len(),
    ensures
        final(out)@ == old(out)@ + join_groups(g@.subrange(lo as int, hi as int).map_values(
            |x: u64| x as nat,
        )),
{
    proof {
        reveal_strlit(":");
    }
    let ghost start = out@;
    let mut i: usize = lo;
    while i < hi
        invariant
            lo <= i <= hi <= g@.len(),
            out@ == start + join_groups(g@.subrange(lo as int, i as int).map_values(
                |x: u64| x as nat,
            )),
        decreases hi - i,
    {
        let ghost prev = g@.subrange(lo as int, i as int).map_values(|x: u64| x as nat);
        let ghost next = g@.subrange(lo as int, (i + 1) as int).map_values(|x: u64| x as nat);
        assert(next.drop_last() =~= prev);
        if i > lo {
            out.append(":");
        }
        push_hex(out, g[i]);
        assert(out@ =~= start + join_groups(next));
        i = i + 1;
    }
}

impl BindAddr {
    /// An IPv4 socket address from its octets.
    pub fn v4(a: u8, b: u8, c: u8, d: u8, port: u16) -> (r: BindAddr)
        ensures
            r == (BindAddr::V4 {
                ip: ((a as int) * 16777216 + (b as int) * 65536 + (c as int) * 256 + (d as int)) as u32,
                port,
            }),
    {
        BindAddr::V4 {
            ip: (a as u32) * 16777216 + (b as u32) * 65536 + (c as u32) * 256 + (d as u32),
            port,
        }
    }

    /// The port.
    pub fn port(&self) -> (p: u16)
        ensures
            p == match *self {
                BindAddr::V4 { port, .. } => port,
                BindAddr::V6 { port, .. } => port,
            },
    {
        match self {
            BindAddr::V4 { port, .. } => *port,
            BindAddr::V6 { port, .. } => *port,
        }
    }

    /// The standard text of the address.
    pub fn to_text(&self) -> (s: String)
        ensures
            s@ == addr_text(*self),
    {
        let mut out = String::new();
        proof {
            reveal_strlit(":");
            reveal_strlit("[");
            reveal_strlit("]:");
            reveal_strlit("%");
            reveal_strlit("::");
            reveal_strlit("::ffff:");
        }
        match self {
            BindAddr::V4 { ip, port } => {
                push_v4(&mut out, *ip);
                out.append(":");
                push_dec_u64(&mut out, *port as u64);
            },
            BindAddr::V6 { ip, port, scope_id, .. } => {
                out.append("[");
                push_v6(&mut out, *ip);
                if *scope_id != 0 {
                    out.append("%");
                    push_dec_u64(&mut out, *scope_id as u64);
                }
                out.append("]:");
                push_dec_u64(&mut out, *port as u64);
            },
        }
        assert(out@ =~= addr_text(*self));
        out
    }
}

/// Find the first longest run of zero groups.
fn find_zero_run(g: &Vec<u64>, Ghost(gs): Ghost<Seq<nat>>) -> (r: (usize, usize))
    requires
        g@.len() == 8,
        gs == g@.map_values(|x: u64| x as nat),
    ensures
        r.0 as int == longest_zero_run(gs).0,
        r.1 as int == longest_zero_run(gs).1,
        r.1 > 1 ==> r.0 + r.1 <= 8,
{
    let mut cur_start: usize = 0;
    let mut cur_len: usize = 0;
    let mut best_start: usize = 0;
    let mut best_len: usize = 0;
    let mut i: usize = 0;
    while i < 8
        invariant
            i <= 8,
            g@.len() == 8,
            gs == g@.map_values(|x: u64| x as nat),
            cur_len <= i,
            cur_len > 0 ==> cur_start + cur_len == i,
            best_len <= i,
            best_len > 0 ==> best_start + best_len <= i,
            zero_run_scan(gs, i as int, cur_start as int, cur_len as int, (
                best_start as int,
                best_len as int,
            )) == longest_zero_run(gs),
        decreases 8 - i,
    {
        if g[i] == 0 {
            if cur_len == 0 {
                cur_start = i;
            }
            cur_len = cur_len + 1;
            if cur_len > best_len {
                best_start = cur_start;
                best_len = cur_len;
            }
        } else {
            cur_start = 0;
            cur_len = 0;
        }
        i = i + 1;
    }
    (best_start, best_len)
}

/// Append the compressed text of an IPv6 address.
fn push_v6(out: &mut String, ip: u128)
    ensures
        final(out)@ == old(out)@ + v6_text(ip),
{
    proof {
        reveal_strlit("::ffff:");
        reveal_strlit("::");
    }
    if ip / 4294967296 == 65535 {
        out.append("::ffff:");
        push_v4(out, (ip % 4294967296) as u32);
        return;
    }
    let g = groups_of(ip);
    let ghost gs = g@.map_values(|x: u64| x as nat);
    assert(gs =~= v6_groups(ip));
    let (start, len) = find_zero_run(&g, Ghost(gs));
    if len > 1 {
        push_groups(out, &g, 0, start);
        out.append("::");
        push_groups(out, &g, start + len, 8);
        assert(g@.subrange(0, start as int).map_values(|x: u64| x as nat) =~= gs.subrange(
            0,
            start as int,
        ));
        assert(g@.subrange((start + len) as int, 8).map_values(|x: u64| x as nat) =~= gs.subrange(
            (start + len) as int,
            8,
        ));
    } else {
        push_groups(out, &g, 0, 8);
        assert(g@.subrange(0, 8).map_values(|x: u64| x as nat) =~= gs);
    }
}

} // verus!
