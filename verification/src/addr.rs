//! Peer addresses as plain numbers: an IPv4 address is its 32 bits, an IPv6
//! address its 128 bits, most significant octet first in both.

use crate::text::{append_decimal, append_hex, decimal_text, hex_text};
use vstd::prelude::*;
use vstd::string::*;

verus! {

/// One IP address. `V4(0x0a00_0002)` is `10.0.0.2`; `V6(1)` is `::1`.
#[derive(Clone, Copy, Debug, PartialEq, Eq, Hash, Structural)]
pub enum IpAddress {
    V4(u32),
    V6(u128),
}

/// An IP address with a port; an IPv6 endpoint also carries its flow
/// information and scope identifier.
#[derive(Clone, Copy, Debug, PartialEq, Eq, Hash, Structural)]
#[allow(inconsistent_fields)]
pub enum SocketAddress {
    V4 { ip: u32, port: u16 },
    V6 { ip: u128, port: u16, flowinfo: u32, scope_id: u32 },
}

/// The four octets of an IPv4 address, in the order in which they are written.
pub open spec fn v4_octets(bits: u32) -> Seq<u8> {
    seq![
        (bits / 0x100_0000) as u8,
        (bits / 0x1_0000 % 0x100) as u8,
        (bits / 0x100 % 0x100) as u8,
        (bits % 0x100) as u8,
    ]
}

/// The eight 16-bit groups of an IPv6 address, in the order in which they
/// are written.
pub open spec fn v6_groups(bits: u128) -> Seq<u16> {
    seq![
        (bits / 0x1_0000_0000_0000_0000_0000_0000_0000) as u16,
        (bits / 0x1_0000_0000_0000_0000_0000_0000 % 0x1_0000) as u16,
        (bits / 0x1_0000_0000_0000_0000_0000 % 0x1_0000) as u16,
        (bits / 0x1_0000_0000_0000_0000 % 0x1_0000) as u16,
        (bits / 0x1_0000_0000_0000 % 0x1_0000) as u16,
        (bits / 0x1_0000_0000 % 0x1_0000) as u16,
        (bits / 0x1_0000 % 0x1_0000) as u16,
        (bits % 0x1_0000) as u16,
    ]
}

/// The sixteen octets of an IPv6 address: each group's high octet, then its low one.
pub open spec fn v6_octets(bits: u128) -> Seq<u8> {
    Seq::new(
        16,
        |i: int|
            if i % 2 == 0 {
                (v6_groups(bits)[i / 2] / 0x100) as u8
            } else {
                (v6_groups(bits)[i / 2] % 0x100) as u8
            },
    )
}

/// Dotted decimal: `10.0.0.2`.
pub open spec fn v4_text(bits: u32) -> Seq<char> {
    let o = v4_octets(bits);
    decimal_text(o[0] as nat) + "."@ + decimal_text(o[1] as nat) + "."@ + decimal_text(
        o[2] as nat,
    ) + "."@ + decimal_text(o[3] as nat)
}

/// The groups of `groups` in lower-case hexadecimal, joined by colons.
pub open spec fn groups_text(groups: Seq<u16>) -> Seq<char>
    decreases groups.len(),
{
    if groups.len() == 0 {
        Seq::empty()
    } else if groups.len() == 1 {
        hex_text(groups[0] as nat)
    } else {
        groups_text(groups.drop_last()) + ":"@ + hex_text(groups.last() as nat)
    }
}

/// How many consecutive groups from position `start` on are zero.
pub open spec fn zero_run(groups: Seq<u16>, start: int) -> nat
    decreases groups.len() - start,
{
    if 0 <= start < groups.len() && groups[start] == 0 {
        1 + zero_run(groups, start + 1)
    } else {
        0
    }
}

/// The leftmost position below `upto` from which the longest run of zero
/// groups starts (position 0 where there is none to choose from).
pub open spec fn longest_zero_run_start(groups: Seq<u16>, upto: int) -> int
    decreases upto,
{
    if upto <= 1 {
        0
    } else {
        let best = longest_zero_run_start(groups, upto - 1);
        if zero_run(groups, upto - 1) > zero_run(groups, best) {
            upto - 1
        } else {
            best
        }
    }
}

/// The run that starts at `longest_zero_run_start` is the leftmost of the
/// longest: no run below `upto` is longer, and every run to its left is
/// shorter.
pub proof fn lemma_longest_zero_run(groups: Seq<u16>, upto: int)
    requires
        upto >= 1,
    ensures
        0 <= longest_zero_run_start(groups, upto) < upto,
        forall|p: int|
            0 <= p < upto ==> #[trigger] zero_run(groups, p) <= zero_run(
                groups,
                longest_zero_run_start(groups, upto),
            ),
        forall|p: int|
            0 <= p < longest_zero_run_start(groups, upto) ==> #[trigger] zero_run(groups, p)
                < zero_run(groups, longest_zero_run_start(groups, upto)),
    decreases upto,
{
    if upto > 1 {
        lemma_longest_zero_run(groups, upto - 1);
    }
}

/// Whether the address is an IPv4 address mapped into IPv6 (`::ffff:a.b.c.d`).
pub open spec fn is_v4_mapped(bits: u128) -> bool {
    bits / 0x1_0000_0000 == 0xffff
}

/// The canonical text of an IPv6 address: an IPv4-mapped address ends in
/// dotted decimal; otherwise the groups are written in hexadecimal and the
/// leftmost longest run of two or more zero groups is shortened to `::`.
pub open spec fn v6_text(bits: u128) -> Seq<char> {
    let groups = v6_groups(bits);
    if is_v4_mapped(bits) {
        "::ffff:"@ + v4_text((bits % 0x1_0000_0000) as u32)
    } else {
        let start = longest_zero_run_start(groups, 8);
        let len = zero_run(groups, start);
        if len > 1 {
            groups_text(groups.subrange(0, start)) + "::"@ + groups_text(
                groups.subrange(start + len, 8),
            )
        } else {
            groups_text(groups)
        }
    }
}

impl IpAddress {
    /// The address in its canonical text form.
    pub open spec fn text(self) -> Seq<char> {
        match self {
            IpAddress::V4(bits) => v4_text(bits),
            IpAddress::V6(bits) => v6_text(bits),
        }
    }

    /// Whether this is the all-zero address of its family (`0.0.0.0`, `::`).
    pub open spec fn unspecified(self) -> bool {
        match self {
            IpAddress::V4(bits) => bits == 0,
            IpAddress::V6(bits) => bits == 0,
        }
    }

    pub fn is_ipv4(&self) -> (b: bool)
        ensures
            b == (*self is V4),
    {
        match self {
            IpAddress::V4(_) => true,
            IpAddress::V6(_) => false,
        }
    }

    pub fn is_ipv6(&self) -> (b: bool)
        ensures
            b == (*self is V6),
    {
        match self {
            IpAddress::V4(_) => false,
            IpAddress::V6(_) => true,
        }
    }

    pub fn is_unspecified(&self) -> (b: bool)
        ensures
            b == self.unspecified(),
    {
        match self {
            IpAddress::V4(bits) => *bits == 0,
            IpAddress::V6(bits) => *bits == 0,
        }
    }

    /// The address in network order: 4 octets for IPv4, 16 for IPv6.
    pub open spec fn octets(self) -> Seq<u8> {
        match self {
            IpAddress::V4(bits) => v4_octets(bits),
            IpAddress::V6(bits) => v6_octets(bits),
        }
    }
}

fn octets_of_v4(bits: u32) -> (o: [u8; 4])
    ensures
        o@ == v4_octets(bits),
{
    let o: [u8; 4] = [
        (bits / 0x100_0000) as u8,
        (bits / 0x1_0000 % 0x100) as u8,
        (bits / 0x100 % 0x100) as u8,
        (bits % 0x100) as u8,
    ];
    o
}

fn groups_of_v6(bits: u128) -> (g: [u16; 8])
    ensures
        g@ == v6_groups(bits),
{
    let g: [u16; 8] = [
        (bits / 0x1_0000_0000_0000_0000_0000_0000_0000) as u16,
        (bits / 0x1_0000_0000_0000_0000_0000_0000 % 0x1_0000) as u16,
        (bits / 0x1_0000_0000_0000_0000_0000 % 0x1_0000) as u16,
        (bits / 0x1_0000_0000_0000_0000 % 0x1_0000) as u16,
        (bits / 0x1_0000_0000_0000 % 0x1_0000) as u16,
        (bits / 0x1_0000_0000 % 0x1_0000) as u16,
        (bits / 0x1_0000 % 0x1_0000) as u16,
        (bits % 0x1_0000) as u16,
    ];
    g
}

fn append_v4(out: &mut String, bits: u32)
    ensures
        final(out)@ == old(out)@ + v4_text(bits),
{
    let o: [u8; 4] = octets_of_v4(bits);
    append_decimal(out, o[0] as u64);
    out.append(".");
    append_decimal(out, o[1] as u64);
    out.append(".");
    append_decimal(out, o[2] as u64);
    out.append(".");
    append_decimal(out, o[3] as u64);
}

fn zero_run_at(groups: &[u16; 8], start: usize) -> (len: usize)
    requires
        start <= 8,
    ensures
        len == zero_run(groups@, start as int),
        start + len <= 8,
{
    let mut end: usize = start;
    while end < 8 && groups[end] == 0
        invariant
            start <= end <= 8,
            zero_run(groups@, start as int) == (end - start) + zero_run(groups@, end as int),
        decreases 8 - end,
    {
        end += 1;
    }
    end - start
}

fn longest_zero_run(groups: &[u16; 8]) -> (run: (usize, usize))
    ensures
        run.0 == longest_zero_run_start(groups@, 8),
        run.1 == zero_run(groups@, run.0 as int),
        run.0 + run.1 <= 8,
{
    let mut best: usize = 0;
    let mut best_len: usize = zero_run_at(groups, 0);
    let mut at: usize = 1;
    while at < 8
        invariant
            1 <= at <= 8,
            best < at,
            best == longest_zero_run_start(groups@, at as int),
            best_len == zero_run(groups@, best as int),
            best + best_len <= 8,
        decreases 8 - at,
    {
        let len: usize = zero_run_at(groups, at);
        if len > best_len {
            best = at;
            best_len = len;
        }
        at += 1;
    }
    (best, best_len)
}

fn append_groups(out: &mut String, groups: &[u16; 8], from: usize, to: usize)
    requires
        from <= to <= 8,
    ensures
        final(out)@ == old(out)@ + groups_text(groups@.subrange(from as int, to as int)),
{
    let mut at: usize = from;
    while at < to
        invariant
            from <= at <= to <= 8,
            out@ == old(out)@ + groups_text(groups@.subrange(from as int, at as int)),
        decreases to - at,
    {
        let ghost before = groups@.subrange(from as int, at as int);
        let ghost after = groups@.subrange(from as int, at + 1);
        if at > from {
            out.append(":");
        }
        append_hex(out, groups[at] as u64);
        proof {
            assert(after.drop_last() =~= before);
        }
        at += 1;
    }
}

fn append_v6(out: &mut String, bits: u128)
    ensures
        final(out)@ == old(out)@ + v6_text(bits),
{
    if bits / 0x1_0000_0000 == 0xffff {
        out.append("::ffff:");
        append_v4(out, (bits % 0x1_0000_0000) as u32);
    } else {
        let groups: [u16; 8] = groups_of_v6(bits);
        let (start, len) = longest_zero_run(&groups);
        if len > 1 {
            append_groups(out, &groups, 0, start);
            out.append("::");
            append_groups(out, &groups, start + len, 8);
        } else {
            append_groups(out, &groups, 0, 8);
            assert(groups@.subrange(0, 8) =~= groups@);
        }
    }
}

impl IpAddress {
    /// Appends the address's canonical text to `out`.
    pub fn append_to(&self, out: &mut String)
        ensures
            final(out)@ == old(out)@ + self.text(),
    {
        match self {
            IpAddress::V4(bits) => append_v4(out, *bits),
            IpAddress::V6(bits) => append_v6(out, *bits),
        }
    }

    /// The address in its canonical text form.
    pub fn to_text(&self) -> (s: String)
        ensures
            s@ == self.text(),
    {
        let mut s = String::new();
        self.append_to(&mut s);
        s
    }
}

impl SocketAddress {
    /// The endpoint at `ip` and `port`, with no flow information or scope.
    pub fn new(ip: IpAddress, port: u16) -> (addr: SocketAddress)
        ensures
            addr.ip() == ip,
            addr.port() == port,
            addr matches SocketAddress::V6 { flowinfo, scope_id, .. } ==> flowinfo == 0
                && scope_id == 0,
    {
        match ip {
            IpAddress::V4(bits) => SocketAddress::V4 { ip: bits, port },
            IpAddress::V6(bits) => SocketAddress::V6 { ip: bits, port, flowinfo: 0, scope_id: 0 },
        }
    }

    pub open spec fn ip(&self) -> IpAddress {
        match *self {
            SocketAddress::V4 { ip, .. } => IpAddress::V4(ip),
            SocketAddress::V6 { ip, .. } => IpAddress::V6(ip),
        }
    }

    pub open spec fn port(&self) -> u16 {
        match *self {
            SocketAddress::V4 { port, .. } => port,
            SocketAddress::V6 { port, .. } => port,
        }
    }

    /// `a.b.c.d:port` for IPv4; `[address]:port` for IPv6, with `%scope`
    /// after the address where the scope identifier is not zero.
    pub open spec fn text(&self) -> Seq<char> {
        match *self {
            SocketAddress::V4 { ip, port } => v4_text(ip) + ":"@ + decimal_text(port as nat),
            SocketAddress::V6 { ip, port, scope_id, .. } => if scope_id == 0 {
                "["@ + v6_text(ip) + "]:"@ + decimal_text(port as nat)
            } else {
                "["@ + v6_text(ip) + "%"@ + decimal_text(scope_id as nat) + "]:"@ + decimal_text(
                    port as nat,
                )
            },
        }
    }

    #[verifier::when_used_as_spec(ip)]
    pub fn get_ip(&self) -> (ip: IpAddress)
        ensures
            ip == self.ip(),
    {
        match self {
            SocketAddress::V4 { ip, .. } => IpAddress::V4(*ip),
            SocketAddress::V6 { ip, .. } => IpAddress::V6(*ip),
        }
    }

    #[verifier::when_used_as_spec(port)]
    pub fn get_port(&self) -> (port: u16)
        ensures
            port == self.port(),
    {
        match self {
            SocketAddress::V4 { port, .. } => *port,
            SocketAddress::V6 { port, .. } => *port,
        }
    }

    /// The endpoint in its canonical text form.
    pub fn to_text(&self) -> (s: String)
        ensures
            s@ == self.text(),
    {
        let mut s = String::new();
        match self {
            SocketAddress::V4 { ip, port } => {
                append_v4(&mut s, *ip);
                s.append(":");
                append_decimal(&mut s, *port as u64);
            },
            SocketAddress::V6 { ip, port, scope_id, .. } => {
                s.append("[");
                append_v6(&mut s, *ip);
                if *scope_id != 0 {
                    s.append("%");
                    append_decimal(&mut s, *scope_id as u64);
                }
                s.append("]:");
                append_decimal(&mut s, *port as u64);
            },
        }
        s
    }
}

} // verus!
