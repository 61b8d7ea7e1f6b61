//! Portable socket addresses and their native byte layout.
//!
//! The layout is that of Linux's `sockaddr_in` and `sockaddr_in6` on a
//! little-endian machine: the family tag in machine order, the port in network
//! order, the address bytes as they are, flow information and scope id in
//! machine order, and zero padding at the end of `sockaddr_in`.

use vstd::prelude::*;
use crate::bytes::{
    be16, be16_value, le16, le32, le32_value, lemma_be16_round_trip, lemma_le32_round_trip,
    push_all, push_be16, push_le16, push_le32, push_zeros, read_be16, read_le32,
};

verus! {

/// Family tag of an IPv4 socket address.
pub const AF_INET: u16 = 2;

/// Family tag of an IPv6 socket address.
pub const AF_INET6: u16 = 10;

/// Size in bytes of the native IPv4 socket address structure.
pub const SOCKADDR_IN_LEN: u32 = 16;

/// Size in bytes of the native IPv6 socket address structure.
pub const SOCKADDR_IN6_LEN: u32 = 28;

/// An IPv4 address, as its four bytes in network order.
#[derive(Clone, Copy, Debug, PartialEq, Eq, Hash)]
pub struct Ipv4Addr {
    pub octets: [u8; 4],
}

/// An IPv6 address, as its sixteen bytes in network order.
#[derive(Clone, Copy, Debug, PartialEq, Eq, Hash)]
pub struct Ipv6Addr {
    pub octets: [u8; 16],
}

/// An IP address of either family.
#[derive(Clone, Copy, Debug, PartialEq, Eq, Hash)]
pub enum IpAddr {
    V4(Ipv4Addr),
    V6(Ipv6Addr),
}

/// An IPv4 address with a port.
#[derive(Clone, Copy, Debug, PartialEq, Eq, Hash)]
pub struct SocketAddrV4 {
    pub ip: Ipv4Addr,
    pub port: u16,
}

/// An IPv6 address with a port, flow information and a scope id.
#[derive(Clone, Copy, Debug, PartialEq, Eq, Hash)]
pub struct SocketAddrV6 {
    pub ip: Ipv6Addr,
    pub port: u16,
    pub flowinfo: u32,
    pub scope_id: u32,
}

/// A socket address of either family.
#[derive(Clone, Copy, Debug, PartialEq, Eq, Hash)]
pub enum SocketAddr {
    V4(SocketAddrV4),
    V6(SocketAddrV6),
}

/// The sixteen bytes of eight 16-bit segments, each in network order.
pub open spec fn segments_octets(s: Seq<u16>) -> Seq<u8>
    recommends
        s.len() == 8,
{
    be16(s[0]) + be16(s[1]) + be16(s[2]) + be16(s[3]) + be16(s[4]) + be16(s[5]) + be16(s[6])
        + be16(s[7])
}

impl Ipv4Addr {
    /// The address `a.b.c.d`.
    pub fn new(a: u8, b: u8, c: u8, d: u8) -> (r: Ipv4Addr)
        ensures
            r.octets@ == seq![a, b, c, d],
    {
        let r = Ipv4Addr { octets: [a, b, c, d] };
        assert(r.octets@ =~= seq![a, b, c, d]);
        r
    }

    pub fn octets(&self) -> (r: [u8; 4])
        ensures
            r == self.octets,
    {
        self.octets
    }
}

impl Ipv6Addr {
    /// The address with the eight 16-bit segments `a` to `h`.
    pub fn new(a: u16, b: u16, c: u16, d: u16, e: u16, f: u16, g: u16, h: u16) -> (r: Ipv6Addr)
        ensures
            r.octets@ == segments_octets(seq![a, b, c, d, e, f, g, h]),
    {
        let r = Ipv6Addr {
            octets: [
                (a / 256) as u8,
                (a % 256) as u8,
                (b / 256) as u8,
                (b % 256) as u8,
                (c / 256) as u8,
                (c % 256) as u8,
                (d / 256) as u8,
                (d % 256) as u8,
                (e / 256) as u8,
                (e % 256) as u8,
                (f / 256) as u8,
                (f % 256) as u8,
                (g / 256) as u8,
                (g % 256) as u8,
                (h / 256) as u8,
                (h % 256) as u8,
            ],
        };
        assert(r.octets@ =~= segments_octets(seq![a, b, c, d, e, f, g, h]));
        r
    }

    pub fn octets(&self) -> (r: [u8; 16])
        ensures
            r == self.octets,
    {
        self.octets
    }
}

impl SocketAddrV4 {
    pub fn new(ip: Ipv4Addr, port: u16) -> (r: SocketAddrV4)
        ensures
            r == (SocketAddrV4 { ip, port }),
    {
        SocketAddrV4 { ip, port }
    }
}

impl SocketAddrV6 {
    pub fn new(ip: Ipv6Addr, port: u16, flowinfo: u32, scope_id: u32) -> (r: SocketAddrV6)
        ensures
            r == (SocketAddrV6 { ip, port, flowinfo, scope_id }),
    {
        SocketAddrV6 { ip, port, flowinfo, scope_id }
    }
}

impl SocketAddr {
    /// The socket address of `ip` and `port`; an IPv6 one has flow
    /// information and scope id zero.
    pub fn new(ip: IpAddr, port: u16) -> (r: SocketAddr)
        ensures
            r == match ip {
                IpAddr::V4(a) => SocketAddr::V4(SocketAddrV4 { ip: a, port }),
                IpAddr::V6(a) => SocketAddr::V6(
                    SocketAddrV6 { ip: a, port, flowinfo: 0, scope_id: 0 },
                ),
            },
    {
        match ip {
            IpAddr::V4(a) => SocketAddr::V4(SocketAddrV4 { ip: a, port }),
            IpAddr::V6(a) => SocketAddr::V6(SocketAddrV6 { ip: a, port, flowinfo: 0, scope_id: 0 }),
        }
    }

    pub fn ip(&self) -> (r: IpAddr)
        ensures
            r == match *self {
                SocketAddr::V4(a) => IpAddr::V4(a.ip),
                SocketAddr::V6(a) => IpAddr::V6(a.ip),
            },
    {
        match self {
            SocketAddr::V4(a) => IpAddr::V4(a.ip),
            SocketAddr::V6(a) => IpAddr::V6(a.ip),
        }
    }

    pub fn port(&self) -> (r: u16)
        ensures
            r == match *self {
                SocketAddr::V4(a) => a.port,
                SocketAddr::V6(a) => a.port,
            },
    {
        match self {
            SocketAddr::V4(a) => a.port,
            SocketAddr::V6(a) => a.port,
        }
    }
}

/// The native `sockaddr_in` bytes of an IPv4 socket address.
pub open spec fn sockaddr_in_bytes(a: SocketAddrV4) -> Seq<u8> {
    le16(AF_INET) + be16(a.port) + a.ip.octets@ + Seq::new(8, |i: int| 0u8)
}

/// The native `sockaddr_in6` bytes of an IPv6 socket address.
pub open spec fn sockaddr_in6_bytes(a: SocketAddrV6) -> Seq<u8> {
    le16(AF_INET6) + be16(a.port) + le32(a.flowinfo) + a.ip.octets@ + le32(a.scope_id)
}

/// The native bytes of a socket address: the structure of its family.
pub open spec fn encoded(a: SocketAddr) -> Seq<u8> {
    match a {
        SocketAddr::V4(v4) => sockaddr_in_bytes(v4),
        SocketAddr::V6(v6) => sockaddr_in6_bytes(v6),
    }
}

/// The native length of a socket address's family.
pub open spec fn native_len(a: SocketAddr) -> u32 {
    match a {
        SocketAddr::V4(_) => SOCKADDR_IN_LEN,
        SocketAddr::V6(_) => SOCKADDR_IN6_LEN,
    }
}

/// The socket address that the first `len` bytes of `b` hold: IPv4 where
/// `len` is the size of `sockaddr_in`, else IPv6. The family tag is not read.
pub open spec fn decoded(b: Seq<u8>, len: u32) -> SocketAddr {
    if len == SOCKADDR_IN_LEN {
        SocketAddr::V4(
            SocketAddrV4 {
                ip: Ipv4Addr { octets: [b[4], b[5], b[6], b[7]] },
                port: be16_value(b[2], b[3]),
            },
        )
    } else {
        SocketAddr::V6(
            SocketAddrV6 {
                ip: Ipv6Addr {
                    octets: [
                        b[8],
                        b[9],
                        b[10],
                        b[11],
                        b[12],
                        b[13],
                        b[14],
                        b[15],
                        b[16],
                        b[17],
                        b[18],
                        b[19],
                        b[20],
                        b[21],
                        b[22],
                        b[23],
                    ],
                },
                port: be16_value(b[2], b[3]),
                flowinfo: le32_value(b[4], b[5], b[6], b[7]),
                scope_id: le32_value(b[24], b[25], b[26], b[27]),
            },
        )
    }
}

/// The native bytes of `addr` and their length, ready to hand to `bind` or
/// `connect`.
pub fn addr2raw(addr: &SocketAddr) -> (r: (Vec<u8>, u32))
    ensures
        r.0@ == encoded(*addr),
        r.1 == native_len(*addr),
        r.0@.len() == r.1,
{
    let mut out: Vec<u8> = Vec::new();
    match addr {
        SocketAddr::V4(a) => {
            push_le16(&mut out, AF_INET);
            push_be16(&mut out, a.port);
            push_all(&mut out, a.ip.octets.as_slice());
            push_zeros(&mut out, 8);
            (out, SOCKADDR_IN_LEN)
        },
        SocketAddr::V6(a) => {
            push_le16(&mut out, AF_INET6);
            push_be16(&mut out, a.port);
            push_le32(&mut out, a.flowinfo);
            push_all(&mut out, a.ip.octets.as_slice());
            push_le32(&mut out, a.scope_id);
            (out, SOCKADDR_IN6_LEN)
        },
    }
}

/// The socket address in the first `len` bytes of `raw`: IPv4 where `len` is
/// the size of `sockaddr_in`, IPv6 where it is the size of `sockaddr_in6`.
pub fn raw2addr(raw: &[u8], len: u32) -> (r: SocketAddr)
    requires
        len == SOCKADDR_IN_LEN || len == SOCKADDR_IN6_LEN,
        len <= raw@.len(),
    ensures
        r == decoded(raw@, len),
{
    if len == SOCKADDR_IN_LEN {
        let ip = Ipv4Addr { octets: [raw[4], raw[5], raw[6], raw[7]] };
        SocketAddr::V4(SocketAddrV4 { ip, port: read_be16(raw, 2) })
    } else {
        let ip = Ipv6Addr {
            octets: [
                raw[8],
                raw[9],
                raw[10],
                raw[11],
                raw[12],
                raw[13],
                raw[14],
                raw[15],
                raw[16],
                raw[17],
                raw[18],
                raw[19],
                raw[20],
                raw[21],
                raw[22],
                raw[23],
            ],
        };
        SocketAddr::V6(
            SocketAddrV6 {
                ip,
                port: read_be16(raw, 2),
                flowinfo: read_le32(raw, 4),
                scope_id: read_le32(raw, 24),
            },
        )
    }
}

/// Encoding is lossless: decoding the native bytes of any socket address,
/// with the length that came with them, gives back that address.
pub proof fn lemma_raw_and_back(a: SocketAddr)
    ensures
        decoded(encoded(a), native_len(a)) == a,
{
    let b = encoded(a);
    match a {
        SocketAddr::V4(v4) => {
            lemma_be16_round_trip(v4.port);
            assert(b[2] == be16(v4.port)[0] && b[3] == be16(v4.port)[1]);
            let o = v4.ip.octets;
            assert(b[4] == o[0] && b[5] == o[1] && b[6] == o[2] && b[7] == o[3]);
            assert([b[4], b[5], b[6], b[7]] =~= o);
        },
        SocketAddr::V6(v6) => {
            lemma_be16_round_trip(v6.port);
            lemma_le32_round_trip(v6.flowinfo);
            lemma_le32_round_trip(v6.scope_id);
            let o = v6.ip.octets;
            assert(b[2] == be16(v6.port)[0] && b[3] == be16(v6.port)[1]);
            assert(b[4] == le32(v6.flowinfo)[0] && b[5] == le32(v6.flowinfo)[1] && b[6] == le32(
                v6.flowinfo,
            )[2] && b[7] == le32(v6.flowinfo)[3]);
            assert(b[24] == le32(v6.scope_id)[0] && b[25] == le32(v6.scope_id)[1] && b[26]
                == le32(v6.scope_id)[2] && b[27] == le32(v6.scope_id)[3]);
            assert(forall|i: int| 0 <= i < 16 ==> b[8 + i] == o[i]);
            let d = [
                b[8],
                b[9],
                b[10],
                b[11],
                b[12],
                b[13],
                b[14],
                b[15],
                b[16],
                b[17],
                b[18],
                b[19],
                b[20],
                b[21],
                b[22],
                b[23],
            ];
            assert(d =~= o);
        },
    }
}

/// The length that comes with an encoding is the size of the native structure
/// of the address's family, and the two sizes differ, so the length alone
/// tells the families apart.
pub proof fn lemma_length_disambiguates(a: SocketAddr)
    ensures
        encoded(a).len() == native_len(a),
        a is V4 ==> native_len(a) == SOCKADDR_IN_LEN,
        a is V6 ==> native_len(a) == SOCKADDR_IN6_LEN,
        SOCKADDR_IN_LEN != SOCKADDR_IN6_LEN,
{
}

} // verus!
