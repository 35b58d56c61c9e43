//! Internet addresses as plain integers.
use vstd::prelude::*;

verus! {

/// An IP address, as the big-endian integer of its octets.
#[derive(Clone, Copy, Debug, PartialEq, Eq, Structural)]
pub enum IpAddr {
    /// An IPv4 address.
    V4(u32),
    /// An IPv6 address.
    V6(u128),
}

impl IpAddr {
    /// The wildcard address of either family.
    pub open spec fn unspecified(self) -> bool {
        match self {
            IpAddr::V4(bits) => bits == 0,
            IpAddr::V6(bits) => bits == 0,
        }
    }

    /// `127.0.0.0/8` or `::1`.
    pub open spec fn loopback(self) -> bool {
        match self {
            IpAddr::V4(bits) => bits / 0x100_0000 == 127,
            IpAddr::V6(bits) => bits == 1,
        }
    }

    /// `169.254.0.0/16` or `fe80::/10`.
    pub open spec fn link_local(self) -> bool {
        match self {
            IpAddr::V4(bits) => bits / 0x1_0000 == 0xa9fe,
            IpAddr::V6(bits) => bits / 0x40_0000_0000_0000_0000_0000_0000_0000 == 0x3fa,
        }
    }

    /// `224.0.0.0/4` or `ff00::/8`.
    pub open spec fn multicast(self) -> bool {
        match self {
            IpAddr::V4(bits) => bits / 0x1000_0000 == 0xe,
            IpAddr::V6(bits) => bits / 0x100_0000_0000_0000_0000_0000_0000_0000 == 0xff,
        }
    }

    /// An address that can be a candidate for a connection.
    pub open spec fn candidate(self) -> bool {
        &&& !self.multicast()
        &&& !self.unspecified()
        &&& self matches IpAddr::V4(bits) ==> !self.link_local() && bits != 0xffff_ffff
    }

    /// Whether this address can be a candidate for a connection.
    pub fn is_candidate(&self) -> (r: bool)
        ensures
            r == self.candidate(),
    {
        !self.is_multicast() && !self.is_unspecified() && match self {
            IpAddr::V4(bits) => !self.is_link_local() && *bits != 0xffff_ffff,
            IpAddr::V6(_) => true,
        }
    }

    /// Whether this is an IPv4 address.
    pub fn is_ipv4(&self) -> (r: bool)
        ensures
            r == (*self is V4),
    {
        match self {
            IpAddr::V4(_) => true,
            IpAddr::V6(_) => false,
        }
    }

    /// Whether this is an IPv6 address.
    pub fn is_ipv6(&self) -> (r: bool)
        ensures
            r == (*self is V6),
    {
        !self.is_ipv4()
    }

    /// Whether this is the wildcard address of its family.
    pub fn is_unspecified(&self) -> (r: bool)
        ensures
            r == self.unspecified(),
    {
        match self {
            IpAddr::V4(bits) => *bits == 0,
            IpAddr::V6(bits) => *bits == 0,
        }
    }

    /// Whether this is a loopback address.
    pub fn is_loopback(&self) -> (r: bool)
        ensures
            r == self.loopback(),
    {
        match self {
            IpAddr::V4(bits) => *bits / 0x100_0000u32 == 127,
            IpAddr::V6(bits) => *bits == 1,
        }
    }

    /// Whether this is a link-local unicast address.
    pub fn is_link_local(&self) -> (r: bool)
        ensures
            r == self.link_local(),
    {
        match self {
            IpAddr::V4(bits) => *bits / 0x1_0000u32 == 0xa9fe,
            IpAddr::V6(bits) => *bits / 0x40_0000_0000_0000_0000_0000_0000_0000u128 == 0x3fa,
        }
    }

    /// Whether this is a multicast address.
    pub fn is_multicast(&self) -> (r: bool)
        ensures
            r == self.multicast(),
    {
        match self {
            IpAddr::V4(bits) => *bits / 0x1000_0000u32 == 0xe,
            IpAddr::V6(bits) => *bits / 0x100_0000_0000_0000_0000_0000_0000_0000u128 == 0xff,
        }
    }
}

/// A UDP endpoint.
#[derive(Clone, Copy, Debug, PartialEq, Eq, Structural)]
pub struct SocketAddr {
    /// The IP address.
    pub ip: IpAddr,
    /// The UDP port.
    pub port: u16,
    /// The IPv6 flow label, zero for IPv4.
    pub flowinfo: u32,
    /// The IPv6 scope, zero for IPv4.
    pub scope_id: u32,
}

/// The endpoint at `ip` and `port`, with neither flow label nor scope.
pub open spec fn endpoint(ip: IpAddr, port: u16) -> SocketAddr {
    SocketAddr { ip, port, flowinfo: 0, scope_id: 0 }
}

impl SocketAddr {
    /// The endpoint at `ip` and `port`, with neither flow label nor scope.
    pub fn new(ip: IpAddr, port: u16) -> (r: SocketAddr)
        ensures
            r == endpoint(ip, port),
    {
        SocketAddr { ip, port, flowinfo: 0, scope_id: 0 }
    }
}

/// Which IPv4 addresses are special is told by their octets: `127` in front is loopback,
/// `169.254` link-local, `224` to `239` multicast, and four zeros stand for all interfaces. Neither
/// these, but for loopback, nor four times `255` make a candidate.
pub proof fn law_special_ipv4_addresses(bits: u32, a: u8, b: u8, c: u8, d: u8)
    requires
        bits == a * 0x100_0000 + b * 0x1_0000 + c * 0x100 + d,
    ensures
        IpAddr::V4(bits).unspecified() <==> a == 0 && b == 0 && c == 0 && d == 0,
        IpAddr::V4(bits).loopback() <==> a == 127,
        IpAddr::V4(bits).link_local() <==> a == 169 && b == 254,
        IpAddr::V4(bits).multicast() <==> 224 <= a <= 239,
        IpAddr::V4(bits).candidate() <==> !(a == 0 && b == 0 && c == 0 && d == 0) && !(a == 169
            && b == 254) && !(224 <= a <= 239) && !(a == 255 && b == 255 && c == 255 && d == 255),
{
}

/// Which IPv6 addresses are special is told by their first sixteen bits and the rest: `fe80` to
/// `febf` in front is link-local, `ff` multicast, one alone is loopback and zero stands for all
/// interfaces. All but the multicast ones and zero make a candidate.
pub proof fn law_special_ipv6_addresses(bits: u128, segment: u16, rest: int)
    requires
        0 <= rest < 0x1_0000_0000_0000_0000_0000_0000_0000,
        bits == segment * 0x1_0000_0000_0000_0000_0000_0000_0000 + rest,
    ensures
        IpAddr::V6(bits).unspecified() <==> segment == 0 && rest == 0,
        IpAddr::V6(bits).loopback() <==> segment == 0 && rest == 1,
        IpAddr::V6(bits).link_local() <==> 0xfe80 <= segment <= 0xfebf,
        IpAddr::V6(bits).multicast() <==> segment >= 0xff00,
        IpAddr::V6(bits).candidate() <==> segment < 0xff00 && !(segment == 0 && rest == 0),
{
}

/// An endpoint is told by its address and its port alone.
pub proof fn law_endpoint_is_address_and_port(ip: IpAddr, port: u16)
    ensures
        endpoint(ip, port).ip == ip,
        endpoint(ip, port).port == port,
        endpoint(ip, port).flowinfo == 0,
        endpoint(ip, port).scope_id == 0,
{
}

} // verus!
