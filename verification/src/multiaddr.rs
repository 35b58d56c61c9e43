//! Multiaddresses of the form `/ip/../udp/../webrtc-direct[/certhash/..]`.
use libp2p_core::multiaddr::Protocol as P;
use libp2p_core::Multiaddr;
use vstd::prelude::*;

use crate::fingerprint::{digest_of, sha256_digest, Fingerprint, MULTIHASH_SHA256_CODE};
use crate::net::{IpAddr, SocketAddr};

verus! {

/// A hash together with the code of the algorithm that made it; at most 64 bytes long.
#[derive(Debug, PartialEq, Eq)]
pub struct Multihash {
    code: u64,
    digest: Vec<u8>,
}

impl View for Multihash {
    type V = (u64, Seq<u8>);

    closed spec fn view(&self) -> (u64, Seq<u8>) {
        (self.code, self.digest@)
    }
}

impl Multihash {
    #[verifier::type_invariant]
    spec fn fits(self) -> bool {
        self.digest@.len() <= 64
    }

    /// The hash `digest` made by the algorithm `code`.
    pub fn new(code: u64, digest: Vec<u8>) -> (r: Multihash)
        requires
            digest@.len() <= 64,
        ensures
            r@ == (code, digest@),
    {
        Multihash { code, digest }
    }

    /// The code of the algorithm.
    pub fn code(&self) -> (r: u64)
        ensures
            r == self@.0,
    {
        self.code
    }

    /// The hash; never longer than 64 bytes.
    pub fn digest(&self) -> (r: &[u8])
        ensures
            r@ == self@.1,
            r@.len() <= 64,
    {
        proof {
            use_type_invariant(self);
        }
        self.digest.as_slice()
    }
}

/// One component of a multiaddress, as far as this transport reads it.
#[derive(Debug, PartialEq, Eq)]
pub enum Protocol {
    Ip4(u32),
    Ip6(u128),
    Udp(u16),
    WebRtcDirect,
    Certhash(Multihash),
    P2p,
    /// Any other component.
    Other,
}

/// The mathematical form of a [`Protocol`].
pub enum Component {
    Ip4(u32),
    Ip6(u128),
    Udp(u16),
    WebRtcDirect,
    Certhash(u64, Seq<u8>),
    P2p,
    Other,
}

impl View for Protocol {
    type V = Component;

    open spec fn view(&self) -> Component {
        match *self {
            Protocol::Ip4(bits) => Component::Ip4(bits),
            Protocol::Ip6(bits) => Component::Ip6(bits),
            Protocol::Udp(port) => Component::Udp(port),
            Protocol::WebRtcDirect => Component::WebRtcDirect,
            Protocol::Certhash(hash) => Component::Certhash(hash@.0, hash@.1),
            Protocol::P2p => Component::P2p,
            Protocol::Other => Component::Other,
        }
    }
}

/// Declares `libp2p_core::Multiaddr` as an opaque type.
#[verifier::external_type_specification]
#[verifier::external_body]
pub struct ExMultiaddr(libp2p_core::Multiaddr);

/// The components of a multiaddress, in order.
pub uninterp spec fn components(addr: Multiaddr) -> Seq<Component>;

/// The components that `protocols` stands for.
pub open spec fn as_components(protocols: Seq<Protocol>) -> Seq<Component> {
    protocols.map_values(|p: Protocol| p@)
}

/// `Multiaddr::empty`: the multiaddress without components.
#[verifier::external_body]
fn empty_multiaddr() -> (r: Multiaddr)
    ensures
        components(r) == Seq::<Component>::empty(),
{
    Multiaddr::empty()
}

/// `Multiaddr::with`: one more component at the end. Of `P2p` and `Other` the payload is not kept,
/// so neither can be appended.
#[verifier::external_body]
fn with(addr: Multiaddr, protocol: &Protocol) -> (r: Multiaddr)
    requires
        !(protocol@ is P2p),
        !(protocol@ is Other),
    ensures
        components(r) == components(addr).push(protocol@),
{
    match protocol {
        Protocol::Ip4(bits) => addr.with(P::Ip4((*bits).into())),
        Protocol::Ip6(bits) => addr.with(P::Ip6((*bits).into())),
        Protocol::Udp(port) => addr.with(P::Udp(*port)),
        Protocol::WebRtcDirect => addr.with(P::WebRTCDirect),
        Protocol::Certhash(h) => {
            addr.with(P::Certhash(multihash::Multihash::wrap(h.code, &h.digest).unwrap()))
        },
        Protocol::P2p | Protocol::Other => addr,
    }
}

/// `Multiaddr::iter`: the components in order, each converted.
#[verifier::external_body]
fn protocols(addr: &Multiaddr) -> (r: Vec<Protocol>)
    ensures
        as_components(r@) == components(*addr),
{
    let convert = |p| match p {
        P::Ip4(ip) => Protocol::Ip4(ip.into()),
        P::Ip6(ip) => Protocol::Ip6(ip.into()),
        P::Udp(port) => Protocol::Udp(port),
        P::WebRTCDirect => Protocol::WebRtcDirect,
        P::Certhash(h) => Protocol::Certhash(Multihash { code: h.code(), digest: h.digest().into() }),
        P::P2p(_) => Protocol::P2p,
        _ => Protocol::Other,
    };
    addr.iter().map(convert).collect()
}

/// The endpoint of the address component `ip` and the port component `udp`.
pub open spec fn component_endpoint(ip: Component, udp: Component) -> Option<SocketAddr> {
    match (ip, udp) {
        (Component::Ip4(bits), Component::Udp(port)) => Some(
            crate::net::endpoint(IpAddr::V4(bits), port),
        ),
        (Component::Ip6(bits), Component::Udp(port)) => Some(
            crate::net::endpoint(IpAddr::V6(bits), port),
        ),
        _ => None,
    }
}

/// What a multiaddress says to a listener: an address, a UDP port and `webrtc-direct`, no more.
pub open spec fn listen_endpoint(parts: Seq<Component>) -> Option<SocketAddr> {
    if parts.len() == 3 && parts[2] is WebRtcDirect {
        component_endpoint(parts[0], parts[1])
    } else {
        None
    }
}

/// The SHA-256 digest in a `certhash` component.
pub open spec fn certhash_digest(part: Component) -> Option<Seq<u8>> {
    match part {
        Component::Certhash(code, digest) => sha256_digest((code, digest)),
        _ => None,
    }
}

/// What a multiaddress says to a dialer: an address, a UDP port, `webrtc-direct` and a SHA-256
/// `certhash`, then nothing or a peer id.
pub open spec fn dial_endpoint(parts: Seq<Component>) -> Option<(SocketAddr, Seq<u8>)> {
    if parts.len() >= 4 && parts[2] is WebRtcDirect && (parts.len() == 4 || parts[4] is P2p) {
        match (component_endpoint(parts[0], parts[1]), certhash_digest(parts[3])) {
            (Some(endpoint), Some(digest)) => Some((endpoint, digest)),
            _ => None,
        }
    } else {
        None
    }
}

/// The components for an endpoint, with the digest of the certificate to expect there.
pub open spec fn endpoint_components(addr: SocketAddr, certhash: Option<Seq<u8>>) -> Seq<Component> {
    let ip = match addr.ip {
        IpAddr::V4(bits) => Component::Ip4(bits),
        IpAddr::V6(bits) => Component::Ip6(bits),
    };
    let base = seq![ip, Component::Udp(addr.port), Component::WebRtcDirect];
    match certhash {
        Some(digest) => base.push(Component::Certhash(MULTIHASH_SHA256_CODE, digest)),
        None => base,
    }
}

/// Turns an IP address and port into the corresponding WebRTC multiaddr.
pub fn socketaddr_to_multiaddr(socket_addr: &SocketAddr, certhash: Option<Fingerprint>) -> (r:
    Multiaddr)
    ensures
        components(r) == endpoint_components(*socket_addr, digest_of(certhash)),
{
    let ip = match socket_addr.ip {
        IpAddr::V4(bits) => Protocol::Ip4(bits),
        IpAddr::V6(bits) => Protocol::Ip6(bits),
    };
    let addr = with(empty_multiaddr(), &ip);
    let addr = with(addr, &Protocol::Udp(socket_addr.port));
    let addr = with(addr, &Protocol::WebRtcDirect);
    match certhash {
        Some(fp) => {
            let addr = with(addr, &Protocol::Certhash(fp.to_multihash()));
            assert(components(addr) =~= endpoint_components(*socket_addr, digest_of(certhash)));
            addr
        },
        None => {
            assert(components(addr) =~= endpoint_components(*socket_addr, digest_of(certhash)));
            addr
        },
    }
}

/// Parse the given [`Multiaddr`] into a [`SocketAddr`] for listening.
pub fn parse_webrtc_listen_addr(addr: &Multiaddr) -> (r: Option<SocketAddr>)
    ensures
        r == listen_endpoint(components(*addr)),
{
    let parts = protocols(addr);
    proof {
        assert forall|i: int| 0 <= i < parts@.len() implies #[trigger] components(*addr)[i]
            == parts@[i]@ by {
            assert(as_components(parts@)[i] == parts@[i]@);
        }
        assert(as_components(parts@).len() == parts@.len());
    }
    if parts.len() != 3 {
        return None;
    }
    assert(components(*addr)[0] == parts@[0]@);
    assert(components(*addr)[1] == parts@[1]@);
    assert(components(*addr)[2] == parts@[2]@);
    let ip = match &parts[0] {
        Protocol::Ip4(bits) => IpAddr::V4(*bits),
        Protocol::Ip6(bits) => IpAddr::V6(*bits),
        _ => return None,
    };
    match (&parts[1], &parts[2]) {
        (Protocol::Udp(port), Protocol::WebRtcDirect) => Some(SocketAddr::new(ip, *port)),
        _ => None,
    }
}

/// `parse_webrtc_dial_addr` of `libp2p_webrtc_utils`: the endpoint and the digest that the
/// multiaddress gives a dialer, as [`dial_endpoint`] says.
#[verifier::external_body]
fn outside_dial_addr(addr: &Multiaddr) -> (r: Option<(IpAddr, u16, [u8; 32])>)
    ensures
        match r {
            Some((ip, port, digest)) => dial_endpoint(components(*addr)) == Some(
                (crate::net::endpoint(ip, port), digest@),
            ),
            None => dial_endpoint(components(*addr)) is None,
        },
{
    let (sock, fp) = libp2p_webrtc_utils::parse_webrtc_dial_addr(addr)?;
    let ip = match P::from(sock.ip()) {
        P::Ip4(ip) => IpAddr::V4(ip.into()),
        P::Ip6(ip) => IpAddr::V6(ip.into()),
        _ => return None,
    };
    Some((ip, sock.port(), fp.to_multihash().digest().try_into().ok()?))
}

/// Parse the given [`Multiaddr`] into a [`SocketAddr`] and a [`Fingerprint`] for dialing.
pub fn parse_webrtc_dial_addr(addr: &Multiaddr) -> (r: Option<(SocketAddr, Fingerprint)>)
    ensures
        match r {
            Some((endpoint, fp)) => dial_endpoint(components(*addr)) == Some((endpoint, fp@)),
            None => dial_endpoint(components(*addr)) is None,
        },
{
    match outside_dial_addr(addr) {
        Some((ip, port, digest)) => Some((SocketAddr::new(ip, port), Fingerprint::raw(digest))),
        None => None,
    }
}

/// A listener that announces an endpoint without a certificate hash can be told to listen on the
/// same address again.
pub proof fn law_listen_round_trip(ip: IpAddr, port: u16)
    ensures
        listen_endpoint(endpoint_components(crate::net::endpoint(ip, port), None)) == Some(
            crate::net::endpoint(ip, port),
        ),
{
}

/// Who dials the address that a listener announces with its fingerprint gets the listener's
/// endpoint and fingerprint.
pub proof fn law_dial_round_trip(ip: IpAddr, port: u16, fp: Fingerprint)
    ensures
        dial_endpoint(endpoint_components(crate::net::endpoint(ip, port), Some(fp@))) == Some(
            (crate::net::endpoint(ip, port), fp@),
        ),
{
    fp.lemma_len();
}

/// No multiaddress serves both to listen and to dial: only the one to dial names a certificate.
pub proof fn law_listen_and_dial_disjoint(parts: Seq<Component>)
    ensures
        listen_endpoint(parts) is None || dial_endpoint(parts) is None,
{
}

/// The multiaddress of an endpoint names, in this order, its address, its UDP port, `webrtc-direct`
/// and, where one is to be expected, the SHA-256 hash of the certificate; nothing else.
pub proof fn law_multiaddress_names_the_endpoint(addr: SocketAddr, certhash: Option<Seq<u8>>)
    ensures
        ({
            let parts = endpoint_components(addr, certhash);
            &&& match addr.ip {
                IpAddr::V4(bits) => parts[0] == Component::Ip4(bits),
                IpAddr::V6(bits) => parts[0] == Component::Ip6(bits),
            }
            &&& parts[1] == Component::Udp(addr.port)
            &&& parts[2] == Component::WebRtcDirect
            &&& match certhash {
                Some(digest) => parts.len() == 4 && parts[3] == Component::Certhash(0x12, digest),
                None => parts.len() == 3,
            }
        }),
{
}

/// A listener is told by exactly the multiaddresses of an address, a UDP port and `webrtc-direct`
/// where to listen: there, and nowhere else.
pub proof fn law_listen_form(parts: Seq<Component>, ip: IpAddr, port: u16)
    ensures
        listen_endpoint(parts) == Some(SocketAddr { ip, port, flowinfo: 0, scope_id: 0 })
            <==> parts == seq![
            match ip {
                IpAddr::V4(bits) => Component::Ip4(bits),
                IpAddr::V6(bits) => Component::Ip6(bits),
            },
            Component::Udp(port),
            Component::WebRtcDirect,
        ],
        listen_endpoint(parts) is Some ==> parts.len() == 3 && (parts[0] is Ip4 || parts[0] is Ip6)
            && parts[1] is Udp,
{
    let form = seq![
        match ip {
            IpAddr::V4(bits) => Component::Ip4(bits),
            IpAddr::V6(bits) => Component::Ip6(bits),
        },
        Component::Udp(port),
        Component::WebRtcDirect,
    ];
    if listen_endpoint(parts) == Some(SocketAddr { ip, port, flowinfo: 0, scope_id: 0 }) {
        assert(parts =~= form);
    }
}

/// A dialer is told by exactly the multiaddresses of an address, a UDP port, `webrtc-direct` and a
/// SHA-256 hash of 32 bytes, with nothing or a peer id behind, whom to dial: the endpoint that the
/// first two name, with the certificate that the hash tells.
pub proof fn law_dial_form(parts: Seq<Component>, ip: IpAddr, port: u16, digest: Seq<u8>)
    ensures
        dial_endpoint(parts) == Some((SocketAddr { ip, port, flowinfo: 0, scope_id: 0 }, digest))
            <==> {
            &&& parts.len() >= 4
            &&& parts[0] == (match ip {
                IpAddr::V4(bits) => Component::Ip4(bits),
                IpAddr::V6(bits) => Component::Ip6(bits),
            })
            &&& parts[1] == Component::Udp(port)
            &&& parts[2] == Component::WebRtcDirect
            &&& parts[3] == Component::Certhash(0x12, digest)
            &&& digest.len() == 32
            &&& parts.len() == 4 || parts[4] is P2p
        },
        dial_endpoint(parts) is Some ==> parts.len() >= 4 && (parts[0] is Ip4 || parts[0] is Ip6)
            && parts[1] is Udp && parts[3] is Certhash,
{
}

/// The multiaddress that is made for an endpoint without a certificate is one to listen on, there; the
/// one with a certificate is one to dial, there, with the same digest. So what one side announces the
/// other can use, as long as there is neither flow label nor scope.
pub proof fn law_made_multiaddresses_are_read_back(
    addr: &SocketAddr,
    plain: Multiaddr,
    listened: Option<SocketAddr>,
    fp: Fingerprint,
    certified: Multiaddr,
    dialled: Option<(SocketAddr, Fingerprint)>,
)
    requires
        call_ensures(socketaddr_to_multiaddr, (addr, None::<Fingerprint>), plain),
        call_ensures(parse_webrtc_listen_addr, (&plain,), listened),
        call_ensures(socketaddr_to_multiaddr, (addr, Some(fp)), certified),
        call_ensures(parse_webrtc_dial_addr, (&certified,), dialled),
        addr.flowinfo == 0,
        addr.scope_id == 0,
    ensures
        listened == Some(*addr),
        dialled matches Some((at, expected)) && at == *addr && expected@ == fp@,
{
    law_dial_round_trip(addr.ip, addr.port, fp);
}

} // verus!
