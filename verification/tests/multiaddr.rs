use libp2p_core::Multiaddr;
use webrtc_direct::fingerprint::Fingerprint;
use webrtc_direct::multiaddr::{
    parse_webrtc_dial_addr, parse_webrtc_listen_addr, socketaddr_to_multiaddr,
};
use webrtc_direct::net::{IpAddr, SocketAddr};

fn v4(port: u16) -> SocketAddr {
    SocketAddr::new(IpAddr::V4(0x7f00_0001), port)
}

fn v6(port: u16) -> SocketAddr {
    SocketAddr::new(IpAddr::V6(1), port)
}

#[test]
fn listen_addresses() {
    let addr: Multiaddr = "/ip4/127.0.0.1/udp/1234/webrtc-direct".parse().unwrap();
    assert_eq!(parse_webrtc_listen_addr(&addr), Some(v4(1234)));
    let addr: Multiaddr = "/ip6/::1/udp/1234/webrtc-direct".parse().unwrap();
    assert_eq!(parse_webrtc_listen_addr(&addr), Some(v6(1234)));
}

#[test]
fn no_listen_addresses() {
    for text in [
        "/ip4/127.0.0.1/tcp/1234",
        "/ip4/127.0.0.1/udp/1234/quic-v1",
        "/dns4/example.com/udp/1234/webrtc-direct",
        "/ip4/127.0.0.1/udp/1234",
        "/ip4/127.0.0.1/udp/1234/webrtc-direct/p2p/12D3KooWQAqZWWCJvVB7aqyXJyPSmyVG3AX7KP9TLQcTcMUWuYmh",
    ] {
        let addr: Multiaddr = text.parse().unwrap();
        assert_eq!(parse_webrtc_listen_addr(&addr), None, "{text}");
    }
    assert_eq!(parse_webrtc_listen_addr(&Multiaddr::empty()), None);
}

#[test]
fn announced_addresses_can_be_listened_on_and_dialled() {
    for endpoint in [v4(4001), v6(0)] {
        let plain = socketaddr_to_multiaddr(&endpoint, None);
        assert_eq!(parse_webrtc_listen_addr(&plain), Some(endpoint));
        assert!(parse_webrtc_dial_addr(&plain).is_none());
        let fp = Fingerprint::raw([3; 32]);
        let certified = socketaddr_to_multiaddr(&endpoint, Some(fp));
        assert_eq!(parse_webrtc_listen_addr(&certified), None);
        let (dialled, digest) = parse_webrtc_dial_addr(&certified).unwrap();
        assert_eq!(dialled, endpoint);
        assert_eq!(digest.to_bytes(), [3; 32]);
    }
}

#[test]
fn the_text_of_an_announced_address() {
    let plain = socketaddr_to_multiaddr(&v4(4001), None);
    assert_eq!(plain.to_string(), "/ip4/127.0.0.1/udp/4001/webrtc-direct");
    let certified = socketaddr_to_multiaddr(&v4(4001), Some(Fingerprint::raw([3; 32])));
    assert!(certified.to_string().starts_with("/ip4/127.0.0.1/udp/4001/webrtc-direct/certhash/uEi"));
}

#[test]
fn dial_addresses_may_name_the_peer() {
    let fp = Fingerprint::raw([9; 32]);
    let certified = socketaddr_to_multiaddr(&v4(7), Some(fp));
    let text = format!("{certified}/p2p/12D3KooWQAqZWWCJvVB7aqyXJyPSmyVG3AX7KP9TLQcTcMUWuYmh");
    let addr: Multiaddr = text.parse().unwrap();
    let (dialled, digest) = parse_webrtc_dial_addr(&addr).unwrap();
    assert_eq!(dialled, v4(7));
    assert_eq!(digest.to_bytes(), [9; 32]);
}
