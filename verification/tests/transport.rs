use libp2p_core::transport::ListenerId;
use libp2p_core::Multiaddr;
use libp2p_identity::Keypair;

use webrtc_direct::certificate::Certificate;
use webrtc_direct::error::{Error, ErrorKind, IoError};
use webrtc_direct::fingerprint::Fingerprint;
use webrtc_direct::multiaddr::socketaddr_to_multiaddr;
use webrtc_direct::net::{IpAddr, SocketAddr};
use webrtc_direct::transport::{
    Config, IfEvent, ListenStep, ListenStream, Transport, TransportError, TransportEvent,
};
use webrtc_direct::udp_manager::{NewRemote, UDPManagerEvent};

fn v4(bits: u32) -> IpAddr {
    IpAddr::V4(bits)
}

fn fp() -> Fingerprint {
    Fingerprint::raw([6; 32])
}

fn transport() -> Transport {
    Transport::new(Keypair::generate_ed25519(), Certificate::generate())
}

fn listen_stream(addr: SocketAddr) -> ListenStream<u8> {
    ListenStream::new(ListenerId::next(), fp(), addr)
}

fn text(addr: SocketAddr) -> String {
    socketaddr_to_multiaddr(&addr, Some(fp())).to_string()
}

/// What is ready, in words.
fn ready(step: ListenStep) -> String {
    match step {
        ListenStep::Ready(None) => "end".to_string(),
        ListenStep::Ready(Some(TransportEvent::NewAddress { listen_addr, .. })) => {
            format!("new {listen_addr}")
        }
        ListenStep::Ready(Some(TransportEvent::AddressExpired { listen_addr, .. })) => {
            format!("expired {listen_addr}")
        }
        ListenStep::Ready(Some(TransportEvent::Incoming {
            remote,
            destination,
            local_addr,
            send_back_addr,
            ..
        })) => format!("{:?} {:?} {local_addr} {send_back_addr}", remote.addr, destination),
        ListenStep::Ready(Some(TransportEvent::ListenerClosed { reason, .. })) => {
            format!("closed {reason:?}")
        }
        ListenStep::Ready(Some(TransportEvent::ListenerError { error, .. })) => {
            format!("error {error:?}")
        }
        ListenStep::PollIfWatcher => "interfaces".to_string(),
        ListenStep::PollUdp => "socket".to_string(),
        ListenStep::Pending => "pending".to_string(),
    }
}

#[test]
fn where_to_listen() {
    let addr: Multiaddr = "/ip4/0.0.0.0/udp/9/webrtc-direct".parse().unwrap();
    assert_eq!(transport().listen_on(addr).ok(), Some(SocketAddr::new(v4(0), 9)));
    let addr: Multiaddr = "/ip4/0.0.0.0/tcp/9".parse().unwrap();
    match transport().listen_on(addr.clone()) {
        Err(TransportError::MultiaddrNotSupported(back)) => assert_eq!(back, addr),
        _ => panic!("supported"),
    }
}

#[test]
fn whom_to_dial() {
    let remote = SocketAddr::new(v4(0x0102_0304), 80);
    let target = transport().dial(socketaddr_to_multiaddr(&remote, Some(fp()))).ok().unwrap();
    assert_eq!(target.addr, remote);
    assert_eq!(target.remote_fingerprint.to_bytes(), [6; 32]);
    for bad in [SocketAddr::new(v4(0x0102_0304), 0), SocketAddr::new(v4(0), 80)] {
        let addr = socketaddr_to_multiaddr(&bad, Some(fp()));
        match transport().dial(addr.clone()) {
            Err(TransportError::MultiaddrNotSupported(back)) => assert_eq!(back, addr),
            _ => panic!("supported"),
        }
    }
    assert!(transport().dial(socketaddr_to_multiaddr(&remote, None)).is_err());
}

#[test]
fn failures_of_a_transport() {
    assert!(matches!(
        transport().on_bind_failed(),
        TransportError::Other(Error::Disconnected)
    ));
    let error = IoError::new(ErrorKind::PermissionDenied, "no");
    match transport().on_watch_failed(error) {
        TransportError::Other(Error::Io(e)) => assert_eq!(e.message, "no"),
        _ => panic!("other"),
    }
    assert!(transport().poll(None).is_none());
    assert!(transport().poll(Some(None)).is_none());
    let listener_id = ListenerId::next();
    let event = TransportEvent::ListenerClosed { listener_id, reason: Ok(()) };
    assert!(transport().poll(Some(Some(event))).is_some());
}

#[test]
fn a_config_holds_keys_and_certificate() {
    let keys = Keypair::generate_ed25519();
    let certificate = Certificate::generate();
    let digest = certificate.fingerprint().unwrap().to_bytes();
    let config = Config::new(keys.clone(), certificate);
    assert_eq!(config.fingerprint().to_bytes(), digest);
    assert_eq!(config.dtls_cert().unwrap().fingerprint().bytes, digest.to_vec());
    assert_eq!(config.id_keys().public(), keys.public());
}

#[test]
fn a_single_interface_is_reported_at_once() {
    let addr = SocketAddr::new(v4(0x0a00_0001), 9);
    let mut listener = listen_stream(addr);
    assert!(!listener.watching);
    assert_eq!(ready(listener.poll_next()), format!("new {}", text(addr)));
    assert_eq!(ready(listener.poll_next()), "socket");
    let (step, wake) = listener.on_udp_event(None);
    assert_eq!(ready(step), "pending");
    assert!(wake.is_none());
}

#[test]
fn interfaces_are_watched_by_a_wildcard() {
    let mut listener = listen_stream(SocketAddr::new(v4(0), 9));
    assert_eq!(ready(listener.poll_next()), "interfaces");

    // another family is passed over
    let (step, moved) = listener.on_if_event(Some(IfEvent::Up(IpAddr::V6(7))));
    assert_eq!(ready(step), "interfaces");
    assert!(moved.is_none());

    // a loopback address is reported, not adopted
    let loopback = SocketAddr::new(v4(0x7f00_0001), 9);
    let (step, moved) = listener.on_if_event(Some(IfEvent::Up(loopback.ip)));
    assert_eq!(ready(step), format!("new {}", text(loopback)));
    assert!(moved.is_none());
    assert_eq!(listener.listen_addr, SocketAddr::new(v4(0), 9));

    // the first other one is adopted
    let own = SocketAddr::new(v4(0x0a00_0001), 9);
    let (step, moved) = listener.on_if_event(Some(IfEvent::Up(own.ip)));
    assert_eq!(ready(step), format!("new {}", text(own)));
    assert_eq!(moved, Some(own));
    assert_eq!(listener.listen_addr, own);

    // and kept
    let next = SocketAddr::new(v4(0x0a00_0002), 9);
    let (step, moved) = listener.on_if_event(Some(IfEvent::Up(next.ip)));
    assert_eq!(ready(step), format!("new {}", text(next)));
    assert!(moved.is_none());
    assert_eq!(listener.listen_addr, own);

    let (step, _) = listener.on_if_event(Some(IfEvent::Down(next.ip)));
    assert_eq!(ready(step), format!("expired {}", text(next)));
    let error = IoError::new(ErrorKind::Other, "x");
    let (step, _) = listener.on_if_event(Some(IfEvent::Failed(error)));
    assert!(ready(step).starts_with("error Io"));
    let (step, _) = listener.on_if_event(None);
    assert_eq!(ready(step), "socket");
}

#[test]
fn an_ipv6_address_is_adopted_by_the_listener_alone() {
    let mut listener = listen_stream(SocketAddr::new(IpAddr::V6(0), 9));
    let own = SocketAddr::new(IpAddr::V6(0x2001 << 112 | 1), 9);
    let (_, moved) = listener.on_if_event(Some(IfEvent::Up(own.ip)));
    assert!(moved.is_none());
    assert_eq!(listener.listen_addr, own);
}

#[test]
fn new_remotes_come_in_order() {
    let addr = SocketAddr::new(v4(0x0a00_0001), 9);
    let mut listener = listen_stream(addr);
    ready(listener.poll_next());
    let a = SocketAddr::new(v4(0x0a00_0002), 1);
    let b = SocketAddr::new(v4(0x0a00_0002), 2);
    let remotes = vec![NewRemote { addr: a }, NewRemote { addr: b }];
    let (step, _) = listener.on_udp_event(Some(UDPManagerEvent::NewRemoteAddress(remotes)));
    let expect = |remote: SocketAddr| {
        let back = socketaddr_to_multiaddr(&remote, None);
        format!("{:?} {:?} {} {back}", remote, addr, text(addr))
    };
    assert_eq!(ready(step), expect(a));
    assert_eq!(ready(listener.poll_next()), expect(b));
    assert_eq!(ready(listener.poll_next()), "socket");
    let (step, _) = listener.on_udp_event(Some(UDPManagerEvent::NewRemoteAddress(vec![])));
    assert_eq!(ready(step), "pending");
}

#[test]
fn a_failing_socket_closes_the_listener_once() {
    let mut listener = listen_stream(SocketAddr::new(v4(0x0a00_0001), 9));
    ready(listener.poll_next());
    listener.close_listener_waker = Some(7);
    let error = Error::IoErr(ErrorKind::BrokenPipe);
    let (step, wake) = listener.on_udp_event(Some(UDPManagerEvent::Error(error)));
    assert_eq!(ready(step), "closed Err(IoErr(BrokenPipe))");
    assert_eq!(wake, Some(7));
    assert_eq!(ready(listener.poll_next()), "end");
    assert_eq!(ready(listener.poll_next()), "end");
}

#[test]
fn the_first_reason_counts() {
    let addr = SocketAddr::new(v4(0x0a00_0001), 9);
    let mut listener = listen_stream(addr);
    listener.wait(0);
    listener.wait(1);
    assert_eq!(listener.close_listener_waker, Some(1));
    assert_eq!(listener.close(Ok(())), Some(1));
    assert_eq!(listener.close(Err(Error::Disconnected)), None);
    // what was pending comes first
    assert_eq!(ready(listener.poll_next()), format!("new {}", text(addr)));
    assert_eq!(ready(listener.poll_next()), "closed Ok(())");
    assert_eq!(ready(listener.poll_next()), "end");
}
