use libp2p_identity::PeerId;
use str0m::change::DtlsCert;

use webrtc_direct::connection::{OpenConfig, OpeningEvent};
use webrtc_direct::error::Error;
use webrtc_direct::fingerprint::Fingerprint;
use webrtc_direct::net::{IpAddr, SocketAddr};
use webrtc_direct::rtc::Received;
use webrtc_direct::time::{Clock, Instant};
use webrtc_direct::udp_manager::{InputStep, UDPManager};
use webrtc_direct::upgrade::{
    make_rtc_client, noise_fingerprints, on_fed, on_handshake, on_opening_event, on_ready, outbound,
    outbound_rtc_client, outbound_rtc_client_with, Direction, Feeding, UpgradeStep,
};

fn addr(port: u16) -> SocketAddr {
    SocketAddr::new(IpAddr::V4(0x0a00_0001), port)
}

#[test]
fn inbound_clients_have_a_noise_channel() {
    let client = make_rtc_client("user", "secret", addr(2), addr(1));
    let channel = client.noise_channel.unwrap();
    assert_eq!(channel.label, "noise");
    assert_eq!(channel.protocol, "");
    assert_eq!(channel.negotiated, Some(0));
    assert!(!channel.ordered);
    assert_eq!(client.local_candidate, addr(1));
    assert_eq!(client.remote_candidate, addr(2));
}

#[test]
fn outbound_clients_are_in_the_lead() {
    let fp = Fingerprint::raw([8; 32]);
    let client = outbound_rtc_client_with("me", fp, addr(1), addr(2));
    assert!(client.ice_lite && client.ice_controlling && !client.fingerprint_verification);
    assert_eq!(client.local_candidate, addr(1));
    assert_eq!(client.remote_candidate, addr(2));
    assert_eq!(client.remote_fingerprint.to_bytes(), [8; 32]);
    assert!(client.remote_credentials.is_none());
    assert_eq!(client.local_credentials.ufrag, "me");
    assert_eq!(client.local_credentials.pass, "me");
    let channel = client.noise_channel.unwrap();
    assert_eq!(channel.label, "");
    assert_eq!(channel.protocol, "noise");
    assert_eq!(channel.negotiated, Some(0));
    assert!(!channel.ordered);
}

#[test]
fn outbound_user_names_are_random() {
    let fp = Fingerprint::raw([8; 32]);
    let one = outbound_rtc_client(fp, addr(1), addr(2)).local_credentials;
    let two = outbound_rtc_client(fp, addr(1), addr(2)).local_credentials;
    assert_ne!(one.ufrag, two.ufrag);
    for creds in [one, two] {
        assert_eq!(creds.ufrag, creds.pass);
        let random = creds.ufrag.strip_prefix("libp2p+webrtc+v1/").unwrap();
        assert_eq!(random.len(), 64);
        assert!(random.chars().all(|c| c.is_ascii_alphanumeric()));
    }
}

#[test]
fn upgrades_go_on_until_the_connection_opens() {
    let timeout = OpeningEvent::Timeout { timeout: Instant { nanos: 1 } };
    for direction in [Direction::Inbound, Direction::Outbound] {
        assert_eq!(on_opening_event(direction, OpeningEvent::Nothing), Ok(UpgradeStep::Poll));
        assert_eq!(
            on_opening_event(direction, OpeningEvent::ConnectionClosed),
            Err(Error::Disconnected)
        );
        let remote_fingerprint = Fingerprint::raw([2; 32]);
        assert_eq!(
            on_opening_event(direction, OpeningEvent::ConnectionOpened { remote_fingerprint }),
            Ok(UpgradeStep::Handshake { remote_fingerprint })
        );
    }
    assert_eq!(on_opening_event(Direction::Inbound, timeout), Ok(UpgradeStep::FeedAgain));
    assert_eq!(on_opening_event(Direction::Outbound, timeout), Ok(UpgradeStep::Poll));
}

#[test]
fn what_the_stack_says_of_the_message() {
    assert_eq!(on_fed(Received::Taken), Ok(Feeding::Done));
    assert_eq!(on_fed(Received::HandOver), Ok(Feeding::HandOver));
    assert_eq!(on_fed(Received::Unusable), Err(Error::InvalidData));
    assert_eq!(on_fed(Received::Rejected("r".to_string())), Err(Error::Net("r".to_string())));
    assert_eq!(on_fed(Received::Failed("f".to_string())), Err(Error::WebRtc("f".to_string())));
}

#[test]
fn the_handshake_authenticates_the_peer() {
    let own = Fingerprint::raw([1; 32]);
    let remote = Fingerprint::raw([2; 32]);
    let fingerprints = noise_fingerprints(Direction::Outbound, own, remote);
    assert_eq!(fingerprints.client, own);
    assert_eq!(fingerprints.server, remote);
    // the other side has the same
    assert_eq!(noise_fingerprints(Direction::Inbound, remote, own), fingerprints);
    let peer = PeerId::random();
    assert_eq!(on_handshake(Some(peer)).ok().unwrap().peer_id, peer);
    assert_eq!(on_handshake(None).err(), Some(Error::NoiseHandshakeFailed));
}

#[test]
fn open_connections_are_registered() {
    let mut manager: UDPManager<&str> =
        UDPManager::with_config(addr(1), DtlsCert::new_openssl(), Clock::start());
    let peer_id = PeerId::random();
    let fingerprint = Fingerprint::raw([4; 32]);
    let cert = DtlsCert::new_openssl();
    let started = outbound(addr(1), addr(2), fingerprint, cert, Clock::start()).ok().unwrap();
    let connection = started.connection.open(OpenConfig { peer_id });
    assert_eq!(on_ready(&mut manager, &connection, None), Err(Error::Receive));
    assert!(!manager.open.contains_key(addr(2)));
    assert_eq!(on_ready(&mut manager, &connection, Some("tx")), Ok(()));
    assert_eq!(manager.open.get(addr(2)).unwrap().tx, "tx");
    assert!(!manager.open.contains_key(addr(1)));
    // whatever comes from the peer goes to the connection
    for datagram in [&b""[..], &[22, 254, 253], &[99]] {
        assert_eq!(manager.on_socket_input(addr(2), datagram), Ok(InputStep::Relay));
    }
}
