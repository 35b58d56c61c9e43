use std::time::{Duration, Instant as SystemInstant};

use str0m::change::DtlsCert;
use str0m::{Event, IceConnectionState, Output};

use webrtc_direct::connection::OpeningEvent;
use webrtc_direct::error::{Error, ErrorKind};
use webrtc_direct::fingerprint::Fingerprint;
use webrtc_direct::net::{IpAddr, SocketAddr};
use webrtc_direct::rtc::{RtcStack, StackOutput};
use webrtc_direct::time::{Clock, Instant};
use webrtc_direct::udp_manager::{
    conclude, make_rtc_client, on_opening_fed, on_progress, on_socket_error, on_timeout_fed,
    socket_options, ConnectionEvent, ExpiredStep, Fed, InputStep, NewRemote, PollStep, Timer,
    UDPManager, UDPManagerEvent, RECEIVE_MTU,
};
use webrtc_direct::upgrade;

fn addr(last: u32, port: u16) -> SocketAddr {
    SocketAddr::new(IpAddr::V4(0x0a00_0000 + last), port)
}

fn listen_addr() -> SocketAddr {
    addr(1, 4001)
}

fn remote() -> SocketAddr {
    addr(2, 5001)
}

fn manager() -> UDPManager<u8> {
    UDPManager::with_config(listen_addr(), DtlsCert::new_openssl(), Clock::start())
}

fn attribute(typ: u16, value: &[u8]) -> Vec<u8> {
    let mut bytes = typ.to_be_bytes().to_vec();
    bytes.extend((value.len() as u16).to_be_bytes());
    bytes.extend(value);
    while bytes.len() % 4 != 0 {
        bytes.push(0);
    }
    bytes
}

fn binding_request(username: &str) -> Vec<u8> {
    let body: Vec<u8> = [
        attribute(0x0006, username.as_bytes()),
        attribute(0x0024, &[0, 0, 0, 1]),
        attribute(0x0008, &[0; 20]),
    ]
    .concat();
    let mut bytes = vec![0, 1];
    bytes.extend((body.len() as u16).to_be_bytes());
    bytes.extend([0x21, 0x12, 0xa4, 0x42]);
    bytes.extend([7u8; 12]);
    bytes.extend(body);
    bytes
}

#[test]
fn stun_opens_a_connection() {
    let mut manager = manager();
    assert_eq!(manager.on_socket_input(remote(), &binding_request("a:b")), Ok(InputStep::Poll));
    let opening = manager.opening.get(remote()).unwrap();
    assert_eq!(opening.connection.peer_address.addr(), remote());
    assert_eq!(opening.connection.local_address, listen_addr());
    assert!(opening.rtc.is_alive());
    assert_eq!(opening.connection.channel(0), None);
    assert_eq!(opening.connection.drop_listeners, 0);
    // where no connection opens there is none to poll
    let other = manager.on_socket_input(addr(3, 1), &[22, 254, 253, 0, 0]);
    assert_eq!(other, Ok(InputStep::Ignore));
    assert!(!manager.opening.contains_key(addr(3, 1)));
}

#[test]
fn datagrams_nobody_wants() {
    let mut manager = manager();
    assert_eq!(manager.on_socket_input(remote(), &[]), Err(Error::InvalidData));
    assert_eq!(manager.on_socket_input(remote(), &[99]), Err(Error::InvalidData));
    assert_eq!(manager.on_socket_input(remote(), &binding_request("noname")), Err(Error::InvalidData));
    assert!(manager.opening.keys().is_empty());
}

#[test]
fn open_connections_get_everything() {
    let mut manager = manager();
    manager.register_open(remote(), 42);
    assert_eq!(manager.open.get(remote()).unwrap().tx, 42);
    for datagram in [vec![], vec![99], binding_request("a:b")] {
        assert_eq!(manager.on_socket_input(remote(), &datagram), Ok(InputStep::Relay));
    }
    assert!(manager.opening.keys().is_empty());
}

#[test]
fn no_connection_between_addresses_that_cannot_be_candidates() {
    let mut manager = manager();
    manager.set_listen_addr(SocketAddr::new(IpAddr::V4(0), 4001));
    assert_eq!(manager.listen_addr(), SocketAddr::new(IpAddr::V4(0), 4001));
    let request = binding_request("a:b");
    assert_eq!(manager.on_socket_input(remote(), &request), Ok(InputStep::NoCandidate));
    manager.set_listen_addr(listen_addr());
    let multicast = SocketAddr::new(IpAddr::V4(0xe000_0001), 1);
    assert_eq!(manager.on_socket_input(multicast, &request), Ok(InputStep::NoCandidate));
    assert!(manager.opening.keys().is_empty());
}

#[test]
fn a_stack_that_fails_opens_nothing() {
    let mut manager = manager();
    let client = upgrade::make_rtc_client("u", "u", remote(), listen_addr());
    let (rtc, _) = RtcStack::set_up(&client, DtlsCert::new_openssl(), Clock::start());
    let failed = manager.on_client_fed(remote(), rtc, Err("broken".to_string()));
    assert_eq!(failed, Err(Error::WebRtc("broken".to_string())));
    assert!(!manager.opening.contains_key(remote()));
    let (rtc, _) = RtcStack::set_up(&client, DtlsCert::new_openssl(), Clock::start());
    assert_eq!(manager.on_client_fed(remote(), rtc, Ok(())), Ok(InputStep::Poll));
    assert!(manager.opening.contains_key(remote()));
}

#[test]
fn polling_an_unknown_connection_closes_it() {
    let mut manager = manager();
    let poll = manager.poll_connection(remote(), StackOutput::Other).unwrap();
    assert_eq!(poll.step, PollStep::Done(ConnectionEvent::ConnectionClosed));
    assert!(poll.actions.is_empty());
    assert!(manager.opening_mut(remote()).is_none());
    assert_eq!(manager.on_handed_over(remote(), Ok(())), Err(Error::InputRejected));
}

#[test]
fn an_unauthentic_request_comes_to_nothing() {
    let mut manager = manager();
    manager.on_socket_input(remote(), &binding_request("a:b")).unwrap();
    let start = SystemInstant::now();
    loop {
        assert!(start.elapsed() < Duration::from_secs(10));
        // as long as nothing comes, the stack has timeouts and changes of its state
        let rtc = &mut manager.opening_mut(remote()).unwrap().rtc;
        let output = match rtc.stack().poll_output().unwrap() {
            Output::Timeout(at) => StackOutput::Timeout(rtc.at(&at)),
            Output::Event(Event::IceConnectionStateChange(IceConnectionState::Disconnected)) => {
                StackOutput::IceDisconnected
            }
            Output::Event(_) => StackOutput::Other,
            Output::Transmit(_) => panic!("transmit"),
        };
        match manager.poll_connection(remote(), output).unwrap().step {
            PollStep::Done(ConnectionEvent::ConnectionEstablished) => panic!("established"),
            PollStep::Done(ConnectionEvent::ConnectionClosed) => break,
            _ => {}
        }
    }
    // a stack that was disconnected is closed at once
    manager.on_socket_input(remote(), &binding_request("a:b")).unwrap();
    manager.opening.get_mut(remote()).unwrap().rtc.disconnect();
    let poll = manager.poll_connection(remote(), StackOutput::Other).unwrap();
    assert_eq!(poll.step, PollStep::Done(ConnectionEvent::ConnectionClosed));
}

#[test]
fn what_becomes_of_dtls_that_was_handed_over() {
    let mut manager = manager();
    let client = upgrade::make_rtc_client("u", "u", remote(), listen_addr());
    let (rtc, _) = RtcStack::set_up(&client, DtlsCert::new_openssl(), Clock::start());
    manager.on_client_fed(remote(), rtc, Ok(())).unwrap();
    // without an ICE connection the stack does not want it
    let step = manager.on_socket_input(remote(), &[22, 254, 253, 0, 0]);
    assert_eq!(step, Err(Error::InputRejected));
    assert_eq!(manager.on_handed_over(remote(), Ok(())), Ok(InputStep::Poll));
    assert!(manager.opening.get(remote()).unwrap().rtc.is_alive());
    let failed = manager.on_handed_over(remote(), Err("broken".to_string()));
    assert_eq!(failed, Err(Error::InputRejected));
    assert!(!manager.opening.get(remote()).unwrap().rtc.is_alive());
    let poll = manager.poll_connection(remote(), StackOutput::Other).unwrap();
    assert_eq!(poll.step, PollStep::Done(ConnectionEvent::ConnectionClosed));
    // more than the socket reads at once
    let long = vec![22u8; RECEIVE_MTU + 1];
    assert_eq!(manager.on_socket_input(remote(), &long), Err(Error::InvalidData));
}

#[test]
fn steps_of_polling() {
    let now = Instant { nanos: 10 };
    let closed = PollStep::Done(ConnectionEvent::ConnectionClosed);
    assert_eq!(on_progress(None, now), closed);
    assert_eq!(on_progress(Some(OpeningEvent::ConnectionClosed), now), closed);
    assert_eq!(on_progress(Some(OpeningEvent::Nothing), now), PollStep::Again);
    let opened = OpeningEvent::ConnectionOpened { remote_fingerprint: Fingerprint::ff() };
    let established = PollStep::Done(ConnectionEvent::ConnectionEstablished);
    assert_eq!(on_progress(Some(opened), now), established);
    let at = |nanos| Some(OpeningEvent::Timeout { timeout: Instant { nanos } });
    assert_eq!(on_progress(at(10), now), PollStep::FeedTimeout);
    assert_eq!(
        on_progress(at(17), now),
        PollStep::Done(ConnectionEvent::Timeout { nanos: 7 })
    );
    assert_eq!(on_timeout_fed(Ok(())), PollStep::Again);
    assert_eq!(on_timeout_fed(Err(Error::Disconnected)), closed);
    assert_eq!(on_opening_fed(Fed::Taken), Ok(InputStep::Poll));
    assert_eq!(on_opening_fed(Fed::NotAccepted), Err(Error::InputRejected));
    assert_eq!(on_opening_fed(Fed::Failed), Err(Error::InputRejected));
}

#[test]
fn a_new_remote_is_pending_once() {
    let mut manager = manager();
    let mut pending = vec![];
    let now = Instant { nanos: 10 };
    let established = ConnectionEvent::ConnectionEstablished;
    assert!(manager.on_connection_event(&mut pending, remote(), established, now));
    assert!(manager.on_connection_event(&mut pending, remote(), established, now));
    assert!(manager.on_connection_event(&mut pending, addr(3, 1), established, now));
    assert_eq!(pending, vec![NewRemote { addr: remote() }, NewRemote { addr: addr(3, 1) }]);
}

#[test]
fn timers_expire() {
    let mut manager = manager();
    let mut pending = vec![];
    let now = Instant { nanos: 10 };
    assert_eq!(manager.next_timer(now), None);
    let wait = ConnectionEvent::Timeout { nanos: 5 };
    assert!(!manager.on_connection_event(&mut pending, remote(), wait, now));
    assert_eq!(manager.timeouts.get(remote()), Some(&Timer::At(Instant { nanos: 15 })));
    assert_eq!(manager.next_timer(Instant { nanos: 12 }), Some(3));
    assert_eq!(manager.next_timer(Instant { nanos: 99 }), Some(0));
    assert!(manager.expired(Instant { nanos: 14 }).is_empty());
    assert_eq!(manager.expired(Instant { nanos: 15 }), vec![remote()]);
    let far = ConnectionEvent::Timeout { nanos: u64::MAX };
    assert!(!manager.on_connection_event(&mut pending, addr(3, 1), far, now));
    assert_eq!(manager.expired(Instant { nanos: 100 }), vec![remote()]);
    assert_eq!(manager.next_timer(Instant { nanos: 12 }), Some(3));

    // a timeout that is registered anew is waited for
    let step = manager.on_expired_event(false, remote(), wait, Instant { nanos: 100 });
    assert_eq!(step, ExpiredStep::Done(None));
    assert_eq!(manager.timeouts.get(remote()), Some(&Timer::At(Instant { nanos: 105 })));
    assert!(manager.expired(Instant { nanos: 104 }).is_empty());
    assert_eq!(manager.expired(Instant { nanos: 105 }), vec![remote()]);
    assert!(pending.is_empty());
}

#[test]
fn what_becomes_of_an_expired_connection() {
    let mut manager = manager();
    manager.on_socket_input(remote(), &binding_request("a:b")).unwrap();
    let established = ConnectionEvent::ConnectionEstablished;
    let now = Instant { nanos: 0 };
    let again = manager.on_expired_event(false, remote(), established, now);
    assert_eq!(again, ExpiredStep::Again { established: true });
    let wait = ConnectionEvent::Timeout { nanos: 5 };
    let done = manager.on_expired_event(true, remote(), wait, now);
    assert_eq!(done, ExpiredStep::Done(Some(NewRemote { addr: remote() })));
    assert!(manager.opening.contains_key(remote()));
    let closed = ConnectionEvent::ConnectionClosed;
    assert!(manager.timeouts.contains_key(remote()));
    assert_eq!(manager.on_expired_event(true, remote(), closed, now), ExpiredStep::Done(None));
    assert!(!manager.opening.contains_key(remote()));
    assert!(!manager.timeouts.contains_key(remote()));
    let mut pending = vec![];
    manager.on_connection_event(&mut pending, remote(), wait, now);
    assert!(!manager.on_connection_event(&mut pending, remote(), closed, now));
    assert!(!manager.timeouts.contains_key(remote()));
}

#[test]
fn the_outcome_of_a_poll() {
    let one = NewRemote { addr: addr(1, 1) };
    let two = NewRemote { addr: addr(2, 2) };
    assert_eq!(conclude(vec![], vec![]), None);
    assert_eq!(
        conclude(vec![one], vec![two]),
        Some(UDPManagerEvent::NewRemoteAddress(vec![one, two]))
    );
    assert_eq!(
        on_socket_error(ErrorKind::ConnectionReset),
        UDPManagerEvent::Error(Error::IoErr(ErrorKind::ConnectionReset))
    );
    assert_eq!(RECEIVE_MTU, 8192);
}

#[test]
fn sockets_are_of_their_family() {
    let options = socket_options(listen_addr());
    assert!(!options.ipv6 && !options.only_v6);
    assert!(options.reuse_address && options.reuse_port && options.nonblocking);
    let options = socket_options(SocketAddr::new(IpAddr::V6(1), 1));
    assert!(options.ipv6 && options.only_v6);
}

#[test]
fn clients_for_inbound_connections() {
    let client = make_rtc_client("user", "secret", remote(), listen_addr());
    assert!(client.ice_lite && !client.fingerprint_verification);
    assert_eq!(client.local_candidate, listen_addr());
    assert_eq!(client.remote_candidate, remote());
    assert_eq!(client.remote_fingerprint.to_bytes(), [0xff; 32]);
    let creds = client.remote_credentials.as_ref().unwrap();
    assert_eq!((creds.ufrag.as_str(), creds.pass.as_str()), ("user", "secret"));
    assert_eq!(client.remote_credentials.as_ref(), Some(&client.local_credentials));
    assert!(!client.ice_controlling && !client.dtls_active && !client.sctp_client);
    assert_eq!(client, upgrade::make_rtc_client("user", "secret", remote(), listen_addr()));
    let channel = client.noise_channel.unwrap();
    assert_eq!((channel.label.as_str(), channel.protocol.as_str()), ("noise", ""));
    assert_eq!((channel.negotiated, channel.ordered), (Some(0), false));
}
