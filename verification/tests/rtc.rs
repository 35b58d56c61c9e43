use std::time::{Duration, Instant as SystemInstant};

use libp2p_core::multiaddr::Protocol as AddrProtocol;
use libp2p_identity::PeerId;
use str0m::change::DtlsCert;
use str0m::channel::ChannelConfig as StackChannelConfig;
use str0m::net::{DatagramRecv, Protocol, Receive};
use str0m::{Candidate, Event, IceConnectionState, IceCreds, Input, Output, Rtc};

use webrtc_direct::channel::{ChannelId, RtcDataChannelState, StateUpdate, StateValues};
use webrtc_direct::connection::{
    Action, Connection, HandshakeState, OpenConfig, Opening, OpeningEvent, RtcOutput, StageEvent,
    TimeoutInput,
};
use webrtc_direct::error::{Error, ErrorKind};
use webrtc_direct::fingerprint::Fingerprint;
use webrtc_direct::net::{IpAddr, SocketAddr};
use webrtc_direct::poll_data_channel::{Close, PollDataChannel};
use webrtc_direct::rtc::{Polled, Received, RtcStack, StackOutput, Written};
use webrtc_direct::time::{Clock, Instant};
use webrtc_direct::udp_manager::{InputStep, UDPManager};
use webrtc_direct::upgrade::{self, Direction, Feeding, NewRemoteAddress, UpgradeStep};

const UFRAG: &str = "libp2p+webrtc+v1/abcd";

fn addr(last: u32, port: u16) -> SocketAddr {
    SocketAddr::new(IpAddr::V4(0x0a00_0000 + last), port)
}

fn server_addr() -> SocketAddr {
    addr(1, 4001)
}

fn client_addr() -> SocketAddr {
    addr(2, 5001)
}

fn attribute(typ: u16, value: &[u8]) -> Vec<u8> {
    let mut bytes = typ.to_be_bytes().to_vec();
    bytes.extend((value.len() as u16).to_be_bytes());
    bytes.extend(value);
    while bytes.len() % 4 != 0 {
        bytes.push(0);
    }
    bytes
}

fn stun(typ: u16, attributes: &[Vec<u8>]) -> Vec<u8> {
    let body: Vec<u8> = attributes.concat();
    let mut bytes = typ.to_be_bytes().to_vec();
    bytes.extend((body.len() as u16).to_be_bytes());
    bytes.extend([0x21, 0x12, 0xa4, 0x42]);
    bytes.extend([7u8; 12]);
    bytes.extend(body);
    bytes
}

fn binding_request(username: &str) -> Vec<u8> {
    stun(
        0x0001,
        &[
            attribute(0x0006, username.as_bytes()),
            attribute(0x0024, &[0, 0, 0, 1]),
            attribute(0x0008, &[0; 20]),
        ],
    )
}

fn answering_stack() -> RtcStack {
    let client = upgrade::make_rtc_client(UFRAG, UFRAG, client_addr(), server_addr());
    let (rtc, channel) = RtcStack::set_up(&client, DtlsCert::new_openssl(), Clock::start());
    assert_eq!(channel, Some(0));
    rtc
}

/// Polls a stack, once.
fn poll(rtc: &mut RtcStack) -> StackOutput {
    match rtc.stack().poll_output() {
        Err(_) => StackOutput::Failed,
        Ok(Output::Timeout(at)) => StackOutput::Timeout(rtc.at(&at)),
        Ok(Output::Transmit(t)) => {
            let ip = match AddrProtocol::from(t.destination.ip()) {
                AddrProtocol::Ip4(ip) => IpAddr::V4(ip.into()),
                AddrProtocol::Ip6(ip) => IpAddr::V6(ip.into()),
                other => panic!("{other:?}"),
            };
            StackOutput::Transmit {
                destination: SocketAddr::new(ip, t.destination.port()),
                contents: t.contents.to_vec(),
            }
        }
        Ok(Output::Event(Event::Connected)) => StackOutput::Connected,
        Ok(Output::Event(Event::IceConnectionStateChange(IceConnectionState::Disconnected))) => {
            StackOutput::IceDisconnected
        }
        Ok(Output::Event(Event::ChannelOpen(id, _))) => StackOutput::ChannelOpen(id),
        Ok(Output::Event(Event::ChannelData(d))) => StackOutput::ChannelData(d.id, d.data),
        Ok(Output::Event(Event::ChannelClose(id))) => StackOutput::ChannelClose(id),
        Ok(Output::Event(_)) => StackOutput::Other,
    }
}

/// Hands a datagram from the client to a stack, over or not.
fn deliver(rtc: &mut RtcStack, datagram: &[u8]) -> Received {
    match rtc.receive(client_addr(), server_addr(), datagram) {
        Received::HandOver => {
            let input = Receive {
                proto: Protocol::Udp,
                source: "10.0.0.2:5001".parse().unwrap(),
                destination: "10.0.0.1:4001".parse().unwrap(),
                contents: DatagramRecv::try_from(datagram).unwrap(),
            };
            let result = rtc.stack().handle_input(Input::Receive(SystemInstant::now(), input));
            rtc.handed_over(result.map_err(|e| e.to_string()))
        }
        received => received,
    }
}

/// A browser's side of a connection.
struct Browser {
    rtc: Rtc,
    channel: str0m::channel::ChannelId,
    connected: bool,
    open: bool,
    received: Vec<u8>,
}

impl Browser {
    fn new(cert: DtlsCert, server: &DtlsCert) -> Browser {
        let mut rtc = Rtc::builder().set_dtls_cert(cert).build();
        let local = "10.0.0.2:5001".parse().unwrap();
        let remote = "10.0.0.1:4001".parse().unwrap();
        rtc.add_local_candidate(Candidate::host(local, Protocol::Udp).unwrap());
        rtc.add_remote_candidate(Candidate::host(remote, Protocol::Udp).unwrap());
        let mut api = rtc.direct_api();
        api.set_remote_fingerprint(server.fingerprint());
        let creds = IceCreds { ufrag: UFRAG.to_string(), pass: UFRAG.to_string() };
        api.set_remote_ice_credentials(creds.clone());
        api.set_local_ice_credentials(creds);
        api.set_ice_controlling(true);
        api.start_dtls(true).unwrap();
        api.start_sctp(true);
        let channel = api.create_data_channel(StackChannelConfig {
            label: "noise".to_string(),
            ordered: false,
            reliability: Default::default(),
            negotiated: Some(0),
            protocol: "".to_string(),
        });
        Browser { rtc, channel, connected: false, open: false, received: vec![] }
    }

    /// What the browser wants sent now.
    fn poll(&mut self) -> Vec<Vec<u8>> {
        self.rtc.handle_input(Input::Timeout(SystemInstant::now())).unwrap();
        let mut sent = vec![];
        loop {
            match self.rtc.poll_output().unwrap() {
                Output::Timeout(_) => return sent,
                Output::Transmit(t) => sent.push(t.contents.to_vec()),
                Output::Event(Event::Connected) => self.connected = true,
                Output::Event(Event::ChannelOpen(_, _)) => self.open = true,
                Output::Event(Event::ChannelData(d)) => self.received.extend(d.data),
                Output::Event(_) => {}
            }
        }
    }

    fn receive(&mut self, datagram: &[u8]) {
        let input = Receive {
            proto: Protocol::Udp,
            source: "10.0.0.1:4001".parse().unwrap(),
            destination: "10.0.0.2:5001".parse().unwrap(),
            contents: DatagramRecv::try_from(datagram).unwrap(),
        };
        self.rtc.handle_input(Input::Receive(SystemInstant::now(), input)).unwrap();
    }
}

/// A browser and an answering connection, with nothing but memory between them.
struct Pair {
    browser: Browser,
    rtc: RtcStack,
    connection: Connection<Opening>,
    opened: Option<Fingerprint>,
    updates: Vec<StateUpdate>,
    inbound: Vec<ChannelId>,
    woken: Vec<ChannelId>,
}

impl Pair {
    fn new() -> (Pair, Fingerprint) {
        let browser_cert = DtlsCert::new_openssl();
        let server_cert = DtlsCert::new_openssl();
        let digest: [u8; 32] = browser_cert.fingerprint().bytes.try_into().unwrap();
        let mut client = upgrade::make_rtc_client(UFRAG, UFRAG, client_addr(), server_addr());
        client.remote_fingerprint = Fingerprint::raw(digest);
        let browser = Browser::new(browser_cert, &server_cert);
        let (rtc, channel) = RtcStack::set_up(&client, server_cert, Clock::start());
        let mut connection = Connection::new(server_addr(), client_addr());
        connection.new_stream_from_data_channel_id(channel.unwrap()).unwrap();
        let pair = Pair {
            browser,
            rtc,
            connection,
            opened: None,
            updates: vec![],
            inbound: vec![],
            woken: vec![],
        };
        (pair, Fingerprint::raw(digest))
    }

    fn turn(&mut self) {
        for datagram in self.browser.poll() {
            assert_eq!(deliver(&mut self.rtc, &datagram), Received::Taken);
        }
        loop {
            let output = poll(&mut self.rtc);
            let progress = self.connection.poll_progress(&mut self.rtc, output).unwrap();
            for action in progress.actions {
                match action {
                    Action::Send { destination, contents } => {
                        assert_eq!(destination, client_addr());
                        self.browser.receive(&contents);
                    }
                    Action::Update(update) => self.updates.push(update),
                    Action::NotifyInbound(id) => self.inbound.push(id),
                    Action::WakeOpen(id) => self.woken.push(id),
                    Action::WakeNewData(id) => self.woken.push(id),
                    Action::ReportClosed => panic!("closed"),
                }
            }
            match progress.output {
                OpeningEvent::Timeout { .. } => return,
                OpeningEvent::ConnectionOpened { remote_fingerprint } => {
                    self.opened = Some(remote_fingerprint)
                }
                OpeningEvent::ConnectionClosed => panic!("closed"),
                OpeningEvent::Nothing => {}
            }
        }
    }

    fn run_until(&mut self, what: &str, done: impl Fn(&Pair) -> bool) {
        let start = SystemInstant::now();
        while !done(self) {
            assert!(start.elapsed() < Duration::from_secs(10), "{what}");
            self.turn();
        }
    }
}

#[test]
fn a_browser_connects_and_talks() {
    let (mut pair, fingerprint) = Pair::new();
    pair.run_until("connected", |p| p.opened.is_some() && p.browser.connected);
    assert_eq!(pair.opened.unwrap().to_bytes(), fingerprint.to_bytes());
    assert_eq!(
        pair.connection.stage.state,
        HandshakeState::Opened { remote_fingerprint: fingerprint }
    );

    // the channel for the handshake opens on both sides
    pair.run_until("channel open", |p| p.browser.open && !p.inbound.is_empty());
    assert_eq!(pair.inbound, vec![0]);
    assert_eq!(pair.woken, vec![0]);
    assert_eq!(
        pair.updates,
        vec![StateUpdate {
            channel_id: 0,
            state: StateValues::RtcState(RtcDataChannelState::Open)
        }]
    );

    // from this side to the browser
    let channel = PollDataChannel::new(0);
    let written = channel.poll_write(&mut pair.rtc, b"hello").unwrap().unwrap();
    assert_eq!(written, 5);
    pair.run_until("data to the browser", |p| p.browser.received == b"hello");

    // and back
    let id = pair.browser.channel;
    pair.browser.rtc.channel(id).unwrap().write(true, b"hi there").unwrap();
    pair.updates.clear();
    pair.run_until("data from the browser", |p| !p.updates.is_empty());
    assert_eq!(
        pair.updates,
        vec![StateUpdate { channel_id: 0, state: StateValues::ReadBuffer(b"hi there".to_vec()) }]
    );

    // an overloaded channel writes nothing
    let mut overloaded = PollDataChannel::new(0);
    overloaded.overloaded = true;
    let refused = overloaded.poll_write(&mut pair.rtc, b"lost").unwrap().unwrap_err();
    assert_eq!(refused.kind, ErrorKind::BrokenPipe);
    let written = channel.poll_write(&mut pair.rtc, b"!").unwrap().unwrap();
    assert_eq!(written, 1);
    pair.run_until("more data to the browser", |p| p.browser.received.len() > 5);
    assert_eq!(pair.browser.received, b"hello!");

    // closing the channel
    assert_eq!(channel.poll_close(&mut pair.rtc), Close::Wait);
    pair.updates.clear();
    pair.run_until("channel closed", |p| !p.updates.is_empty());
    assert_eq!(
        pair.updates,
        vec![StateUpdate {
            channel_id: 0,
            state: StateValues::RtcState(RtcDataChannelState::Closed)
        }]
    );
}

#[test]
fn a_remote_with_another_certificate_is_cut_off() {
    let (mut pair, _) = Pair::new();
    let mut client = upgrade::make_rtc_client(UFRAG, UFRAG, client_addr(), server_addr());
    client.remote_fingerprint = Fingerprint::raw([1; 32]);
    let browser_cert = DtlsCert::new_openssl();
    let server_cert = DtlsCert::new_openssl();
    pair.browser = Browser::new(browser_cert, &server_cert);
    pair.rtc = RtcStack::set_up(&client, server_cert, Clock::start()).0;
    let start = SystemInstant::now();
    while pair.rtc.is_alive() {
        assert!(start.elapsed() < Duration::from_secs(15));
        for datagram in pair.browser.poll() {
            deliver(&mut pair.rtc, &datagram);
        }
        loop {
            let output = poll(&mut pair.rtc);
            match pair.rtc.on_output(output) {
                Polled::Timeout(_) => break,
                Polled::Transmit { contents, .. } => pair.browser.receive(&contents),
                _ => {}
            }
        }
    }
    // from now on the connection is closed
    let output = poll(&mut pair.rtc);
    let progress = pair.connection.poll_progress(&mut pair.rtc, output).unwrap();
    assert_eq!(progress.output, OpeningEvent::ConnectionClosed);
    assert!(matches!(progress.actions[..], [Action::ReportClosed]));
}

#[test]
fn a_disconnected_stack_is_inert() {
    let mut rtc = answering_stack();
    assert!(rtc.is_alive());
    rtc.disconnect();
    assert!(!rtc.is_alive());
    assert!(matches!(poll(&mut rtc), StackOutput::Timeout(_)));
    assert_eq!(rtc.handle_timeout(), Ok(()));
    assert!(rtc.feed_timeout());
    assert!(!rtc.is_alive());
    assert_eq!(rtc.write(0, b"x"), Written::NoChannel);
    let mut connection: Connection<Opening> = Connection::new(server_addr(), client_addr());
    assert_eq!(connection.on_timeout(&mut rtc), Ok(()));
    let output = poll(&mut rtc);
    let (next, actions) = upgrade::poll(Direction::Inbound, &mut connection, &mut rtc, output);
    assert_eq!(next, Err(Error::Disconnected));
    assert!(matches!(actions[..], [Action::ReportClosed]));
}

#[test]
fn a_lost_connection_stays_lost() {
    let mut rtc = answering_stack();
    rtc.disconnect();
    let mut connection: Connection<Opening> = Connection::new(server_addr(), client_addr());
    for _ in 0..2 {
        let output = poll(&mut rtc);
        let progress = connection.poll_progress(&mut rtc, output).unwrap();
        assert_eq!(progress.output, OpeningEvent::ConnectionClosed);
        assert_eq!(progress.actions, vec![Action::ReportClosed]);
        assert_eq!(connection.stage.state, HandshakeState::Closed);
        assert!(!rtc.is_alive());
    }
    // even one that fails
    let progress = connection.poll_progress(&mut rtc, StackOutput::Failed).unwrap();
    assert_eq!(progress.output, OpeningEvent::ConnectionClosed);
    assert!(progress.actions.is_empty());
    assert!(!rtc.is_alive());
}

#[test]
fn outputs_are_read() {
    let mut rtc = answering_stack();
    let connection: Connection<Opening> = Connection::new(server_addr(), client_addr());
    let timeout = Instant { nanos: 5 };
    for (now, input) in [(4, TimeoutInput::NotFed), (5, TimeoutInput::Taken)] {
        assert_eq!(
            connection.read_output(&mut rtc, Polled::Timeout(timeout), Instant { nanos: now }),
            Some(RtcOutput::Timeout { timeout, input })
        );
    }
    // this side did not start the handshake, so that the stack tells nothing of the certificate
    let remote_fingerprint = Fingerprint::ff();
    assert_eq!(
        connection.read_output(&mut rtc, Polled::Connected, timeout),
        Some(RtcOutput::Event(StageEvent::Connected { remote_fingerprint }))
    );
    for (polled, output) in [
        (Polled::Failed, RtcOutput::Failed),
        (Polled::IceDisconnected, RtcOutput::IceDisconnected),
        (Polled::ChannelOpen(3), RtcOutput::ChannelOpen(3)),
        (Polled::ChannelClose(3), RtcOutput::Event(StageEvent::ChannelClose(3))),
        (
            Polled::ChannelData { id: 3, data: vec![1] },
            RtcOutput::ChannelData { id: 3, data: vec![1] },
        ),
        (Polled::Other, RtcOutput::Event(StageEvent::Other)),
    ] {
        assert_eq!(connection.read_output(&mut rtc, polled, timeout), Some(output));
    }
}

/// A DTLS record that greets with no cipher that the other side has.
fn hopeless_client_hello() -> Vec<u8> {
    let mut body = vec![0xfe, 0xfd];
    body.extend([9; 32]);
    body.extend([0, 0, 0, 2, 0x00, 0x05, 1, 0]);
    let len = body.len() as u8;
    let mut hello = vec![1, 0, 0, len, 0, 0, 0, 0, 0, 0, 0, len];
    hello.extend(body);
    let mut record = vec![22, 0xfe, 0xfd, 0, 0, 0, 0, 0, 0, 0, 0, 0, hello.len() as u8];
    record.extend(hello);
    record
}

#[test]
fn a_stack_that_fails_is_disconnected() {
    let mut rtc = answering_stack();
    let hello = hopeless_client_hello();
    assert_eq!(rtc.receive(client_addr(), server_addr(), &hello), Received::HandOver);
    assert!(rtc.is_alive());
    let failed = deliver(&mut rtc, &hello);
    assert!(matches!(failed, Received::Failed(_)), "{failed:?}");
    assert!(!rtc.is_alive());
    // it takes whatever comes, without effect
    assert_eq!(deliver(&mut rtc, &hello), Received::Taken);
    assert!(matches!(poll(&mut rtc), StackOutput::Timeout(_)));
    assert!(!rtc.is_alive());
}

#[test]
fn media_is_passed_over() {
    let (mut pair, _) = Pair::new();
    pair.run_until("connected", |p| p.opened.is_some() && p.browser.connected);
    for len in 3..64 {
        for kind in [0, 72, 200] {
            let mut datagram = vec![7u8; len];
            datagram[0] = 0x80;
            datagram[1] = kind;
            let received = pair.rtc.receive(client_addr(), server_addr(), &datagram);
            assert_eq!(received, Received::Taken);
        }
    }
    assert!(pair.rtc.is_alive());
}

#[test]
fn dtls_of_an_opening_connection_is_handed_over() {
    let (mut pair, _) = Pair::new();
    pair.run_until("connected", |p| p.opened.is_some() && p.browser.connected);
    let mut manager: UDPManager<()> =
        UDPManager::with_config(server_addr(), DtlsCert::new_openssl(), Clock::start());
    assert_eq!(manager.on_client_fed(client_addr(), pair.rtc, Ok(())), Ok(InputStep::Poll));
    let dtls = [22, 254, 253, 0, 0];
    assert_eq!(manager.on_socket_input(client_addr(), &dtls), Ok(InputStep::HandOver));
    assert_eq!(manager.on_socket_input(addr(3, 1), &dtls), Ok(InputStep::Ignore));
    // of media the time of its arrival is all that counts
    assert_eq!(manager.on_socket_input(client_addr(), &[0x80, 200, 0, 1]), Ok(InputStep::Poll));
}

#[test]
fn channels_that_are_not_there() {
    let mut rtc = answering_stack();
    assert_eq!(rtc.write(0, b"x"), Written::NoChannel);
    assert_eq!(rtc.write(17, b"x"), Written::NoChannel);
    rtc.close_channel(17);
    assert!(PollDataChannel::new(0).poll_write(&mut rtc, b"x").is_none());
}

#[test]
fn a_new_stack_waits() {
    let mut rtc = answering_stack();
    assert!(rtc.feed_timeout());
    let start = SystemInstant::now();
    loop {
        assert!(start.elapsed() < Duration::from_secs(10));
        if let StackOutput::Timeout(at) = poll(&mut rtc) {
            assert!(at.remaining_from(rtc.now()) > 0);
            break;
        }
    }
}

#[test]
fn datagrams_of_no_use() {
    let mut rtc = answering_stack();
    let to = server_addr();
    let from = client_addr();
    assert_eq!(rtc.receive(from, to, &[]), Received::Rejected("Empty datagram".to_string()));
    assert_eq!(rtc.receive(from, to, &[99]), Received::Rejected("Unknown datagram".to_string()));
    // a STUN header without anything else
    match rtc.receive(from, to, &stun(0x0001, &[])) {
        Received::Rejected(text) => assert!(text.contains("STUN"), "{text}"),
        other => panic!("{other:?}"),
    }
    // an attribute that is cut off
    let mut cut = stun(0x0001, &[attribute(0x8028, &[])]);
    cut[3] = 4;
    assert_eq!(rtc.receive(from, to, &cut), Received::Unusable);
    // a binding indication without a user name
    let nameless = stun(0x0011, &[attribute(0x0024, &[0; 4]), attribute(0x0008, &[0; 20])]);
    assert_eq!(rtc.receive(from, to, &nameless), Received::Unusable);
    assert!(!rtc.accepts(from, to, &nameless));
    // more than the socket reads at once
    let mut long = vec![22u8; 8193];
    assert_eq!(rtc.receive(from, to, &long), Received::Unusable);
    assert!(!rtc.accepts(from, to, &long));
    long.pop();
    assert_eq!(rtc.receive(from, to, &long), Received::HandOver);
    assert!(!rtc.accepts(from, to, &[99]));
}

#[test]
fn a_binding_request_is_taken_but_not_for_everyone() {
    let mut rtc = answering_stack();
    let request = binding_request(&format!("{UFRAG}:{UFRAG}"));
    assert_eq!(rtc.receive(client_addr(), server_addr(), &request), Received::Taken);
    assert!(!rtc.accepts(client_addr(), server_addr(), &binding_request("other:names")));
}

#[test]
fn outputs_get_numbers() {
    let mut rtc = answering_stack();
    let mut other = Rtc::builder().build();
    let config = |stream| StackChannelConfig {
        label: "".to_string(),
        ordered: false,
        reliability: Default::default(),
        negotiated: Some(stream),
        protocol: "".to_string(),
    };
    // the stack has seen one channel of its own already
    let own = other.direct_api().create_data_channel(config(1));
    let next = other.direct_api().create_data_channel(config(2));
    assert_eq!(rtc.on_output(StackOutput::ChannelOpen(own)), Polled::ChannelOpen(0));
    assert_eq!(rtc.on_output(StackOutput::ChannelOpen(next)), Polled::ChannelOpen(1));
    assert_eq!(
        rtc.on_output(StackOutput::ChannelData(next, vec![1, 2])),
        Polled::ChannelData { id: 1, data: vec![1, 2] }
    );
    assert_eq!(rtc.on_output(StackOutput::ChannelClose(own)), Polled::ChannelClose(0));
    assert_eq!(rtc.on_output(StackOutput::Other), Polled::Other);
    assert_eq!(rtc.on_output(StackOutput::Connected), Polled::Connected);
    assert_eq!(rtc.on_output(StackOutput::IceDisconnected), Polled::IceDisconnected);
    let at = Instant { nanos: 7 };
    assert_eq!(rtc.on_output(StackOutput::Timeout(at)), Polled::Timeout(at));
    assert!(rtc.is_alive());
    assert_eq!(rtc.on_output(StackOutput::Failed), Polled::Failed);
    assert!(!rtc.is_alive());
}

#[test]
fn transmits_keep_the_scope_of_the_remote() {
    let remote = SocketAddr { ip: IpAddr::V6(0xfe80 << 112 | 5), port: 9, flowinfo: 0, scope_id: 3 };
    let client = upgrade::make_rtc_client(UFRAG, UFRAG, remote, SocketAddr::new(IpAddr::V6(1), 4001));
    let (mut rtc, _) = RtcStack::set_up(&client, DtlsCert::new_openssl(), Clock::start());
    let datagram = |destination| StackOutput::Transmit { destination, contents: vec![1, 2, 3] };
    assert_eq!(
        rtc.on_output(datagram(SocketAddr::new(remote.ip, 9))),
        Polled::Transmit { destination: remote, contents: vec![1, 2, 3] }
    );
    let destination = SocketAddr::new(IpAddr::V4(0x0102_0304), 80);
    assert_eq!(
        rtc.on_output(datagram(destination)),
        Polled::Transmit { destination, contents: vec![1, 2, 3] }
    );
}

fn manager() -> UDPManager<&'static str> {
    UDPManager::with_config(server_addr(), DtlsCert::new_openssl(), Clock::start())
}

#[test]
fn an_inbound_upgrade_starts() {
    let remote = NewRemoteAddress {
        addr: client_addr(),
        ufrag: UFRAG.to_string(),
        contents: binding_request(&format!("{UFRAG}:{UFRAG}")),
    };
    let mut manager = manager();
    manager.on_socket_input(addr(3, 1), &remote.contents).unwrap();
    let stream = upgrade::inbound(&mut manager, &remote, server_addr(), DtlsCert::new_openssl());
    assert_eq!(stream.ok().unwrap().into_channel().channel_id, 0);
    // the manager has the connection, and what it had before
    let connection = &manager.opening.get(client_addr()).unwrap().connection;
    assert_eq!(connection.peer_address.addr(), client_addr());
    assert_eq!(connection.local_address, server_addr());
    assert_eq!(connection.channel(0), Some(RtcDataChannelState::Opening));
    assert!(manager.opening.contains_key(addr(3, 1)));
    assert!(upgrade::upgrading(&mut manager, addr(3, 1)).is_none());
    let fed = upgrade::feed_inbound(&mut manager, &remote, server_addr());
    assert_eq!(fed, Ok(Feeding::Done));
    // the request is not authentic, so that the connection is given up in the end
    let start = SystemInstant::now();
    loop {
        assert!(start.elapsed() < Duration::from_secs(10));
        let output = poll(&mut upgrade::upgrading(&mut manager, client_addr()).unwrap().rtc);
        match upgrade::poll_inbound(&mut manager, client_addr(), output).0 {
            Ok(UpgradeStep::Poll) => {}
            Ok(UpgradeStep::FeedAgain) => {
                let fed = upgrade::feed_inbound(&mut manager, &remote, server_addr());
                assert_eq!(fed, Ok(Feeding::Done));
            }
            Ok(UpgradeStep::Handshake { .. }) => panic!("handshake"),
            Err(error) => {
                assert_eq!(error, Error::Disconnected);
                break;
            }
        }
    }
}

#[test]
fn a_remote_is_heard_while_it_is_upgraded() {
    let mut remote = NewRemoteAddress {
        addr: client_addr(),
        ufrag: UFRAG.to_string(),
        contents: binding_request(&format!("{UFRAG}:{UFRAG}")),
    };
    let mut manager = manager();
    let server_cert = DtlsCert::new_openssl();
    let mut browser = Browser::new(DtlsCert::new_openssl(), &server_cert);
    upgrade::inbound(&mut manager, &remote, server_addr(), server_cert).ok().unwrap();
    // the stack of the upgrade gets the STUN of the browser, until it wants the DTLS
    let mut dtls = vec![22, 254, 253];
    let start = SystemInstant::now();
    while manager.on_socket_input(client_addr(), &dtls) != Ok(InputStep::HandOver) {
        assert!(start.elapsed() < Duration::from_secs(10));
        for datagram in browser.poll() {
            if datagram[0] == 22 {
                dtls = datagram;
                continue;
            }
            remote.contents = datagram;
            let fed = upgrade::feed_inbound(&mut manager, &remote, server_addr());
            assert_eq!(fed, Ok(Feeding::Done));
        }
        loop {
            let output = poll(&mut upgrade::upgrading(&mut manager, client_addr()).unwrap().rtc);
            let idle = matches!(output, StackOutput::Timeout(_));
            let (step, actions) = upgrade::poll_inbound(&mut manager, client_addr(), output);
            step.unwrap();
            for action in actions {
                if let Action::Send { contents, .. } = action {
                    browser.receive(&contents);
                }
            }
            if idle {
                break;
            }
        }
    }
    assert!(upgrade::upgrading(&mut manager, client_addr()).is_some());
    remote.contents = dtls;
    let fed = upgrade::feed_inbound(&mut manager, &remote, server_addr());
    assert_eq!(fed, Ok(Feeding::HandOver));
    // a connection that came up is taken over, whoever polled it then
    let remote_fingerprint = Fingerprint::raw([3; 32]);
    let opening = manager.opening_mut(client_addr()).unwrap();
    opening.connection.stage.state = HandshakeState::Opened { remote_fingerprint };
    let (step, _) = upgrade::poll_inbound(&mut manager, client_addr(), StackOutput::Other);
    assert_eq!(step, Ok(UpgradeStep::Handshake { remote_fingerprint }));
    // and opens
    let peer_id = PeerId::random();
    let opened = upgrade::open_inbound(&mut manager, client_addr(), OpenConfig { peer_id });
    let (connection, rtc) = opened.ok().unwrap();
    assert!(rtc.is_alive());
    assert_eq!(connection.stage.peer, peer_id);
    assert_eq!(connection.channel(0), Some(RtcDataChannelState::Opening));
    assert!(!manager.opening.contains_key(client_addr()));
    upgrade::on_ready(&mut manager, &connection, Some("tx")).unwrap();
    let relayed = manager.on_socket_input(client_addr(), &remote.contents);
    assert_eq!(relayed, Ok(InputStep::Relay));
}

#[test]
fn an_upgrade_without_its_connection_is_over() {
    let remote = NewRemoteAddress {
        addr: client_addr(),
        ufrag: UFRAG.to_string(),
        contents: binding_request(&format!("{UFRAG}:{UFRAG}")),
    };
    let mut manager = manager();
    upgrade::inbound(&mut manager, &remote, server_addr(), DtlsCert::new_openssl()).ok().unwrap();
    // a new connection from there takes its place
    manager.on_socket_input(client_addr(), &remote.contents).unwrap();
    assert!(manager.opening.contains_key(client_addr()));
    for _ in 0..2 {
        let fed = upgrade::feed_inbound(&mut manager, &remote, server_addr());
        assert_eq!(fed, Err(Error::Disconnected));
        let (step, actions) =
            upgrade::poll_inbound(&mut manager, client_addr(), StackOutput::Connected);
        assert_eq!(step, Err(Error::Disconnected));
        assert!(actions.is_empty());
        let config = OpenConfig { peer_id: PeerId::random() };
        let opened = upgrade::open_inbound(&mut manager, client_addr(), config);
        assert_eq!(opened.err(), Some(Error::Disconnected));
        // or there is none at all
        manager.take_opening(client_addr());
    }
    assert!(manager.take_opening(client_addr()).is_none());
}

#[test]
fn an_inbound_upgrade_of_garbage_fails() {
    let mut remote =
        NewRemoteAddress { addr: client_addr(), ufrag: UFRAG.to_string(), contents: vec![99] };
    let mut manager = manager();
    let failed = upgrade::inbound(&mut manager, &remote, server_addr(), DtlsCert::new_openssl());
    assert_eq!(failed.err(), Some(Error::Net("Unknown datagram".to_string())));
    assert!(!manager.opening.contains_key(client_addr()));
    remote.contents = vec![];
    let mut rtc = answering_stack();
    assert_eq!(
        upgrade::feed(&remote, server_addr(), &mut rtc),
        Err(Error::Net("Empty datagram".to_string()))
    );
    remote.contents = stun(0x0011, &[attribute(0x0024, &[0; 4]), attribute(0x0008, &[0; 20])]);
    assert_eq!(upgrade::feed(&remote, server_addr(), &mut rtc), Err(Error::InvalidData));
    remote.contents = hopeless_client_hello();
    assert_eq!(upgrade::feed(&remote, server_addr(), &mut rtc), Ok(Feeding::HandOver));
}

#[test]
fn an_outbound_upgrade_starts() {
    let fp = Fingerprint::raw([5; 32]);
    let mut started =
        upgrade::outbound(server_addr(), client_addr(), fp, DtlsCert::new_openssl(), Clock::start())
            .ok()
            .unwrap();
    assert_eq!(started.connection.peer_address.addr(), client_addr());
    assert_eq!(started.connection.local_address, server_addr());
    assert!(started.rtc.feed_timeout());
    let output = poll(&mut started.rtc);
    let (next, _) =
        upgrade::poll(Direction::Outbound, &mut started.connection, &mut started.rtc, output);
    assert_eq!(next, Ok(UpgradeStep::Poll));
}
