use libp2p_identity::PeerId;

use webrtc_direct::channel::{RtcDataChannelState, StateUpdate, StateValues};
use webrtc_direct::connection::open::{OpenEvent, RunStep, Waited};
use webrtc_direct::connection::{
    Action, Connectable, Connection, HandshakeState, Open, OpenConfig, Opening, OpeningEvent,
    RtcOutput, SendOutcome, StageEvent, TimeoutInput, DATAGRAM_BUFFER_SIZE,
};
use webrtc_direct::error::Error;
use webrtc_direct::fingerprint::Fingerprint;
use webrtc_direct::net::{IpAddr, SocketAddr};
use webrtc_direct::time::Instant;

fn addr(port: u16) -> SocketAddr {
    SocketAddr::new(IpAddr::V4(0x0a00_0001), port)
}

fn opening() -> Connection<Opening> {
    Connection::new(addr(1), addr(2))
}

fn open() -> Connection<Open> {
    opening().open(OpenConfig { peer_id: PeerId::random() })
}

fn update(channel_id: u64, state: StateValues) -> Action {
    Action::Update(StateUpdate { channel_id, state })
}

#[test]
fn a_handshake_opens_once() {
    let remote_fingerprint = Fingerprint::raw([4; 32]);
    let up = StageEvent::Connected { remote_fingerprint };
    let mut connection = opening();
    assert_eq!(connection.stage.state, HandshakeState::Closed);
    let progress = connection.on_rtc_output(RtcOutput::Event(up));
    assert_eq!(progress.output, OpeningEvent::ConnectionOpened { remote_fingerprint });
    assert!(progress.actions.is_empty());
    assert_eq!(connection.stage.state, HandshakeState::Opened { remote_fingerprint });
    let progress = connection.on_rtc_output(RtcOutput::Event(up));
    assert_eq!(progress.output, OpeningEvent::ConnectionClosed);
    assert_eq!(connection.stage.state, HandshakeState::Poisoned);
}

#[test]
fn an_opening_connection_takes_every_output() {
    let mut connection = opening();
    let timeout = Instant { nanos: 9 };
    for (output, report, actions) in [
        (RtcOutput::NotAlive, OpeningEvent::ConnectionClosed, vec![Action::ReportClosed]),
        (RtcOutput::Failed, OpeningEvent::ConnectionClosed, vec![]),
        (
            RtcOutput::Transmit { destination: addr(5), contents: vec![1] },
            OpeningEvent::Nothing,
            vec![Action::Send { destination: addr(5), contents: vec![1] }],
        ),
        (
            RtcOutput::Timeout { timeout, input: TimeoutInput::NotFed },
            OpeningEvent::Timeout { timeout },
            vec![],
        ),
        (
            RtcOutput::Timeout { timeout, input: TimeoutInput::Taken },
            OpeningEvent::Nothing,
            vec![],
        ),
        (
            RtcOutput::Timeout { timeout, input: TimeoutInput::Failed },
            OpeningEvent::ConnectionClosed,
            vec![],
        ),
        (RtcOutput::IceDisconnected, OpeningEvent::ConnectionClosed, vec![Action::ReportClosed]),
        (
            RtcOutput::ChannelOpen(3),
            OpeningEvent::Nothing,
            vec![
                update(3, StateValues::RtcState(RtcDataChannelState::Open)),
                Action::NotifyInbound(3),
            ],
        ),
        (RtcOutput::ChannelData { id: 3, data: vec![1] }, OpeningEvent::Nothing, vec![]),
        (RtcOutput::Event(StageEvent::ChannelClose(3)), OpeningEvent::Nothing, vec![]),
        (RtcOutput::Event(StageEvent::Other), OpeningEvent::Nothing, vec![]),
    ] {
        let progress = connection.on_rtc_output(output);
        assert_eq!(progress.output, report);
        assert_eq!(progress.actions, actions);
    }
}

#[test]
fn known_channels_are_kept_up_to_date() {
    let mut connection = opening();
    let new = connection.new_stream_from_data_channel_id(3).ok().unwrap();
    assert!(!new.wake_muxer);
    assert_eq!(connection.channel(3), Some(RtcDataChannelState::Opening));
    assert_eq!(connection.channel(4), None);
    assert_eq!(
        connection.on_rtc_output(RtcOutput::ChannelOpen(3)).actions,
        vec![
            update(3, StateValues::RtcState(RtcDataChannelState::Open)),
            Action::NotifyInbound(3),
            Action::WakeOpen(3),
        ]
    );
    assert_eq!(
        connection.on_rtc_output(RtcOutput::ChannelData { id: 3, data: vec![7] }).actions,
        vec![update(3, StateValues::ReadBuffer(vec![7])), Action::WakeNewData(3)]
    );
    assert_eq!(
        connection.on_rtc_output(RtcOutput::Event(StageEvent::ChannelClose(3))).actions,
        vec![update(3, StateValues::RtcState(RtcDataChannelState::Closed)), Action::WakeOpen(3)]
    );
}

#[test]
fn stages_feed_timeouts_or_not() {
    let due = Instant { nanos: 5 };
    let now = Instant { nanos: 5 };
    assert!(Opening::new().feeds_timeout(due, now));
    assert!(!Opening::new().feeds_timeout(Instant { nanos: 6 }, now));
    let stage = Open { peer: PeerId::random() };
    assert!(!stage.feeds_timeout(due, now));
    assert!(!stage.has_answer(StageEvent::Other));
    assert!(stage.has_answer(StageEvent::ChannelClose(1)));
    assert_eq!(Opening::new().on_timeout(), Ok(()));
    assert_eq!(opening().on_timeout_fed(true), Ok(()));
    assert_eq!(opening().on_timeout_fed(false), Err(Error::Disconnected));
}

#[test]
fn opening_moves_everything_over() {
    let mut connection = opening();
    let _ = connection.new_stream_from_data_channel_id(3);
    let peer_id = PeerId::random();
    let open = connection.open(OpenConfig { peer_id });
    assert_eq!(open.stage.peer, peer_id);
    assert_eq!(open.channel(3), Some(RtcDataChannelState::Opening));
    assert_eq!(open.local_address, addr(1));
    assert_eq!(open.peer_address.addr(), addr(2));
    assert_eq!(open.drop_listeners, 1);
}

#[test]
fn the_event_loop_of_an_open_connection() {
    let connection = open();
    let now = Instant { nanos: 10 };
    let at = |nanos| OpenEvent::Timeout { timeout: Instant { nanos } };
    assert_eq!(connection.run(OpenEvent::ConnectionClosed, now), RunStep::Closed);
    assert_eq!(connection.run(OpenEvent::Nothing, now), RunStep::Poll);
    assert_eq!(connection.run(at(10), now), RunStep::FeedTimeout);
    assert_eq!(connection.run(at(25), now), RunStep::Wait { nanos: 15 });
    assert_eq!(connection.on_waited(Waited::NoMoreDatagrams), RunStep::Closed);
    assert_eq!(connection.on_waited(Waited::TimeIsOver), RunStep::FeedTimeout);
    assert_eq!(
        connection.on_waited(Waited::Datagram(vec![1, 2])),
        RunStep::FeedDatagram { source: addr(2), destination: addr(1), contents: vec![1, 2] }
    );
    assert_eq!(DATAGRAM_BUFFER_SIZE, 1024);
}

#[test]
fn an_open_connection_goes_on_until_it_is_gone() {
    let mut connection = open();
    let now = Instant { nanos: 4 };
    let timeout = Instant { nanos: 9 };
    let _ = connection.new_stream_from_data_channel_id(3);
    for (output, report, step) in [
        (
            RtcOutput::Transmit { destination: addr(2), contents: vec![1] },
            OpenEvent::Nothing,
            RunStep::Poll,
        ),
        (RtcOutput::ChannelOpen(3), OpenEvent::Nothing, RunStep::Poll),
        (RtcOutput::ChannelData { id: 3, data: vec![1] }, OpenEvent::Nothing, RunStep::Poll),
        (
            RtcOutput::Event(StageEvent::ChannelClose(3)),
            OpenEvent::Nothing,
            RunStep::Poll,
        ),
        (
            RtcOutput::Timeout { timeout, input: TimeoutInput::NotFed },
            OpenEvent::Timeout { timeout },
            RunStep::Wait { nanos: 5 },
        ),
        (RtcOutput::NotAlive, OpenEvent::ConnectionClosed, RunStep::Closed),
        (RtcOutput::Failed, OpenEvent::ConnectionClosed, RunStep::Closed),
        (RtcOutput::IceDisconnected, OpenEvent::ConnectionClosed, RunStep::Closed),
    ] {
        let progress = connection.on_rtc_output(output);
        assert_eq!(progress.output, report);
        assert_eq!(connection.run(progress.output, now), step);
    }
    assert_eq!(
        connection.on_rtc_output(RtcOutput::Event(StageEvent::ChannelClose(3))).actions,
        vec![update(3, StateValues::RtcState(RtcDataChannelState::Closed)), Action::WakeOpen(3)]
    );
}

#[test]
fn inbound_channels_become_streams() {
    let mut connection = open();
    assert!(!connection.poll(false));
    let new = connection.poll_inbound(Some(8)).ok().unwrap();
    assert!(new.wake_muxer);
    assert_eq!(new.stream.into_channel().channel_id, 8);
    assert_eq!(connection.channel(8), Some(RtcDataChannelState::Opening));
    assert_eq!(connection.poll_inbound(None).err(), Some(Error::Disconnected));
    assert!(connection.poll(true));
    assert_eq!(connection.drop_listeners, 0);
}

#[test]
fn datagrams_reach_the_event_loop_or_not() {
    let mut connection = opening();
    assert_eq!(connection.dgram_recv(SendOutcome::Sent), Ok(()));
    assert_eq!(connection.dgram_recv(SendOutcome::Full), Err(Error::Disconnected));
    assert_eq!(connection.dgram_recv(SendOutcome::Closed), Err(Error::Disconnected));
    assert_eq!(connection.report_connection_closed(), Action::ReportClosed);
}

#[test]
fn defaults() {
    assert_eq!(OpeningEvent::default(), OpeningEvent::Nothing);
    assert_eq!(Opening::default().state, HandshakeState::Closed);
}
