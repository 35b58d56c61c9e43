use webrtc_direct::error::{ErrorKind, IoError};
use webrtc_direct::websys::connection::{
    create_handshake_data_channel, new_regular_data_channel, Connection, Inbound, Outbound,
    INBOUND_CAPACITY,
};
use webrtc_direct::websys::error::Error;
use webrtc_direct::websys::poll_data_channel::{
    Close, PollDataChannel, Read, Ready, RtcDataChannelState, Shares, Signal, Waiter, Write,
};
use webrtc_direct::websys::stream::{wait_until_open, Stream};

const MAX: usize = 16384;

fn broken_pipe() -> IoError {
    IoError::new(ErrorKind::BrokenPipe, "broken pipe")
}

fn overload() -> IoError {
    IoError::new(ErrorKind::BrokenPipe, "remote overloaded us with messages")
}

#[test]
fn browser_channels_are_ready_when_open() {
    let channel = PollDataChannel::new();
    assert_eq!(channel.poll_ready(RtcDataChannelState::Connecting), Ready::WaitForOpen);
    assert_eq!(channel.poll_ready(RtcDataChannelState::Open), Ready::Ready);
    assert_eq!(channel.poll_ready(RtcDataChannelState::Invalid), Ready::Ready);
    assert_eq!(channel.poll_ready(RtcDataChannelState::Closing), Ready::Failed(broken_pipe()));
    assert_eq!(channel.poll_ready(RtcDataChannelState::Closed), Ready::Failed(broken_pipe()));
}

#[test]
fn browser_messages_are_read_in_order() {
    let open = RtcDataChannelState::Open;
    let mut channel = PollDataChannel::new();
    let mut buf = [0u8; 4];
    assert_eq!(channel.poll_read(open, &mut buf), Read::WaitForData);
    assert_eq!(channel.on_message(b"abc"), Signal::WakeLater(Waiter::NewData));
    assert_eq!(channel.on_message(b"defg"), Signal::WakeLater(Waiter::NewData));
    assert_eq!(channel.poll_read(RtcDataChannelState::Connecting, &mut buf), Read::WaitForOpen);
    assert_eq!(channel.poll_read(open, &mut buf), Read::Done(4));
    assert_eq!(&buf, b"abcd");
    assert_eq!(channel.poll_read(open, &mut []), Read::Done(0));
    assert_eq!(channel.poll_read(open, &mut buf), Read::Done(3));
    assert_eq!(&buf, b"efgd");
    assert_eq!(channel.poll_read(open, &mut buf), Read::WaitForData);
    assert_eq!(channel.poll_read(RtcDataChannelState::Closed, &mut buf), Read::Failed(broken_pipe()));
}

#[test]
fn browser_handlers_wake_later() {
    let channel = PollDataChannel::new();
    assert_eq!(channel.on_open(), Signal::WakeLater(Waiter::Open));
    assert_eq!(channel.on_buffered_amount_low(), Signal::WakeLater(Waiter::Write));
    assert_eq!(channel.on_close(), Signal::WakeLater(Waiter::Close));
}

#[test]
fn a_browser_overload_is_final() {
    let open = RtcDataChannelState::Open;
    let mut channel = PollDataChannel::new();
    let mut buf = [0u8; 4];
    assert_eq!(channel.on_message(&vec![1; MAX]), Signal::WakeLater(Waiter::NewData));
    assert_eq!(channel.poll_ready(open), Ready::Ready);
    assert_eq!(channel.on_message(&[1]), Signal::Dropped);
    assert_eq!(channel.poll_ready(open), Ready::Failed(overload()));
    assert_eq!(channel.poll_read(open, &mut buf), Read::Failed(overload()));
    assert_eq!(channel.poll_write(open, 0, 1), Write::Failed(overload()));
    assert_eq!(channel.on_message(&[]), Signal::WakeLater(Waiter::NewData));
    assert_eq!(channel.poll_ready(open), Ready::Failed(overload()));
}

#[test]
fn browser_writes_leave_no_more_than_a_message_behind() {
    let open = RtcDataChannelState::Open;
    let channel = PollDataChannel::new();
    assert_eq!(channel.poll_write(open, 0, 10), Write::Send(10));
    assert_eq!(channel.poll_write(open, 0, MAX + 1), Write::Send(MAX));
    assert_eq!(channel.poll_write(open, MAX - 1, 10), Write::Send(1));
    assert_eq!(channel.poll_write(open, MAX, 10), Write::WaitForSpace);
    assert_eq!(channel.poll_write(RtcDataChannelState::Connecting, 0, 10), Write::WaitForOpen);
    assert_eq!(channel.poll_write(RtcDataChannelState::Closed, 0, 10), Write::Failed(broken_pipe()));
    assert_eq!(channel.on_sent(true, 10), Ok(10));
    assert_eq!(channel.on_sent(false, 10), Err(broken_pipe()));
    assert!(channel.poll_flush(0));
    assert!(!channel.poll_flush(1));
}

#[test]
fn browser_channels_close_once() {
    let channel = PollDataChannel::new();
    assert_eq!(channel.poll_close(RtcDataChannelState::Closed), Close::Done);
    assert_eq!(channel.poll_close(RtcDataChannelState::Closing), Close::Wait);
    assert_eq!(channel.poll_close(RtcDataChannelState::Open), Close::CloseAndWait);
    assert_eq!(channel.poll_close(RtcDataChannelState::Connecting), Close::CloseAndWait);
}

#[test]
fn the_last_share_detaches() {
    let mut shares = Shares::new();
    shares.share();
    shares.share();
    assert!(!shares.release());
    shares.share();
    assert!(!shares.release());
    assert!(!shares.release());
    assert!(shares.release());
}

#[test]
fn browser_streams() {
    let mut channel = PollDataChannel::new();
    channel.on_message(b"x");
    let mut channel = Stream::from_poll_channel(channel, Some(4)).into_channel();
    let mut buf = [0u8; 1];
    assert_eq!(channel.poll_read(RtcDataChannelState::Open, &mut buf), Read::Done(1));
    let mut fresh = Stream::new(None).into_channel();
    assert_eq!(fresh.poll_read(RtcDataChannelState::Open, &mut buf), Read::WaitForData);
    assert_eq!(wait_until_open(&fresh, RtcDataChannelState::Connecting), None);
    assert_eq!(wait_until_open(&fresh, RtcDataChannelState::Open), Some(Ok(())));
    assert_eq!(
        wait_until_open(&fresh, RtcDataChannelState::Closed),
        Some(Err(Error::Connection("broken pipe".to_string())))
    );
}

#[test]
fn channels_to_create() {
    let handshake = create_handshake_data_channel();
    assert_eq!(handshake.label, "");
    assert!(handshake.negotiated && handshake.array_buffer);
    assert_eq!(handshake.id, Some(0));
    let regular = new_regular_data_channel();
    assert_eq!(regular.label, "");
    assert!(!regular.negotiated && regular.array_buffer);
    assert_eq!(regular.id, None);
    assert_eq!(INBOUND_CAPACITY, 4);
}

#[test]
fn the_first_outbound_channel_waits() {
    let mut connection = Connection::new();
    assert_eq!(connection.poll_outbound(), Outbound::StartDefer { millis: 400 });
    assert_eq!(connection.on_defer_polled(false), Outbound::Pending);
    assert_eq!(connection.poll_outbound(), Outbound::PollDefer);
    assert_eq!(connection.on_defer_polled(true), Outbound::OpenChannel);
    assert_eq!(connection.on_channel_polled(Ready::WaitForOpen), Outbound::Pending);
    assert_eq!(connection.poll_outbound(), Outbound::PollChannel);
    assert_eq!(connection.mux_outbound_count, 0);
    assert_eq!(connection.on_channel_polled(Ready::Ready), Outbound::NewStream { wake_muxer: false });
    assert_eq!(connection.mux_outbound_count, 1);
    // later ones do not wait
    assert_eq!(connection.poll_outbound(), Outbound::OpenChannel);
    assert_eq!(
        connection.on_channel_polled(Ready::Failed(broken_pipe())),
        Outbound::Failed(Error::Connection("broken pipe".to_string()))
    );
    assert_eq!(connection.poll_outbound(), Outbound::OpenChannel);
}

#[test]
fn two_inbound_channels_end_the_wait() {
    let mut connection = Connection::new();
    assert_eq!(connection.poll_outbound(), Outbound::StartDefer { millis: 400 });
    assert_eq!(connection.poll_inbound(Some(Some(0))), Inbound::Ignore);
    assert_eq!(
        connection.poll_inbound(Some(Some(1))),
        Inbound::NewStream { wake_muxer: false, wake_outbound: false }
    );
    assert_eq!(connection.poll_inbound(Some(Some(0))), Inbound::Ignore);
    assert_eq!(connection.mux_inbound_count, 1);
    assert!(!connection.outbound_defer_done);
    assert_eq!(
        connection.poll_inbound(Some(None)),
        Inbound::NewStream { wake_muxer: false, wake_outbound: true }
    );
    assert_eq!(connection.mux_inbound_count, 2);
    assert_eq!(connection.poll_outbound(), Outbound::OpenChannel);
    assert_eq!(
        connection.poll_inbound(None),
        Inbound::Failed(Error::Connection("connection closed".to_string()))
    );
}

#[test]
fn dropped_streams_are_watched_in_the_browser() {
    let mut connection = Connection::new();
    assert!(!connection.poll(false));
    assert!(connection.no_drop_listeners_waker);
    assert_eq!(
        connection.poll_inbound(Some(Some(2))),
        Inbound::NewStream { wake_muxer: true, wake_outbound: false }
    );
    assert!(!connection.poll(false));
    assert!(!connection.no_drop_listeners_waker);
    assert!(connection.poll(true));
    assert_eq!(connection.drop_listeners, 0);
    assert!(!connection.poll(false));
    assert!(connection.no_drop_listeners_waker);
}

#[test]
fn a_browser_connection_closes_once() {
    let mut connection = Connection::new();
    assert!(connection.poll_close());
    assert!(!connection.poll_close());
    assert!(!connection.close_connection());
    assert!(connection.closed);
}
