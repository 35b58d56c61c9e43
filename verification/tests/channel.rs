use webrtc_direct::channel::{
    ChannelTable, Inquiry, InquiryType, Reply, RtcDataChannelState, StateUpdate, StateValues,
};
use webrtc_direct::error::{Error, ErrorKind, IoError};
use webrtc_direct::poll_data_channel::{PollDataChannel, Read, Ready, StateReply, MAX_MSG_LEN};
use webrtc_direct::rtc::Written;
use webrtc_direct::stream::Stream;

fn state(channel_id: u64) -> Inquiry {
    Inquiry { channel_id: Some(channel_id), ty: InquiryType::State }
}

fn read(channel_id: u64, max_bytes: usize) -> Inquiry {
    Inquiry { channel_id: Some(channel_id), ty: InquiryType::ReadBuffer { max_bytes } }
}

fn data(channel_id: u64, bytes: &[u8]) -> StateUpdate {
    StateUpdate { channel_id, state: StateValues::ReadBuffer(bytes.to_vec()) }
}

fn new_state(channel_id: u64, state: RtcDataChannelState) -> StateUpdate {
    StateUpdate { channel_id, state: StateValues::RtcState(state) }
}

#[test]
fn a_table_follows_updates() {
    let mut table = ChannelTable::new();
    assert!(!table.contains(1));
    table.open_channel(1);
    assert!(table.contains(1));
    assert_eq!(table.state(1), Some(RtcDataChannelState::Opening));
    assert_eq!(table.on_inquiry(state(1)), Reply::State(RtcDataChannelState::Opening));
    table.on_update(new_state(1, RtcDataChannelState::Open));
    assert_eq!(table.on_inquiry(state(1)), Reply::State(RtcDataChannelState::Open));
    assert_eq!(table.state(2), None);
    assert!(table.can_update(&data(1, b"x")));
    assert!(table.can_update(&new_state(1, RtcDataChannelState::Closed)));
    assert!(!table.can_update(&data(2, b"x")));
    assert!(!table.can_update(&new_state(2, RtcDataChannelState::Closed)));
}

#[test]
fn data_is_read_in_order_and_once() {
    let mut table = ChannelTable::new();
    table.open_channel(1);
    table.on_update(data(1, b"hello "));
    table.on_update(data(1, b"world"));
    assert_eq!(table.on_inquiry(read(1, 4)), Reply::ReadBuffer(b"hell".to_vec()));
    assert_eq!(table.on_inquiry(read(1, 0)), Reply::ReadBuffer(vec![]));
    assert_eq!(table.on_inquiry(read(1, 100)), Reply::ReadBuffer(b"o world".to_vec()));
    assert_eq!(table.on_inquiry(read(1, 100)), Reply::ReadBuffer(vec![]));
}

#[test]
fn channels_do_not_mix() {
    let mut table = ChannelTable::new();
    table.open_channel(1);
    table.open_channel(2);
    table.on_update(data(1, b"one"));
    table.on_update(new_state(2, RtcDataChannelState::Open));
    assert_eq!(table.on_inquiry(read(2, 9)), Reply::ReadBuffer(vec![]));
    assert_eq!(table.on_inquiry(read(1, 9)), Reply::ReadBuffer(b"one".to_vec()));
    assert_eq!(table.state(1), Some(RtcDataChannelState::Opening));
    assert_eq!(table.state(2), Some(RtcDataChannelState::Open));
}

#[test]
fn unknown_channels_are_closed_and_empty() {
    let mut table = ChannelTable::new();
    assert_eq!(table.on_inquiry(state(9)), Reply::State(RtcDataChannelState::Closed));
    assert_eq!(table.on_inquiry(read(9, 9)), Reply::ReadBuffer(vec![]));
    let nameless = Inquiry { channel_id: None, ty: InquiryType::State };
    assert_eq!(table.on_inquiry(nameless), Reply::State(RtcDataChannelState::Closed));
}

#[test]
fn a_closed_channel_is_forgotten_once_that_was_told() {
    let mut table = ChannelTable::new();
    table.open_channel(1);
    table.on_update(new_state(1, RtcDataChannelState::Closed));
    assert_eq!(table.on_inquiry(state(1)), Reply::State(RtcDataChannelState::Closed));
    table.on_reply_sent(state(1), false);
    assert!(table.contains(1));
    table.on_reply_sent(state(1), true);
    assert!(!table.contains(1));
    assert_eq!(table.on_inquiry(state(1)), Reply::State(RtcDataChannelState::Closed));
}

#[test]
fn an_open_channel_is_not_forgotten() {
    let mut table = ChannelTable::new();
    table.open_channel(1);
    table.on_reply_sent(state(1), true);
    table.on_reply_sent(read(1, 1), true);
    assert!(table.contains(1));
}

#[test]
fn readiness_follows_the_state() {
    let mut channel = PollDataChannel::new(3);
    assert_eq!(channel.state_inquiry(), state(3));
    assert_eq!(channel.read_inquiry(8), read(3, 8));
    assert_eq!(channel.poll_ready(StateReply::Pending), Ready::Pending);
    let opening = StateReply::State(RtcDataChannelState::Opening);
    assert_eq!(channel.poll_ready(opening), Ready::WaitForOpen);
    let open = StateReply::State(RtcDataChannelState::Open);
    assert_eq!(channel.poll_ready(open), Ready::Ready);
    assert_eq!(channel.state, RtcDataChannelState::Open);
    let closed = StateReply::State(RtcDataChannelState::Closed);
    assert_eq!(
        channel.poll_ready(closed),
        Ready::Failed(IoError::new(ErrorKind::BrokenPipe, "DataChannel is closed"))
    );
    for lost in [StateReply::NotSent, StateReply::Canceled] {
        assert_eq!(
            channel.poll_ready(lost),
            Ready::Failed(IoError::new(ErrorKind::Other, "Failed to get state from Connection"))
        );
    }
    assert_eq!(channel.state, RtcDataChannelState::Closed);
}

#[test]
fn states_that_cannot_be_asked_for() {
    let channel = PollDataChannel::new(3);
    assert_eq!(channel.poll_state(StateReply::Pending), None);
    assert_eq!(channel.poll_state(StateReply::Canceled), Some(Err(Error::OneshotCanceled)));
    assert_eq!(
        channel.poll_state(StateReply::NotSent),
        Some(Err(Error::new(ErrorKind::Other, "Failed to send state_inquiry signal")))
    );
    assert_eq!(
        channel.read_not_sent(),
        Read::Failed(IoError::new(ErrorKind::Other, "Failed to send read_ready signal"))
    );
}

#[test]
fn reads_keep_what_does_not_fit() {
    let mut channel = PollDataChannel::new(3);
    let mut buf = [0u8; 4];
    assert_eq!(channel.poll_read(&[], &mut buf), Read::WaitForData);
    assert_eq!(channel.poll_read(b"abcdef", &mut buf), Read::Done(4));
    assert_eq!(&buf, b"abcd");
    assert_eq!(channel.poll_read(b"g", &mut buf), Read::Done(3));
    assert_eq!(&buf, b"efgd");
}

#[test]
fn too_much_data_is_an_overload() {
    let mut channel = PollDataChannel::new(3);
    let mut buf = [0u8; 1];
    assert_eq!(MAX_MSG_LEN, libp2p_webrtc_utils::MAX_MSG_LEN);
    let full = vec![1u8; MAX_MSG_LEN];
    assert_eq!(channel.poll_read(&full, &mut buf), Read::Done(1));
    assert!(!channel.overloaded);
    assert_eq!(
        channel.poll_read(&[2, 2], &mut buf),
        Read::Failed(IoError::new(ErrorKind::BrokenPipe, "remote overloaded us with messages"))
    );
    assert!(channel.overloaded);
    // from then on everything fails
    let overload = || IoError::new(ErrorKind::BrokenPipe, "remote overloaded us with messages");
    for input in [&[2u8][..], &[]] {
        assert_eq!(channel.poll_read(input, &mut buf), Read::Failed(overload()));
    }
    for reply in [
        StateReply::State(RtcDataChannelState::Open),
        StateReply::State(RtcDataChannelState::Opening),
        StateReply::State(RtcDataChannelState::Closed),
        StateReply::Pending,
        StateReply::NotSent,
    ] {
        assert_eq!(channel.poll_ready(reply), Ready::Failed(overload()));
    }
    assert_eq!(channel.state, RtcDataChannelState::Closed);
}

#[test]
fn writes_report_what_was_taken() {
    let channel = PollDataChannel::new(3);
    assert_eq!(channel.on_written(Written::Taken(7)), Some(Ok(7)));
    assert_eq!(channel.on_written(Written::NoChannel), None);
    assert_eq!(
        channel.on_written(Written::Failed("full".to_string())),
        Some(Err(IoError::new(ErrorKind::Other, "full")))
    );
    assert_eq!(channel.poll_flush(), Ok(()));
}

#[test]
fn streams_are_over_channels() {
    let channel = Stream::new(11).into_channel();
    assert_eq!(channel.channel_id, 11);
    assert_eq!(channel.state, RtcDataChannelState::Opening);
}
