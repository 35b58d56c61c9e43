//! Reading from and writing to a data channel.
use bytes::BytesMut;
use vstd::prelude::*;

use crate::buffer::{append, buffer_len, empty_buffer, read_into};
use crate::channel::{ChannelId, Inquiry, InquiryType, RtcDataChannelState};
use crate::error::{Error, ErrorKind, IoError};
use crate::rtc::{RtcStack, WriteOutcome, Written};

verus! {

/// Maximum length of a message, and of the data that may wait to be read.
pub const MAX_MSG_LEN: usize = 16384;

/// `MAX_MSG_LEN` of `libp2p_webrtc_utils`: 16 KiB.
#[verifier::external_body]
pub(crate) fn max_msg_len() -> (r: usize)
    ensures
        r == MAX_MSG_LEN,
{
    libp2p_webrtc_utils::MAX_MSG_LEN
}

/// What came of asking the connection for the state of the channel.
#[derive(Clone, Copy, Debug, PartialEq, Eq, Structural)]
pub enum StateReply {
    /// The question could not be asked.
    NotSent,
    /// There is no answer yet.
    Pending,
    /// The question was dropped.
    Canceled,
    /// The state of the channel.
    State(RtcDataChannelState),
}

/// Whether a channel can be used.
#[derive(Debug, PartialEq, Eq)]
pub enum Ready {
    /// Not yet.
    Pending,
    /// Not yet; wake the asker when the channel opens.
    WaitForOpen,
    /// It can.
    Ready,
    /// It cannot any more.
    Failed(IoError),
}

/// What came of reading from a channel.
#[derive(Debug, PartialEq, Eq)]
pub enum Read {
    /// There is nothing to read yet; wake the asker when data arrives.
    WaitForData,
    /// So many bytes were read.
    Done(usize),
    /// Reading failed.
    Failed(IoError),
}

/// What came of closing a channel.
#[derive(Clone, Copy, Debug, PartialEq, Eq, Structural)]
pub enum Close {
    /// The channel is closed.
    Done,
    /// The channel is closing; wake the asker when it is closed.
    Wait,
}

/// The failure of a channel that was overloaded.
pub open spec fn is_overload(error: IoError) -> bool {
    error.says(ErrorKind::BrokenPipe, "remote overloaded us with messages"@)
}

fn overload() -> (r: IoError)
    ensures
        is_overload(r),
{
    IoError::new(ErrorKind::BrokenPipe, "remote overloaded us with messages")
}

/// The reading and writing side of a data channel.
pub struct PollDataChannel {
    /// The channel.
    pub channel_id: ChannelId,
    /// The state in which the channel was seen last.
    pub state: RtcDataChannelState,
    /// Data that was received and not read yet.
    pub read_buffer: BytesMut,
    /// Whether we've been overloaded with data by the remote, i.e. the remote is sending us
    /// messages faster than we can read them.
    ///
    /// From then on reading and writing fail, which will (very likely) cause the application
    /// developer to drop the stream, which resets it.
    pub overloaded: bool,
}

impl PollDataChannel {
    /// The data that was received and not read yet.
    pub open spec fn unread(&self) -> Seq<u8> {
        crate::buffer::buffered(self.read_buffer)
    }

    /// No more data waits to be read than a message can hold.
    pub open spec fn inv(&self) -> bool {
        self.unread().len() <= MAX_MSG_LEN
    }

    /// A channel of which nothing is known yet.
    pub open spec fn fresh(&self) -> bool {
        &&& self.inv()
        &&& self.unread() == Seq::<u8>::empty()
        &&& self.state == RtcDataChannelState::Opening
        &&& !self.overloaded
    }

    /// Create a new [`PollDataChannel`] for the given channel id.
    pub fn new(channel_id: ChannelId) -> (r: PollDataChannel)
        ensures
            r.channel_id == channel_id,
            r.fresh(),
    {
        PollDataChannel {
            channel_id,
            state: RtcDataChannelState::Opening,
            read_buffer: empty_buffer(),
            overloaded: false,
        }
    }

    /// The question to put to the connection, to learn the state of the channel.
    pub fn state_inquiry(&self) -> (r: Inquiry)
        ensures
            r.channel_id == Some(self.channel_id),
            r.ty == InquiryType::State,
    {
        Inquiry { channel_id: Some(self.channel_id), ty: InquiryType::State }
    }

    /// The question to put to the connection, to receive at most so many bytes.
    pub fn read_inquiry(&self, max_bytes: usize) -> (r: Inquiry)
        ensures
            r.channel_id == Some(self.channel_id),
            r.ty == (InquiryType::ReadBuffer { max_bytes }),
    {
        Inquiry { channel_id: Some(self.channel_id), ty: InquiryType::ReadBuffer { max_bytes } }
    }

    /// Makes the state of the data channel out of what came of asking for it; `None` as long as
    /// there is no answer.
    pub fn poll_state(&self, reply: StateReply) -> (r: Option<Result<RtcDataChannelState, Error>>)
        ensures
            match reply {
                StateReply::Pending => r is None,
                StateReply::State(state) => r == Some(Ok::<RtcDataChannelState, Error>(state)),
                StateReply::Canceled => r == Some(
                    Err::<RtcDataChannelState, Error>(Error::OneshotCanceled),
                ),
                StateReply::NotSent => r matches Some(Err(Error::Io(e))) && e.says(
                    ErrorKind::Other,
                    "Failed to send state_inquiry signal"@,
                ),
            },
    {
        match reply {
            StateReply::Pending => None,
            StateReply::State(state) => Some(Ok(state)),
            StateReply::Canceled => Some(Err(Error::OneshotCanceled)),
            StateReply::NotSent => Some(
                Err(Error::new(ErrorKind::Other, "Failed to send state_inquiry signal")),
            ),
        }
    }

    /// The channel once its state was seen.
    pub open spec fn seen(self, reply: StateReply) -> PollDataChannel {
        match reply {
            StateReply::State(state) => PollDataChannel { state, ..self },
            _ => self,
        }
    }

    /// Whether the data channel is ready for reading or writing (Open). One that was overloaded never
    /// is.
    pub fn poll_ready(&mut self, reply: StateReply) -> (r: Ready)
        ensures
            *final(self) == old(self).seen(reply),
            old(self).overloaded ==> (r matches Ready::Failed(e) && is_overload(e)),
            !old(self).overloaded ==> match reply {
                StateReply::Pending => r == Ready::Pending,
                StateReply::State(RtcDataChannelState::Opening) => r == Ready::WaitForOpen,
                StateReply::State(RtcDataChannelState::Open) => r == Ready::Ready,
                StateReply::State(RtcDataChannelState::Closed) => r matches Ready::Failed(e)
                    && e.says(ErrorKind::BrokenPipe, "DataChannel is closed"@),
                StateReply::Canceled | StateReply::NotSent => r matches Ready::Failed(e) && e.says(
                    ErrorKind::Other,
                    "Failed to get state from Connection"@,
                ),
            },
    {
        let polled = self.poll_state(reply);
        if let Some(Ok(state)) = &polled {
            self.state = *state;
        }
        if self.overloaded {
            return Ready::Failed(overload());
        }
        match polled {
            None => Ready::Pending,
            Some(Ok(RtcDataChannelState::Opening)) => Ready::WaitForOpen,
            Some(Ok(RtcDataChannelState::Open)) => Ready::Ready,
            Some(Ok(RtcDataChannelState::Closed)) => Ready::Failed(
                IoError::new(ErrorKind::BrokenPipe, "DataChannel is closed"),
            ),
            Some(Err(_)) => Ready::Failed(
                IoError::new(ErrorKind::Other, "Failed to get state from Connection"),
            ),
        }
    }

    /// The failure when the connection could not be asked for data.
    pub fn read_not_sent(&self) -> (r: Read)
        ensures
            r matches Read::Failed(e) && e.says(
                ErrorKind::Other,
                "Failed to send read_ready signal"@,
            ),
    {
        Read::Failed(IoError::new(ErrorKind::Other, "Failed to send read_ready signal"))
    }

    /// Reads into `buf`, once the channel is ready and the connection has answered with `input`.
    ///
    /// A channel that was overloaded is not read from. An empty answer means that there is nothing
    /// new. More unread data than a message can hold means that the remote overloads us: the answer
    /// is dropped and reading fails. Otherwise at most what the caller can take and what there is
    /// moves into `buf`, and the rest is kept.
    pub fn poll_read(&mut self, input: &[u8], buf: &mut [u8]) -> (r: Read)
        requires
            old(self).inv(),
        ensures
            final(self).inv(),
            final(self).channel_id == old(self).channel_id,
            final(self).state == old(self).state,
            final(buf)@.len() == old(buf)@.len(),
            if old(self).overloaded {
                &&& r matches Read::Failed(e) && is_overload(e)
                &&& *final(self) == *old(self)
                &&& final(buf)@ == old(buf)@
            } else if input@.len() == 0 {
                &&& r == Read::WaitForData
                &&& *final(self) == *old(self)
                &&& final(buf)@ == old(buf)@
            } else if old(self).unread().len() + input@.len() > MAX_MSG_LEN {
                &&& r matches Read::Failed(e) && is_overload(e)
                &&& final(self).overloaded
                &&& final(self).unread() == old(self).unread()
                &&& final(buf)@ == old(buf)@
            } else {
                let all = old(self).unread() + input@;
                let n = crate::buffer::at_most(all.len(), old(buf)@.len());
                &&& r == Read::Done(n as usize)
                &&& final(self).overloaded == old(self).overloaded
                &&& final(self).unread() == all.skip(n as int)
                &&& final(buf)@ == all.take(n as int) + old(buf)@.skip(n as int)
            },
    {
        if self.overloaded {
            return Read::Failed(overload());
        }
        if input.is_empty() {
            return Read::WaitForData;
        }
        let held: usize = buffer_len(&self.read_buffer);
        if input.len() > max_msg_len() - held {
            self.overloaded = true;
            return Read::Failed(overload());
        }
        append(&mut self.read_buffer, input);
        let n: usize = read_into(&mut self.read_buffer, buf);
        Read::Done(n)
    }

    /// What came of writing, once the WebRTC stack was given the data; `None` if it has no such
    /// channel.
    pub fn on_written(&self, written: Written) -> (r: Option<Result<usize, IoError>>)
        ensures
            match written {
                Written::NoChannel => r is None,
                Written::Taken(len) => r == Some(Ok::<usize, IoError>(len)),
                Written::Failed(text) => r matches Some(Err(e)) && e.says(ErrorKind::Other, text@),
            },
    {
        match written {
            Written::NoChannel => None,
            Written::Taken(len) => Some(Ok(len)),
            Written::Failed(text) => Some(Err(IoError::new(ErrorKind::Other, text.as_str()))),
        }
    }

    /// Writes to the channel, once it is ready; `None` if the WebRTC stack has no such channel. A
    /// channel that was overloaded is not written to.
    pub fn poll_write(&self, rtc: &mut RtcStack, buf: &[u8]) -> (r: Option<Result<usize, IoError>>)
        ensures
            final(rtc).same_numbers(old(rtc)),
            final(rtc).alive() == old(rtc).alive(),
            old(rtc).inv() ==> final(rtc).inv(),
            self.overloaded ==> *final(rtc) == *old(rtc) && (r matches Some(Err(e)) && is_overload(
                e,
            )),
            !self.overloaded ==> old(rtc).writes(self.channel_id, buf@, final(rtc)),
            !self.overloaded && (self.channel_id >= old(rtc).ids().len() || !old(rtc).alive())
                ==> r is None,
            !self.overloaded ==> match old(rtc).outcome(self.channel_id, buf@) {
                WriteOutcome::NoChannel => r is None,
                WriteOutcome::Taken(len) => r matches Some(Ok(n)) && n == len,
                WriteOutcome::Failed(text) => r matches Some(Err(e)) && e.says(
                    ErrorKind::Other,
                    text,
                ),
            },
    {
        if self.overloaded {
            return Some(Err(overload()));
        }
        let written = rtc.write(self.channel_id, buf);
        self.on_written(written)
    }

    /// There is no write buffer to flush.
    pub fn poll_flush(&self) -> (r: Result<(), IoError>)
        ensures
            r == Ok::<(), IoError>(()),
    {
        Ok(())
    }

    /// Attempt to close the channel.
    pub fn poll_close(&self, rtc: &mut RtcStack) -> (r: Close)
        ensures
            r == (if self.state == RtcDataChannelState::Closed {
                Close::Done
            } else {
                Close::Wait
            }),
            r is Done ==> *final(rtc) == *old(rtc),
            r is Wait ==> old(rtc).closes(self.channel_id, final(rtc)),
            final(rtc).same_numbers(old(rtc)),
            final(rtc).alive() == old(rtc).alive(),
            old(rtc).inv() ==> final(rtc).inv(),
    {
        if self.state == RtcDataChannelState::Closed {
            return Close::Done;
        }
        rtc.close_channel(self.channel_id);
        Close::Wait
    }
}

/// Seeing the state of a channel changes nothing but the state that was seen last, and that only
/// where there was an answer.
pub proof fn law_only_answers_are_seen(channel: PollDataChannel, reply: StateReply)
    ensures
        channel.seen(reply).channel_id == channel.channel_id,
        channel.seen(reply).unread() == channel.unread(),
        channel.seen(reply).overloaded == channel.overloaded,
        reply matches StateReply::State(state) ==> channel.seen(reply).state == state,
        !(reply is State) ==> channel.seen(reply).state == channel.state,
{
}

/// Reading hands out what came first, first: what was read and what is then kept are what was kept
/// before and what came in, as long as that fits; nothing of the rest of the caller's buffer changes.
/// More than a message can hold overloads the channel for good: the data is dropped, and every read
/// and write from then on fails.
pub proof fn law_reads_give_what_came(
    channel: &mut PollDataChannel,
    input: &[u8],
    buf: &mut [u8],
    r: Read,
)
    requires
        call_ensures(PollDataChannel::poll_read, (channel, input, buf), r),
        old(channel).inv(),
    ensures
        r matches Read::Done(n) ==> {
            &&& n <= old(buf)@.len()
            &&& final(buf)@.take(n as int) + final(channel).unread() == old(channel).unread()
                + input@
            &&& final(buf)@.skip(n as int) == old(buf)@.skip(n as int)
            &&& n < old(buf)@.len() ==> final(channel).unread().len() == 0
            &&& !final(channel).overloaded
        },
        !(r is Done) ==> final(buf)@ == old(buf)@ && final(channel).unread()
            == old(channel).unread(),
        r is Done <==> !old(channel).overloaded && 0 < input@.len() && old(channel).unread().len()
            + input@.len() <= 16384,
        r is WaitForData <==> !old(channel).overloaded && input@.len() == 0,
        r is Failed ==> final(channel).overloaded,
        old(channel).overloaded ==> r is Failed && final(channel).overloaded,
        final(channel).channel_id == old(channel).channel_id,
{
    let all = old(channel).unread() + input@;
    if let Read::Done(n) = r {
        assert(final(buf)@.take(n as int) =~= all.take(n as int));
        assert(all.take(n as int) + all.skip(n as int) =~= all);
        assert(final(buf)@.skip(n as int) =~= old(buf)@.skip(n as int));
    }
}

/// A channel is ready exactly where it was not overloaded and is open; while it opens it is waited
/// for. The state that was answered is the one that is seen last, and closing waits unless that is
/// closed: then nothing is left to do, and else the channel with this number is closed.
pub proof fn law_open_channels_are_ready(
    channel: &mut PollDataChannel,
    reply: StateReply,
    ready: Ready,
    closing: &PollDataChannel,
    rtc: &mut RtcStack,
    closed: Close,
)
    requires
        call_ensures(PollDataChannel::poll_ready, (channel, reply), ready),
        call_ensures(PollDataChannel::poll_close, (closing, rtc), closed),
    ensures
        ready is Ready <==> !old(channel).overloaded && reply == StateReply::State(
            RtcDataChannelState::Open,
        ),
        ready is WaitForOpen <==> !old(channel).overloaded && reply == StateReply::State(
            RtcDataChannelState::Opening,
        ),
        ready is Pending <==> !old(channel).overloaded && reply == StateReply::Pending,
        reply matches StateReply::State(state) ==> final(channel).state == state,
        final(channel).unread() == old(channel).unread(),
        final(channel).channel_id == old(channel).channel_id,
        final(channel).overloaded == old(channel).overloaded,
        closed == Close::Done <==> closing.state == RtcDataChannelState::Closed,
        closed == Close::Done ==> *final(rtc) == *old(rtc),
        closed == Close::Wait && closing.channel_id < old(rtc).ids().len() ==> final(rtc).inner()
            == crate::rtc::closing(
            old(rtc).inner(),
            old(rtc).ids()[closing.channel_id as int],
        ),
{
    if closed == Close::Wait {
        crate::rtc::lemma_closes(*old(rtc), closing.channel_id, *final(rtc));
    }
}

/// What is asked of the connection is asked of this channel, and what is written goes to it, with its
/// bytes, unless it was overloaded: then nothing is written.
pub proof fn law_channels_ask_for_themselves(
    channel: &PollDataChannel,
    max_bytes: usize,
    state: Inquiry,
    data: Inquiry,
    rtc: &mut RtcStack,
    buf: &[u8],
    r: Option<Result<usize, IoError>>,
)
    requires
        call_ensures(PollDataChannel::state_inquiry, (channel,), state),
        call_ensures(PollDataChannel::read_inquiry, (channel, max_bytes), data),
        call_ensures(PollDataChannel::poll_write, (channel, rtc, buf), r),
    ensures
        state.channel_id == Some(channel.channel_id) && state.ty == InquiryType::State,
        data.channel_id == Some(channel.channel_id) && data.ty == (InquiryType::ReadBuffer {
            max_bytes,
        }),
        channel.overloaded ==> *final(rtc) == *old(rtc) && (r matches Some(Err(e)) && e.kind
            == ErrorKind::BrokenPipe),
        !channel.overloaded && channel.channel_id >= old(rtc).ids().len() ==> r is None
            && final(rtc).inner() == old(rtc).inner(),
        !channel.overloaded && channel.channel_id < old(rtc).ids().len() ==> {
            let id = old(rtc).ids()[channel.channel_id as int];
            &&& crate::rtc::can_write(old(rtc).inner(), id, buf@, final(rtc).inner())
            &&& crate::rtc::write_outcome(old(rtc).inner(), id, buf@) matches WriteOutcome::Taken(n)
                ==> (r matches Some(Ok(len)) && len == n)
        },
{
    crate::rtc::lemma_writes(*old(rtc), channel.channel_id, buf@, *final(rtc));
}

/// What came of writing is handed on: how much was taken, or what was said; and so is what came of
/// asking for the state. Without an answer there is nothing to hand on.
pub proof fn law_outcomes_are_handed_on(
    channel: &PollDataChannel,
    written: Written,
    r: Option<Result<usize, IoError>>,
    reply: StateReply,
    state: Option<Result<RtcDataChannelState, Error>>,
)
    requires
        call_ensures(PollDataChannel::on_written, (channel, written), r),
        call_ensures(PollDataChannel::poll_state, (channel, reply), state),
    ensures
        r is None <==> written is NoChannel,
        written matches Written::Taken(len) ==> r == Some(Ok::<usize, IoError>(len)),
        written matches Written::Failed(text) ==> (r matches Some(Err(e)) && e.message@ == text@),
        state is None <==> reply is Pending,
        reply matches StateReply::State(seen) ==> state == Some(
            Ok::<RtcDataChannelState, Error>(seen),
        ),
        reply is Canceled || reply is NotSent ==> state is Some && state->0 is Err,
{
}

} // verus!
