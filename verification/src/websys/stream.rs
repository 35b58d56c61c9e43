//! The WebRTC [`Stream`] over the connection.
use vstd::prelude::*;

use crate::websys::error::Error;
use crate::websys::poll_data_channel::{
    readiness, Channel, PollDataChannel, Ready, RtcDataChannelState,
};

verus! {

/// A stream over a WebRTC connection.
///
/// Backed by a WebRTC data channel.
pub struct Stream {
    inner: PollDataChannel,
    dc_id: Option<u16>,
}

impl Stream {
    /// The channel below the stream.
    pub closed spec fn channel(&self) -> Channel {
        self.inner@
    }

    /// The id of the channel below the stream, where the browser gave it one.
    pub closed spec fn id(&self) -> Option<u16> {
        self.dc_id
    }

    /// A stream over a new channel.
    pub fn new(dc_id: Option<u16>) -> (r: Stream)
        ensures
            r.channel() == (Channel { unread: Seq::empty(), overloaded: false }),
            r.id() == dc_id,
    {
        Stream::from_poll_channel(PollDataChannel::new(), dc_id)
    }

    /// A stream over a channel that is in use already.
    pub fn from_poll_channel(poll_channel: PollDataChannel, dc_id: Option<u16>) -> (r: Stream)
        ensures
            r.channel() == poll_channel@,
            r.id() == dc_id,
    {
        Stream { inner: poll_channel, dc_id }
    }

    /// The channel below the stream.
    pub fn into_channel(self) -> (r: PollDataChannel)
        ensures
            r@ == self.channel(),
    {
        self.inner
    }
}

/// What waiting for a channel to open has come to; `None` as long as it is opening.
pub fn wait_until_open(poll_dc: &PollDataChannel, state: RtcDataChannelState) -> (r: Option<
    Result<(), Error>,
>)
    ensures
        match r {
            None => readiness(poll_dc@, state, Ready::WaitForOpen),
            Some(Ok(())) => readiness(poll_dc@, state, Ready::Ready),
            Some(Err(error)) => exists|e: crate::error::IoError| #[trigger]
                readiness(poll_dc@, state, Ready::Failed(e)) && error.is_connection(e.message@),
        },
{
    match poll_dc.poll_ready(state) {
        Ready::WaitForOpen => None,
        Ready::Ready => Some(Ok(())),
        Ready::Failed(e) => {
            assert(readiness(poll_dc@, state, Ready::Failed(e)));
            Some(Err(Error::Connection(e.message)))
        },
    }
}

/// Waiting for a channel is over when it is ready, or failed, and then says why; while it connects it
/// goes on. A stream is over the channel that it is made of.
pub proof fn law_waiting_ends_with_the_channel(
    channel: &PollDataChannel,
    state: RtcDataChannelState,
    r: Option<Result<(), Error>>,
    used: PollDataChannel,
    id: Option<u16>,
    stream: Stream,
    back: PollDataChannel,
)
    requires
        call_ensures(wait_until_open, (channel, state), r),
        call_ensures(Stream::from_poll_channel, (used, id), stream),
        call_ensures(Stream::into_channel, (stream,), back),
    ensures
        r is None <==> state == RtcDataChannelState::Connecting,
        r is Some && r->0 is Ok <==> !channel@.overloaded && (state == RtcDataChannelState::Open
            || state == RtcDataChannelState::Invalid),
        r matches Some(Err(e)) ==> e is Connection,
        stream.id() == id,
        back@ == used@,
{
}

} // verus!
