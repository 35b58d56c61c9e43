//! Streams over data channels.
use vstd::prelude::*;

use crate::channel::{ChannelId, RtcDataChannelState};
use crate::poll_data_channel::PollDataChannel;

verus! {

/// A substream on top of a WebRTC data channel.
pub struct Stream {
    inner: PollDataChannel,
}

impl Stream {
    /// The channel below the stream.
    pub closed spec fn channel_id(&self) -> ChannelId {
        self.inner.channel_id
    }

    /// Nothing was read from the stream yet, and its channel is not known to be open.
    pub closed spec fn fresh(&self) -> bool {
        self.inner.fresh()
    }

    /// A stream over the channel.
    pub fn new(channel_id: ChannelId) -> (r: Stream)
        ensures
            r.channel_id() == channel_id,
            r.fresh(),
    {
        Stream { inner: PollDataChannel::new(channel_id) }
    }

    /// The channel below the stream.
    pub fn into_channel(self) -> (r: PollDataChannel)
        ensures
            r.channel_id == self.channel_id(),
            r.fresh() == self.fresh(),
    {
        self.inner
    }
}

/// A stream is over the channel that it was made for, of which nothing is known yet, and gives it
/// back.
pub proof fn law_streams_are_over_their_channel(id: ChannelId, stream: Stream, back: PollDataChannel)
    requires
        call_ensures(Stream::new, (id,), stream),
        call_ensures(Stream::into_channel, (stream,), back),
    ensures
        back.channel_id == id,
        back.unread().len() == 0,
        back.state == RtcDataChannelState::Opening,
        !back.overloaded,
{
}

} // verus!
