//! Reading from and writing to a data channel of the browser.
use bytes::BytesMut;
use vstd::prelude::*;

use crate::buffer::{append, at_most, buffer_len, empty_buffer, read_into};
use crate::error::{ErrorKind, IoError};
use crate::poll_data_channel::{max_msg_len, MAX_MSG_LEN};

verus! {

/// The state of a data channel of the browser.
#[derive(Clone, Copy, Debug, PartialEq, Eq, Structural)]
pub enum RtcDataChannelState {
    Connecting,
    Open,
    Closing,
    Closed,
    /// A state that is not known here.
    Invalid,
}

/// Whether a channel can be used.
#[derive(Debug, PartialEq, Eq)]
pub enum Ready {
    /// Not yet; wake the asker when the channel opens.
    WaitForOpen,
    /// It can.
    Ready,
    /// It cannot any more.
    Failed(IoError),
}

/// What came of reading from a channel.
#[derive(Debug, PartialEq, Eq)]
pub enum Read {
    /// The channel is not open yet; wake the asker when it opens.
    WaitForOpen,
    /// There is nothing to read yet; wake the asker when data arrives.
    WaitForData,
    /// So many bytes were read.
    Done(usize),
    /// Reading failed.
    Failed(IoError),
}

/// How writing to a channel goes on.
#[derive(Debug, PartialEq, Eq)]
pub enum Write {
    /// The channel is not open yet; wake the asker when it opens.
    WaitForOpen,
    /// The browser holds as much as it may; wake the asker when it can take more.
    WaitForSpace,
    /// Hand so many of the first bytes to the browser.
    Send(usize),
    /// Writing failed.
    Failed(IoError),
}

/// Who waits for a channel.
#[derive(Clone, Copy, Debug, PartialEq, Eq, Structural)]
pub enum Waiter {
    /// Whoever waits for it to open.
    Open,
    /// Whoever waits for data.
    NewData,
    /// Whoever waits until the browser can take more.
    Write,
    /// Whoever waits for it to close.
    Close,
}

/// What an event handler of a channel does.
#[derive(Clone, Copy, Debug, PartialEq, Eq, Structural)]
pub enum Signal {
    /// Have this one woken on a later turn of the event loop, never from within the handler.
    WakeLater(Waiter),
    /// Nothing: the message was dropped.
    Dropped,
}

/// How closing a channel goes on.
#[derive(Clone, Copy, Debug, PartialEq, Eq, Structural)]
pub enum Close {
    /// The channel is closed.
    Done,
    /// The channel is closing; wake the asker when it is closed.
    Wait,
    /// Close the channel of the browser, and wake the asker when it is closed.
    CloseAndWait,
}

/// The mathematical form of [`PollDataChannel`].
pub struct Channel {
    /// The data that was received and not read yet.
    pub unread: Seq<u8>,
    /// Whether the remote has sent more than could be held.
    pub overloaded: bool,
}

/// The channel after a message: one that would make the unread data longer than a message may be is
/// dropped, and marks the channel for good.
pub open spec fn received(channel: Channel, data: Seq<u8>) -> Channel {
    if channel.unread.len() + data.len() > MAX_MSG_LEN {
        Channel { overloaded: true, ..channel }
    } else {
        Channel { unread: channel.unread + data, ..channel }
    }
}

/// What the browser tells of a channel.
pub enum ChannelEvent {
    Open,
    BufferedAmountLow,
    Close,
    Message(Seq<u8>),
}

/// The channel after an event.
pub open spec fn handled(channel: Channel, event: ChannelEvent) -> Channel {
    match event {
        ChannelEvent::Message(data) => received(channel, data),
        _ => channel,
    }
}

/// What the handler of an event does: it has whoever waits for the event woken later.
pub open spec fn signal(channel: Channel, event: ChannelEvent) -> Signal {
    match event {
        ChannelEvent::Open => Signal::WakeLater(Waiter::Open),
        ChannelEvent::BufferedAmountLow => Signal::WakeLater(Waiter::Write),
        ChannelEvent::Close => Signal::WakeLater(Waiter::Close),
        ChannelEvent::Message(data) => if channel.unread.len() + data.len() > MAX_MSG_LEN {
            Signal::Dropped
        } else {
            Signal::WakeLater(Waiter::NewData)
        },
    }
}

/// The channel after the first `n` bytes were read.
pub open spec fn read(channel: Channel, n: int) -> Channel {
    Channel { unread: channel.unread.skip(n), ..channel }
}

/// What a channel in `state` says of its use.
pub open spec fn readiness(channel: Channel, state: RtcDataChannelState, r: Ready) -> bool {
    match state {
        RtcDataChannelState::Connecting => r == Ready::WaitForOpen,
        RtcDataChannelState::Closing | RtcDataChannelState::Closed => r matches Ready::Failed(e)
            && e.says(ErrorKind::BrokenPipe, ErrorKind::BrokenPipe.text()),
        _ => if channel.overloaded {
            r matches Ready::Failed(e) && e.says(
                ErrorKind::BrokenPipe,
                "remote overloaded us with messages"@,
            )
        } else {
            r == Ready::Ready
        },
    }
}

/// The reading and writing side of a data channel of the browser.
pub struct PollDataChannel {
    read_buffer: BytesMut,
    overloaded: bool,
}

impl View for PollDataChannel {
    type V = Channel;

    closed spec fn view(&self) -> Channel {
        Channel {
            unread: crate::buffer::buffered(self.read_buffer),
            overloaded: self.overloaded,
        }
    }
}

/// A failure of which nothing but the kind is known.
fn broken_pipe() -> (r: IoError)
    ensures
        r.says(ErrorKind::BrokenPipe, ErrorKind::BrokenPipe.text()),
{
    IoError::new(ErrorKind::BrokenPipe, ErrorKind::BrokenPipe.description())
}

impl PollDataChannel {
    /// No more data waits to be read than a message can hold.
    pub open spec fn inv(&self) -> bool {
        self@.unread.len() <= MAX_MSG_LEN
    }

    /// A channel on which nothing arrived yet.
    pub fn new() -> (r: PollDataChannel)
        ensures
            r.inv(),
            r@ == (Channel { unread: Seq::empty(), overloaded: false }),
    {
        PollDataChannel { read_buffer: empty_buffer(), overloaded: false }
    }

    /// The channel opened.
    pub fn on_open(&self) -> (r: Signal)
        ensures
            r == signal(self@, ChannelEvent::Open),
    {
        Signal::WakeLater(Waiter::Open)
    }

    /// The browser can take more.
    pub fn on_buffered_amount_low(&self) -> (r: Signal)
        ensures
            r == signal(self@, ChannelEvent::BufferedAmountLow),
    {
        Signal::WakeLater(Waiter::Write)
    }

    /// The channel closed.
    pub fn on_close(&self) -> (r: Signal)
        ensures
            r == signal(self@, ChannelEvent::Close),
    {
        Signal::WakeLater(Waiter::Close)
    }

    /// Takes a message.
    pub fn on_message(&mut self, data: &[u8]) -> (r: Signal)
        requires
            old(self).inv(),
        ensures
            final(self).inv(),
            final(self)@ == handled(old(self)@, ChannelEvent::Message(data@)),
            r == signal(old(self)@, ChannelEvent::Message(data@)),
    {
        let held: usize = buffer_len(&self.read_buffer);
        if data.len() > max_msg_len() - held {
            self.overloaded = true;
            return Signal::Dropped;
        }
        append(&mut self.read_buffer, data);
        Signal::WakeLater(Waiter::NewData)
    }

    /// Whether the data channel is ready for reading or writing.
    pub fn poll_ready(&self, state: RtcDataChannelState) -> (r: Ready)
        ensures
            readiness(self@, state, r),
    {
        match state {
            RtcDataChannelState::Connecting => return Ready::WaitForOpen,
            RtcDataChannelState::Closing | RtcDataChannelState::Closed => {
                return Ready::Failed(broken_pipe());
            },
            RtcDataChannelState::Open | RtcDataChannelState::Invalid => {},
        }
        if self.overloaded {
            return Ready::Failed(
                IoError::new(ErrorKind::BrokenPipe, "remote overloaded us with messages"),
            );
        }
        Ready::Ready
    }

    /// Reads into `buf`: at most what it can take and what there is; the rest is kept.
    pub fn poll_read(&mut self, state: RtcDataChannelState, buf: &mut [u8]) -> (r: Read)
        requires
            old(self).inv(),
        ensures
            final(self).inv(),
            final(buf)@.len() == old(buf)@.len(),
            match r {
                Read::WaitForOpen => readiness(old(self)@, state, Ready::WaitForOpen),
                Read::Failed(e) => readiness(old(self)@, state, Ready::Failed(e)),
                Read::WaitForData => readiness(old(self)@, state, Ready::Ready) && old(
                    self,
                )@.unread.len() == 0,
                Read::Done(n) => {
                    &&& readiness(old(self)@, state, Ready::Ready)
                    &&& old(self)@.unread.len() > 0
                    &&& n == at_most(old(self)@.unread.len(), old(buf)@.len())
                    &&& final(self)@ == read(old(self)@, n as int)
                    &&& final(buf)@ == old(self)@.unread.take(n as int) + old(buf)@.skip(n as int)
                },
            },
            !(r is Done) ==> *final(self) == *old(self) && final(buf)@ == old(buf)@,
    {
        match self.poll_ready(state) {
            Ready::WaitForOpen => return Read::WaitForOpen,
            Ready::Failed(e) => return Read::Failed(e),
            Ready::Ready => {},
        }
        if buffer_len(&self.read_buffer) == 0 {
            return Read::WaitForData;
        }
        let n: usize = read_into(&mut self.read_buffer, buf);
        Read::Done(n)
    }

    /// Tells how many of `len` bytes the browser may be handed, when it still holds
    /// `buffered_amount`: it is never to hold more than a message.
    pub fn poll_write(
        &self,
        state: RtcDataChannelState,
        buffered_amount: usize,
        len: usize,
    ) -> (r: Write)
        requires
            buffered_amount <= MAX_MSG_LEN,
        ensures
            match r {
                Write::WaitForOpen => readiness(self@, state, Ready::WaitForOpen),
                Write::Failed(e) => readiness(self@, state, Ready::Failed(e)),
                Write::WaitForSpace => readiness(self@, state, Ready::Ready) && buffered_amount
                    == MAX_MSG_LEN,
                Write::Send(n) => readiness(self@, state, Ready::Ready) && buffered_amount
                    < MAX_MSG_LEN && n == at_most(
                    len as nat,
                    (MAX_MSG_LEN - buffered_amount) as nat,
                ),
            },
    {
        match self.poll_ready(state) {
            Ready::WaitForOpen => return Write::WaitForOpen,
            Ready::Failed(e) => return Write::Failed(e),
            Ready::Ready => {},
        }
        let remaining_space: usize = max_msg_len() - buffered_amount;
        if remaining_space == 0 {
            return Write::WaitForSpace;
        }
        let bytes_to_send: usize = if len <= remaining_space {
            len
        } else {
            remaining_space
        };
        Write::Send(bytes_to_send)
    }

    /// What came of handing the browser so many bytes.
    pub fn on_sent(&self, taken: bool, bytes_to_send: usize) -> (r: Result<usize, IoError>)
        ensures
            if taken {
                r == Ok::<usize, IoError>(bytes_to_send)
            } else {
                r matches Err(e) && e.says(ErrorKind::BrokenPipe, ErrorKind::BrokenPipe.text())
            },
    {
        if taken {
            Ok(bytes_to_send)
        } else {
            Err(broken_pipe())
        }
    }

    /// Whether everything was sent; if not, wake the asker when the browser can take more.
    pub fn poll_flush(&self, buffered_amount: usize) -> (done: bool)
        ensures
            done == (buffered_amount == 0),
    {
        buffered_amount == 0
    }

    /// Attempt to close the channel.
    pub fn poll_close(&self, state: RtcDataChannelState) -> (r: Close)
        ensures
            r == (match state {
                RtcDataChannelState::Closed => Close::Done,
                RtcDataChannelState::Closing => Close::Wait,
                _ => Close::CloseAndWait,
            }),
    {
        match state {
            RtcDataChannelState::Closed => Close::Done,
            RtcDataChannelState::Closing => Close::Wait,
            _ => Close::CloseAndWait,
        }
    }
}

/// How many share a channel of the browser. The last to let go must detach its event handlers
/// before they are freed.
#[derive(Debug, PartialEq, Eq)]
pub struct Shares {
    count: usize,
}

impl View for Shares {
    type V = nat;

    closed spec fn view(&self) -> nat {
        self.count as nat
    }
}

impl Shares {
    /// One holds the channel.
    pub fn new() -> (r: Shares)
        ensures
            r@ == 1,
    {
        Shares { count: 1 }
    }

    /// One more holds the channel.
    pub fn share(&mut self)
        requires
            old(self)@ < usize::MAX,
        ensures
            final(self)@ == old(self)@ + 1,
    {
        self.count += 1;
    }

    /// One less holds the channel; returns whether to detach the event handlers.
    pub fn release(&mut self) -> (detach: bool)
        requires
            old(self)@ > 0,
        ensures
            final(self)@ == old(self)@ - 1,
            detach == (final(self)@ == 0),
    {
        self.count -= 1;
        self.count == 0
    }
}

/// What happens to a channel: an event of the browser, or a read of at most so many bytes.
pub enum Happening {
    Event(ChannelEvent),
    Read(nat),
}

/// A new channel once all this happened to it.
pub open spec fn lived(happenings: Seq<Happening>) -> Channel
    decreases happenings.len(),
{
    if happenings.len() == 0 {
        Channel { unread: Seq::empty(), overloaded: false }
    } else {
        let before = lived(happenings.drop_last());
        match happenings.last() {
            Happening::Event(event) => handled(before, event),
            Happening::Read(n) => read(before, at_most(before.unread.len(), n) as int),
        }
    }
}

/// Whatever happens to a channel, no more than a message waits to be read. What the handler of the
/// next event does is to have somebody woken later, or nothing where a message does not fit; that
/// message leaves the data as it was and marks the channel for good, and one that fits is appended
/// whole.
pub proof fn law_handlers_wake_later(happenings: Seq<Happening>, event: ChannelEvent)
    ensures
        ({
            let channel = lived(happenings);
            let after = lived(happenings.push(Happening::Event(event)));
            &&& channel.unread.len() <= MAX_MSG_LEN
            &&& signal(channel, event) is WakeLater || event is Message && channel.unread.len()
                + event->0.len() > MAX_MSG_LEN
            &&& signal(channel, event) is Dropped ==> after == (Channel {
                overloaded: true,
                ..channel
            })
            &&& event is Message && signal(channel, event) is WakeLater ==> after == (Channel {
                unread: channel.unread + event->0,
                ..channel
            })
            &&& channel.overloaded ==> after.overloaded
        }),
    decreases happenings.len(),
{
    assert(happenings.push(Happening::Event(event)).drop_last() =~= happenings);
    if happenings.len() > 0 {
        law_handlers_wake_later(happenings.drop_last(), ChannelEvent::Open);
    }
}

/// A channel on which the remote sent too much at once stays unusable: no message and no read makes
/// it ready again.
pub proof fn law_overload_is_final(channel: Channel, data: Seq<u8>, n: int)
    requires
        channel.overloaded,
    ensures
        received(channel, data).overloaded,
        read(channel, n).overloaded,
        forall|state: RtcDataChannelState| !readiness(channel, state, Ready::Ready),
{
}

/// A message that fits is read back whole, behind what came before it.
pub proof fn law_messages_are_read_in_order(channel: Channel, data: Seq<u8>)
    requires
        channel.unread.len() + data.len() <= MAX_MSG_LEN,
    ensures
        read(received(channel, data), channel.unread.len() as int).unread == data,
        received(channel, data).unread.take(channel.unread.len() as int) == channel.unread,
        received(channel, data).overloaded == channel.overloaded,
{
    let all = received(channel, data).unread;
    assert(all.skip(channel.unread.len() as int) =~= data);
    assert(all.take(channel.unread.len() as int) =~= channel.unread);
}

/// Reading in two goes gives what reading in one does.
pub proof fn law_reads_compose(channel: Channel, n: int, m: int)
    requires
        0 <= n,
        0 <= m,
        n + m <= channel.unread.len(),
    ensures
        read(read(channel, n), m) == read(channel, n + m),
        channel.unread.take(n) + read(channel, n).unread.take(m) == channel.unread.take(n + m),
{
    assert(channel.unread.skip(n).skip(m) =~= channel.unread.skip(n + m));
    assert(channel.unread.take(n) + channel.unread.skip(n).take(m) =~= channel.unread.take(n + m));
}

/// Each event wakes whoever waits for that and nobody else: opening, more room at the browser,
/// closing, and data, where that fits into the 16384 bytes that may wait. Only data changes the
/// channel.
pub proof fn law_handlers_wake_who_waits(channel: Channel, data: Seq<u8>)
    ensures
        signal(channel, ChannelEvent::Open) == Signal::WakeLater(Waiter::Open),
        signal(channel, ChannelEvent::BufferedAmountLow) == Signal::WakeLater(Waiter::Write),
        signal(channel, ChannelEvent::Close) == Signal::WakeLater(Waiter::Close),
        signal(channel, ChannelEvent::Message(data)) == (if channel.unread.len() + data.len()
            <= 16384 {
            Signal::WakeLater(Waiter::NewData)
        } else {
            Signal::Dropped
        }),
        handled(channel, ChannelEvent::Open) == channel,
        handled(channel, ChannelEvent::BufferedAmountLow) == channel,
        handled(channel, ChannelEvent::Close) == channel,
        channel.unread.len() + data.len() <= 16384 ==> handled(channel, ChannelEvent::Message(data))
            == (Channel { unread: channel.unread + data, overloaded: channel.overloaded }),
        channel.unread.len() + data.len() > 16384 ==> handled(channel, ChannelEvent::Message(data))
            == (Channel { unread: channel.unread, overloaded: true }),
{
}

/// A channel can be used exactly where it is open, or in a state that is not known, and was not
/// overloaded; while it connects it is waited for, and else it failed as a broken pipe does.
pub proof fn law_what_can_be_used(channel: Channel, state: RtcDataChannelState, r: Ready)
    requires
        readiness(channel, state, r),
    ensures
        r is WaitForOpen <==> state == RtcDataChannelState::Connecting,
        r is Ready <==> !channel.overloaded && (state == RtcDataChannelState::Open || state
            == RtcDataChannelState::Invalid),
        r matches Ready::Failed(e) ==> e.kind == ErrorKind::BrokenPipe && e.message@ == (if state
            == RtcDataChannelState::Closing || state == RtcDataChannelState::Closed {
            "broken pipe"@
        } else {
            "remote overloaded us with messages"@
        }),
{
}

/// What is left of a channel after a read is what stands behind the bytes that were read.
pub proof fn law_reads_leave_the_rest(channel: Channel, n: int)
    requires
        0 <= n <= channel.unread.len(),
    ensures
        channel.unread == channel.unread.take(n) + read(channel, n).unread,
        read(channel, n).overloaded == channel.overloaded,
{
    assert(channel.unread =~= channel.unread.take(n) + read(channel, n).unread);
}

/// Reading hands out what came first, first: what was read and what is then kept are what was kept
/// before. Nothing is read, and nothing changes, while the channel is not open, is overloaded or has
/// no data.
pub proof fn law_reads_give_what_was_kept(
    channel: &mut PollDataChannel,
    state: RtcDataChannelState,
    buf: &mut [u8],
    r: Read,
)
    requires
        call_ensures(PollDataChannel::poll_read, (channel, state, buf), r),
    ensures
        r matches Read::Done(n) ==> {
            &&& n <= old(buf)@.len()
            &&& final(buf)@.take(n as int) + final(channel)@.unread == old(channel)@.unread
            &&& final(buf)@.skip(n as int) == old(buf)@.skip(n as int)
            &&& n < old(buf)@.len() ==> final(channel)@.unread.len() == 0
        },
        !(r is Done) ==> *final(channel) == *old(channel) && final(buf)@ == old(buf)@,
        r is WaitForOpen <==> state == RtcDataChannelState::Connecting,
        r is Done || r is WaitForData <==> !old(channel)@.overloaded && (state
            == RtcDataChannelState::Open || state == RtcDataChannelState::Invalid),
        r is WaitForData ==> old(channel)@.unread.len() == 0,
        r is Done ==> old(channel)@.unread.len() > 0,
{
    let all = old(channel)@.unread;
    if let Read::Done(n) = r {
        assert(final(buf)@.take(n as int) =~= all.take(n as int));
        assert(all.take(n as int) + all.skip(n as int) =~= all);
        assert(final(buf)@.skip(n as int) =~= old(buf)@.skip(n as int));
    }
}

/// The browser is never handed more than what makes 16384 bytes with those that it still holds, and
/// as much as fits of what there is to write; where nothing fits, space is waited for. Everything is
/// sent when the browser holds nothing.
pub proof fn law_the_browser_is_never_overloaded(
    channel: &PollDataChannel,
    state: RtcDataChannelState,
    buffered_amount: usize,
    len: usize,
    r: Write,
    flushed: bool,
)
    requires
        call_ensures(PollDataChannel::poll_write, (channel, state, buffered_amount, len), r),
        call_ensures(PollDataChannel::poll_flush, (channel, buffered_amount), flushed),
        buffered_amount <= 16384,
    ensures
        r matches Write::Send(n) ==> n <= len && buffered_amount + n <= 16384 && (n == len
            || buffered_amount + n == 16384) && buffered_amount < 16384,
        r is WaitForSpace ==> buffered_amount == 16384,
        r is Send || r is WaitForSpace <==> !channel@.overloaded && (state
            == RtcDataChannelState::Open || state == RtcDataChannelState::Invalid),
        r is WaitForOpen <==> state == RtcDataChannelState::Connecting,
        flushed <==> buffered_amount == 0,
{
}

/// What the browser took is what was written; where it took nothing, writing failed as a broken pipe
/// does. A closed channel is closed, one that is closing is waited for, and any other is closed
/// first.
pub proof fn law_writes_and_closes_are_followed_up(
    channel: &PollDataChannel,
    taken: bool,
    len: usize,
    sent: Result<usize, IoError>,
    state: RtcDataChannelState,
    closed: Close,
)
    requires
        call_ensures(PollDataChannel::on_sent, (channel, taken, len), sent),
        call_ensures(PollDataChannel::poll_close, (channel, state), closed),
    ensures
        sent is Ok <==> taken,
        sent matches Ok(n) ==> n == len,
        sent matches Err(e) ==> e.kind == ErrorKind::BrokenPipe,
        closed == Close::Done <==> state == RtcDataChannelState::Closed,
        closed == Close::Wait <==> state == RtcDataChannelState::Closing,
{
}

/// A message that fits is appended whole and has the reader woken later; one that does not is
/// dropped, and marks the channel. Readiness then follows from the state and that mark.
pub proof fn law_messages_are_kept_or_mark_the_channel(
    channel: &mut PollDataChannel,
    data: &[u8],
    r: Signal,
    asked: &PollDataChannel,
    state: RtcDataChannelState,
    ready: Ready,
)
    requires
        call_ensures(PollDataChannel::on_message, (channel, data), r),
        call_ensures(PollDataChannel::poll_ready, (asked, state), ready),
    ensures
        old(channel)@.unread.len() + data@.len() <= 16384 ==> {
            &&& r == Signal::WakeLater(Waiter::NewData)
            &&& final(channel)@.unread == old(channel)@.unread + data@
            &&& final(channel)@.overloaded == old(channel)@.overloaded
        },
        old(channel)@.unread.len() + data@.len() > 16384 ==> {
            &&& r == Signal::Dropped
            &&& final(channel)@.unread == old(channel)@.unread
            &&& final(channel)@.overloaded
        },
        ready is Ready <==> !asked@.overloaded && (state == RtcDataChannelState::Open || state
            == RtcDataChannelState::Invalid),
        ready is WaitForOpen <==> state == RtcDataChannelState::Connecting,
{
    law_what_can_be_used(asked@, state, ready);
}

/// The last to let go of a channel, and nobody before, detaches its event handlers.
pub proof fn law_the_last_detaches(
    shared: &mut Shares,
    more: (),
    released: &mut Shares,
    detach: bool,
)
    requires
        call_ensures(Shares::share, (shared,), more),
        call_ensures(Shares::release, (released,), detach),
        old(released)@ > 0,
    ensures
        final(shared)@ == old(shared)@ + 1,
        final(released)@ + 1 == old(released)@,
        detach <==> old(released)@ == 1,
{
}

} // verus!
