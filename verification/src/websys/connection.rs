//! A libp2p connection backed by a peer connection of the browser.
use vstd::prelude::*;

use crate::fingerprint::Fingerprint;
use crate::websys::error::Error;
use crate::websys::poll_data_channel::Ready;
use crate::websys::sdp::{parse_fingerprint, sdp_digest};

verus! {

/// How many inbound data channels may wait to be taken.
pub const INBOUND_CAPACITY: usize = 4;

/// For how many milliseconds the first outbound channel is held back.
pub const OUTBOUND_DEFER_MS: u64 = 400;

/// After how many inbound channels the first outbound one is no longer held back.
pub const INBOUND_BEFORE_OUTBOUND: u32 = 2;

/// The id of the channel for the Noise handshake.
pub const HANDSHAKE_CHANNEL: u16 = 0;

/// A data channel that the browser is to create.
#[derive(Debug, PartialEq, Eq)]
pub struct DataChannelInit {
    /// The label of the channel.
    pub label: &'static str,
    /// Whether both sides know the channel beforehand.
    pub negotiated: bool,
    /// The id of the channel, where it is given; otherwise the browser picks one.
    pub id: Option<u16>,
    /// Whether messages come as array buffers.
    pub array_buffer: bool,
}

/// What becomes of an inbound data channel.
#[derive(Debug, PartialEq, Eq)]
pub enum Inbound {
    /// Nothing, it is not one of the muxer: look for the next.
    Ignore,
    /// It gets a stream. The muxer and the outbound side are to be woken as told.
    NewStream { wake_muxer: bool, wake_outbound: bool },
    /// There is none any more.
    Failed(Error),
}

/// How opening an outbound stream goes on.
#[derive(Debug, PartialEq, Eq)]
pub enum Outbound {
    /// Start to wait for so many milliseconds, and see whether they are over.
    StartDefer { millis: u64 },
    /// See whether the wait is over.
    PollDefer,
    /// Create a data channel, and see whether it is ready.
    OpenChannel,
    /// See whether the channel that is opening is ready.
    PollChannel,
    /// Nothing is ready.
    Pending,
    /// The channel gets a stream. The muxer is to be woken as told.
    NewStream { wake_muxer: bool },
    /// The channel failed.
    Failed(Error),
}

/// A WebRTC Connection.
///
/// It does no I/O: whoever drives it holds the browser's objects and carries out what comes back.
#[derive(Debug, PartialEq, Eq)]
pub struct Connection {
    /// Whether the connection is closed
    pub closed: bool,
    /// How many streams have not been dropped.
    pub drop_listeners: u64,
    /// Whether the muxer waits for a stream to be there.
    pub no_drop_listeners_waker: bool,
    /// Monotonic muxer substream counter (independent of SCTP id).
    pub mux_inbound_count: u32,
    pub mux_outbound_count: u32,
    /// Whether an outbound data channel is waiting for `open` before it is handed to the muxer.
    pub outbound_opening: bool,
    /// Browser (DTLS client) opens even SCTP ids; defer so the answerer's odd channels land first.
    pub outbound_defer: bool,
    pub outbound_defer_done: bool,
    /// Whether the outbound side waits for the end of the deferral.
    pub outbound_defer_waker: bool,
}

/// How the channel to create is set up: with `negotiated` it is the one for the Noise handshake,
/// which both sides create under the same id; without it the browser picks the next id.
pub open spec fn channel_init(negotiated: bool, init: DataChannelInit) -> bool {
    &&& init.label@ == ""@
    &&& init.negotiated == negotiated
    &&& init.id == (if negotiated {
        Some(HANDSHAKE_CHANNEL)
    } else {
        None
    })
    &&& init.array_buffer
}

/// Creates a data channel.
pub fn new_data_channel(negotiated: bool) -> (r: DataChannelInit)
    ensures
        channel_init(negotiated, r),
{
    DataChannelInit {
        label: "",
        negotiated,
        // id is only ever set to zero when negotiated is true
        id: if negotiated {
            Some(HANDSHAKE_CHANNEL)
        } else {
            None
        },
        array_buffer: true,
    }
}

/// Creates negotiated data channel 0 for Noise (must exist before creating the SDP offer).
pub fn create_handshake_data_channel() -> (r: DataChannelInit)
    ensures
        channel_init(true, r),
{
    new_data_channel(true)
}

/// Creates a regular data channel for when the connection is already established.
pub fn new_regular_data_channel() -> (r: DataChannelInit)
    ensures
        channel_init(false, r),
{
    new_data_channel(false)
}

/// The fingerprint of this side's certificate, out of the local description, where there is one.
pub fn local_fingerprint(sdp: Option<&str>) -> (r: Result<Fingerprint, Error>)
    requires
        sdp matches Some(sdp) ==> sdp_digest(sdp@) != Some(None::<Seq<u8>>),
    ensures
        match (sdp, r) {
            (None, Err(e)) => e.is_js("No local description"@),
            (Some(sdp), Ok(fp)) => sdp_digest(sdp@) == Some(Some(fp@)),
            (Some(sdp), Err(e)) => sdp_digest(sdp@) is None && e.is_js("No fingerprint in SDP"@),
            (None, Ok(_)) => false,
        },
{
    match sdp {
        None => Err(Error::Js("No local description".to_owned())),
        Some(sdp) => match parse_fingerprint(sdp) {
            Some(fingerprint) => Ok(fingerprint),
            None => Err(Error::Js("No fingerprint in SDP".to_owned())),
        },
    }
}

impl Connection {
    /// While an outbound channel is held back none is opening; afterwards nothing waits for that.
    pub open spec fn inv(&self) -> bool {
        &&& !self.outbound_defer_done ==> !self.outbound_opening && self.mux_outbound_count == 0
        &&& self.outbound_defer_done ==> !self.outbound_defer && !self.outbound_defer_waker
        &&& self.mux_inbound_count >= INBOUND_BEFORE_OUTBOUND ==> self.outbound_defer_done
    }

    /// A connection to which nothing happened yet.
    pub open spec fn fresh() -> Connection {
        Connection {
            closed: false,
            drop_listeners: 0,
            no_drop_listeners_waker: false,
            mux_inbound_count: 0,
            mux_outbound_count: 0,
            outbound_opening: false,
            outbound_defer: false,
            outbound_defer_done: false,
            outbound_defer_waker: false,
        }
    }

    /// Create a new WebRTC Connection
    pub fn new() -> (r: Connection)
        ensures
            r.inv(),
            r == Connection::fresh(),
    {
        Connection {
            closed: false,
            drop_listeners: 0,
            no_drop_listeners_waker: false,
            mux_inbound_count: 0,
            mux_outbound_count: 0,
            outbound_opening: false,
            outbound_defer: false,
            outbound_defer_done: false,
            outbound_defer_waker: false,
        }
    }

    /// The connection with one stream more.
    pub open spec fn with_stream(self) -> Connection {
        Connection {
            drop_listeners: (self.drop_listeners + 1) as u64,
            no_drop_listeners_waker: false,
            ..self
        }
    }

    /// Notes a new stream; returns whether to wake the muxer.
    fn new_stream(&mut self) -> (wake_muxer: bool)
        requires
            old(self).drop_listeners < u64::MAX,
        ensures
            *final(self) == old(self).with_stream(),
            wake_muxer == old(self).no_drop_listeners_waker,
    {
        let wake_muxer = self.no_drop_listeners_waker;
        self.no_drop_listeners_waker = false;
        self.drop_listeners += 1;
        wake_muxer
    }

    /// Closes the Peer Connection, once; returns whether to close that of the browser.
    ///
    /// This closes the data channels also and they will return an error
    /// if they are used.
    pub fn close_connection(&mut self) -> (close: bool)
        ensures
            *final(self) == (Connection { closed: true, ..*old(self) }),
            close == !old(self).closed,
    {
        let close = !self.closed;
        self.closed = true;
        close
    }

    /// The connection after an inbound channel of the muxer: the second ends the deferral.
    pub open spec fn with_inbound(self) -> Connection {
        let counted = Connection {
            mux_inbound_count: (self.mux_inbound_count + 1) as u32,
            ..self.with_stream()
        };
        if counted.mux_inbound_count >= INBOUND_BEFORE_OUTBOUND && !self.outbound_defer_done {
            Connection {
                outbound_defer_done: true,
                outbound_defer: false,
                outbound_defer_waker: false,
                ..counted
            }
        } else {
            counted
        }
    }

    /// The connection after the next inbound data channel, or none any more.
    pub open spec fn after_inbound(self, channel: Option<Option<u16>>) -> Connection {
        if channel is None || channel->0 == Some(HANDSHAKE_CHANNEL) {
            self
        } else {
            self.with_inbound()
        }
    }

    /// Takes the next inbound data channel, by its id; `None` if there will not be any more.
    pub fn poll_inbound(&mut self, channel: Option<Option<u16>>) -> (r: Inbound)
        requires
            old(self).inv(),
            old(self).drop_listeners < u64::MAX,
            old(self).mux_inbound_count < u32::MAX,
        ensures
            final(self).inv(),
            *final(self) == old(self).after_inbound(channel),
            match channel {
                None => r matches Inbound::Failed(e) && e.is_connection("connection closed"@),
                Some(id) => if id == Some(HANDSHAKE_CHANNEL) {
                    r == Inbound::Ignore
                } else {
                    r == (Inbound::NewStream {
                        wake_muxer: old(self).no_drop_listeners_waker,
                        wake_outbound: old(self).outbound_defer_waker
                            && final(self).outbound_defer_done,
                    })
                },
            },
    {
        match channel {
            Some(id) => {
                if let Some(id) = id {
                    if id == HANDSHAKE_CHANNEL {
                        // negotiated noise, not muxer
                        return Inbound::Ignore;
                    }
                }
                self.mux_inbound_count += 1;
                let wake_muxer = self.new_stream();
                let mut wake_outbound = false;
                if self.mux_inbound_count >= INBOUND_BEFORE_OUTBOUND && !self.outbound_defer_done {
                    self.outbound_defer_done = true;
                    self.outbound_defer = false;
                    wake_outbound = self.outbound_defer_waker;
                    self.outbound_defer_waker = false;
                }
                Inbound::NewStream { wake_muxer, wake_outbound }
            },
            None => Inbound::Failed(Error::Connection("connection closed".to_owned())),
        }
    }

    /// Goes on with an outbound channel, now that none is held back.
    fn open_outbound(&mut self) -> (r: Outbound)
        ensures
            *final(self) == (Connection { outbound_opening: true, ..*old(self) }),
            r == (if old(self).outbound_opening {
                Outbound::PollChannel
            } else {
                Outbound::OpenChannel
            }),
    {
        if self.outbound_opening {
            Outbound::PollChannel
        } else {
            self.outbound_opening = true;
            Outbound::OpenChannel
        }
    }

    /// The connection once it was asked for an outbound stream.
    pub open spec fn after_outbound(self) -> Connection {
        if self.outbound_defer_done {
            Connection { outbound_opening: true, ..self }
        } else {
            Connection { outbound_defer: true, outbound_defer_waker: true, ..self }
        }
    }

    /// Asks for an outbound stream. The first is held back for a while.
    pub fn poll_outbound(&mut self) -> (r: Outbound)
        requires
            old(self).inv(),
        ensures
            final(self).inv(),
            *final(self) == old(self).after_outbound(),
            r == (if old(self).outbound_defer_done {
                if old(self).outbound_opening {
                    Outbound::PollChannel
                } else {
                    Outbound::OpenChannel
                }
            } else if old(self).outbound_defer {
                Outbound::PollDefer
            } else {
                Outbound::StartDefer { millis: OUTBOUND_DEFER_MS }
            }),
    {
        if !self.outbound_defer_done {
            let started = self.outbound_defer;
            self.outbound_defer = true;
            self.outbound_defer_waker = true;
            return if started {
                Outbound::PollDefer
            } else {
                Outbound::StartDefer { millis: OUTBOUND_DEFER_MS }
            };
        }
        self.open_outbound()
    }

    /// The connection once it is known whether the wait is over.
    pub open spec fn after_defer(self, elapsed: bool) -> Connection {
        if elapsed {
            Connection {
                outbound_defer: false,
                outbound_defer_waker: false,
                outbound_defer_done: true,
                outbound_opening: true,
                ..self
            }
        } else {
            self
        }
    }

    /// Goes on with whether the wait before the first outbound channel is over.
    pub fn on_defer_polled(&mut self, elapsed: bool) -> (r: Outbound)
        requires
            old(self).inv(),
        ensures
            final(self).inv(),
            *final(self) == old(self).after_defer(elapsed),
            r == (if !elapsed {
                Outbound::Pending
            } else if old(self).outbound_opening {
                Outbound::PollChannel
            } else {
                Outbound::OpenChannel
            }),
    {
        if !elapsed {
            return Outbound::Pending;
        }
        self.outbound_defer = false;
        self.outbound_defer_waker = false;
        self.outbound_defer_done = true;
        self.open_outbound()
    }

    /// The connection once it is known whether the channel that is opening is ready.
    pub open spec fn after_channel(self, ready: Ready) -> Connection {
        match ready {
            Ready::WaitForOpen => self,
            Ready::Failed(_) => Connection { outbound_opening: false, ..self },
            Ready::Ready => Connection {
                outbound_opening: false,
                mux_outbound_count: (self.mux_outbound_count + 1) as u32,
                ..self.with_stream()
            },
        }
    }

    /// Goes on with whether the channel that is opening is ready.
    pub fn on_channel_polled(&mut self, ready: Ready) -> (r: Outbound)
        requires
            old(self).inv(),
            old(self).outbound_opening,
            old(self).drop_listeners < u64::MAX,
            old(self).mux_outbound_count < u32::MAX,
        ensures
            final(self).inv(),
            *final(self) == old(self).after_channel(ready),
            match ready {
                Ready::WaitForOpen => r == Outbound::Pending,
                Ready::Failed(e) => r matches Outbound::Failed(error) && error.is_connection(
                    e.message@,
                ),
                Ready::Ready => r == (Outbound::NewStream {
                    wake_muxer: old(self).no_drop_listeners_waker,
                }),
            },
    {
        match ready {
            Ready::WaitForOpen => Outbound::Pending,
            Ready::Failed(e) => {
                self.outbound_opening = false;
                Outbound::Failed(Error::Connection(e.message))
            },
            Ready::Ready => {
                self.outbound_opening = false;
                self.mux_outbound_count += 1;
                Outbound::NewStream { wake_muxer: self.new_stream() }
            },
        }
    }

    /// Closes the Peer Connection; returns whether to close that of the browser.
    pub fn poll_close(&mut self) -> (close: bool)
        ensures
            *final(self) == (Connection { closed: true, ..*old(self) }),
            close == !old(self).closed,
    {
        self.close_connection()
    }

    /// Takes one step of polling: `dropped` tells whether a stream was dropped. Returns whether to
    /// poll on; if not, nothing is ready, and where no stream is left the muxer is woken by the
    /// next one.
    pub fn poll(&mut self, dropped: bool) -> (again: bool)
        requires
            dropped ==> old(self).drop_listeners > 0,
        ensures
            again == dropped,
            *final(self) == (if dropped {
                Connection { drop_listeners: (old(self).drop_listeners - 1) as u64, ..*old(self) }
            } else if old(self).drop_listeners == 0 {
                Connection { no_drop_listeners_waker: true, ..*old(self) }
            } else {
                *old(self)
            }),
    {
        if dropped {
            self.drop_listeners -= 1;
            return true;
        }
        if self.drop_listeners == 0 {
            self.no_drop_listeners_waker = true;
        }
        false
    }
}

/// No outbound channel opens before the wait is over or two inbound ones are there; once that is so
/// it stays so.
pub proof fn law_outbound_waits_for_inbound(connection: Connection)
    requires
        connection.inv(),
    ensures
        connection.outbound_opening || connection.mux_outbound_count > 0
            ==> connection.outbound_defer_done,
        connection.outbound_defer_done ==> connection.with_inbound().outbound_defer_done,
        connection.mux_inbound_count == 1 ==> connection.with_inbound().outbound_defer_done,
{
}

/// What happens to the streams of a connection.
pub enum MuxEvent {
    /// An inbound data channel came, or none will any more.
    Inbound(Option<Option<u16>>),
    /// An outbound stream was asked for.
    Outbound,
    /// It was seen whether the wait is over.
    Defer(bool),
    /// It was seen whether the channel that is opening is ready.
    Channel(Ready),
}

/// A connection, with what became of its outbound data channels.
pub struct Muxed {
    pub connection: Connection,
    /// How many were created.
    pub created: nat,
    /// How many were handed out.
    pub handed_out: nat,
    /// How many failed.
    pub failed: nat,
    /// Whether the wait was over once.
    pub waited: bool,
}

/// The event has an outbound data channel created.
pub open spec fn creates(connection: Connection, event: MuxEvent) -> bool {
    !connection.outbound_opening && match event {
        MuxEvent::Outbound => connection.outbound_defer_done,
        MuxEvent::Defer(elapsed) => elapsed,
        _ => false,
    }
}

/// A new connection once all this happened to it. Where no channel is opening, none is looked at.
pub open spec fn muxed(events: Seq<MuxEvent>) -> Muxed
    decreases events.len(),
{
    if events.len() == 0 {
        Muxed {
            connection: Connection::fresh(),
            created: 0,
            handed_out: 0,
            failed: 0,
            waited: false,
        }
    } else {
        let before = muxed(events.drop_last());
        let event = events.last();
        let created = if creates(before.connection, event) {
            before.created + 1
        } else {
            before.created
        };
        match event {
            MuxEvent::Inbound(channel) => Muxed {
                connection: before.connection.after_inbound(channel),
                ..before
            },
            MuxEvent::Outbound => Muxed {
                connection: before.connection.after_outbound(),
                created,
                ..before
            },
            MuxEvent::Defer(elapsed) => Muxed {
                connection: before.connection.after_defer(elapsed),
                created,
                waited: before.waited || elapsed,
                ..before
            },
            MuxEvent::Channel(ready) => if !before.connection.outbound_opening {
                before
            } else {
                Muxed {
                    connection: before.connection.after_channel(ready),
                    handed_out: if ready is Ready {
                        before.handed_out + 1
                    } else {
                        before.handed_out
                    },
                    failed: if ready is Failed {
                        before.failed + 1
                    } else {
                        before.failed
                    },
                    ..before
                }
            },
        }
    }
}

/// Whatever happens to a connection, no outbound channel is created before the wait is over or two
/// inbound ones are there. At most one is opening at a time: each that was created is opening, or was
/// handed out once, or failed. Those that were handed out are counted. Once none is held back, asking
/// for a stream has a channel created exactly where none is opening. (No more may happen than the
/// counters can hold.)
pub proof fn law_outbound_streams_open_one_at_a_time(events: Seq<MuxEvent>)
    requires
        events.len() < u32::MAX,
    ensures
        ({
            let m = muxed(events);
            &&& m.connection.inv()
            &&& m.created > 0 ==> m.waited || m.connection.mux_inbound_count
                >= INBOUND_BEFORE_OUTBOUND
            &&& m.created == m.handed_out + m.failed + (if m.connection.outbound_opening {
                1nat
            } else {
                0nat
            })
            &&& m.connection.mux_outbound_count == m.handed_out
            &&& m.connection.mux_inbound_count <= events.len()
            &&& m.handed_out <= events.len()
            &&& m.connection.drop_listeners <= events.len()
            &&& m.connection.outbound_defer_done ==> creates(m.connection, MuxEvent::Outbound)
                == !m.connection.outbound_opening
            &&& m.connection.outbound_defer_done ==> m.waited || m.connection.mux_inbound_count
                >= INBOUND_BEFORE_OUTBOUND
        }),
    decreases events.len(),
{
    if events.len() > 0 {
        law_outbound_streams_open_one_at_a_time(events.drop_last());
    }
}

/// The channel of the Noise handshake is the only one with a given id, and no regular channel asks
/// for it.
pub proof fn law_handshake_channel_is_apart(handshake: DataChannelInit, regular: DataChannelInit)
    requires
        channel_init(true, handshake),
        channel_init(false, regular),
    ensures
        handshake.id == Some(HANDSHAKE_CHANNEL),
        regular.id is None,
{
}

/// An inbound channel of the muxer, and it alone, counts as one more inbound channel and one more
/// stream, and whoever waits for a stream no longer has to; the second ends the wait of the outbound
/// side. The channel for the Noise handshake, and the end of channels, change nothing.
pub proof fn law_inbound_channels_are_counted(connection: Connection, channel: Option<Option<u16>>)
    requires
        connection.inv(),
        connection.drop_listeners < u64::MAX,
        connection.mux_inbound_count < u32::MAX,
    ensures
        ({
            let after = connection.after_inbound(channel);
            if channel == None::<Option<u16>> || channel == Some(Some(0u16)) {
                after == connection
            } else {
                &&& after.mux_inbound_count == connection.mux_inbound_count + 1
                &&& after.drop_listeners == connection.drop_listeners + 1
                &&& !after.no_drop_listeners_waker
                &&& after.outbound_defer_done <==> connection.outbound_defer_done
                    || connection.mux_inbound_count >= 1
                &&& after.outbound_defer_done ==> !after.outbound_defer
                    && !after.outbound_defer_waker
                &&& !after.outbound_defer_done ==> after.outbound_defer == connection.outbound_defer
                    && after.outbound_defer_waker == connection.outbound_defer_waker
                &&& after.mux_outbound_count == connection.mux_outbound_count
                &&& after.outbound_opening == connection.outbound_opening
                &&& after.closed == connection.closed
            }
        }),
{
}

/// Asking for an outbound stream, before the wait is over, starts it and has the asker wait; after
/// that it has a channel opening. The end of the wait has one opening at once, and before that
/// nothing changes. None of this counts as a stream.
pub proof fn law_outbound_requests_wait_or_open(connection: Connection)
    requires
        connection.inv(),
    ensures
        ({
            let asked = connection.after_outbound();
            let over = connection.after_defer(true);
            &&& connection.outbound_defer_done ==> asked.outbound_opening && !asked.outbound_defer
                && !asked.outbound_defer_waker
            &&& !connection.outbound_defer_done ==> asked.outbound_defer
                && asked.outbound_defer_waker && !asked.outbound_opening
            &&& asked.outbound_defer_done == connection.outbound_defer_done
            &&& over.outbound_defer_done && over.outbound_opening && !over.outbound_defer
                && !over.outbound_defer_waker
            &&& connection.after_defer(false) == connection
            &&& forall|after: Connection|
                after == asked || after == over ==> {
                    &&& #[trigger] after.drop_listeners == connection.drop_listeners
                    &&& after.no_drop_listeners_waker == connection.no_drop_listeners_waker
                    &&& after.mux_inbound_count == connection.mux_inbound_count
                    &&& after.mux_outbound_count == connection.mux_outbound_count
                    &&& after.closed == connection.closed
                }
        }),
{
}

/// A channel that is ready becomes one more outbound stream, and no longer opens, as one that failed
/// does not; one that is still opening changes nothing.
pub proof fn law_ready_channels_become_streams(connection: Connection, ready: Ready)
    requires
        connection.inv(),
        connection.outbound_opening,
        connection.drop_listeners < u64::MAX,
        connection.mux_outbound_count < u32::MAX,
    ensures
        ({
            let after = connection.after_channel(ready);
            let streams = if ready is Ready {
                1int
            } else {
                0int
            };
            &&& ready is WaitForOpen ==> after == connection
            &&& !(ready is WaitForOpen) ==> !after.outbound_opening
            &&& after.mux_outbound_count == connection.mux_outbound_count + streams
            &&& after.drop_listeners == connection.drop_listeners + streams
            &&& ready is Ready ==> !after.no_drop_listeners_waker
            &&& !(ready is Ready) ==> after.no_drop_listeners_waker
                == connection.no_drop_listeners_waker
            &&& after.mux_inbound_count == connection.mux_inbound_count
            &&& after.outbound_defer == connection.outbound_defer
            &&& after.outbound_defer_done == connection.outbound_defer_done
            &&& after.outbound_defer_waker == connection.outbound_defer_waker
            &&& after.closed == connection.closed
        }),
{
}

/// A new connection is open, has no streams, and neither holds anything back nor waits.
pub proof fn law_new_connections_are_empty()
    ensures
        ({
            let new = Connection::fresh();
            &&& !new.closed
            &&& new.drop_listeners == 0
            &&& new.mux_inbound_count == 0
            &&& new.mux_outbound_count == 0
            &&& !new.no_drop_listeners_waker
            &&& !new.outbound_opening
            &&& !new.outbound_defer
            &&& !new.outbound_defer_done
            &&& !new.outbound_defer_waker
        }),
{
}

/// Every channel is created without a label and gives its messages as array buffers. The one for the
/// Noise handshake is known to both sides under the id zero; of a regular one neither side knows
/// beforehand, and the browser picks its id.
pub proof fn law_channels_are_set_up_for_their_use(negotiated: bool, init: DataChannelInit)
    requires
        channel_init(negotiated, init),
    ensures
        init.label@.len() == 0,
        init.array_buffer,
        init.negotiated == negotiated,
        negotiated ==> init.id == Some(0u16),
        !negotiated ==> init.id is None,
{
    reveal_strlit("");
}

/// What becomes of an inbound channel: the one for the Noise handshake is none of the muxer's; any
/// other gets a stream, has whoever waits for one woken, and, as the second, has the outbound side
/// woken, where that waits. Where there will be none any more, the connection failed.
pub proof fn law_inbound_channels_wake_who_waits(
    connection: &mut Connection,
    channel: Option<Option<u16>>,
    r: Inbound,
)
    requires
        call_ensures(Connection::poll_inbound, (connection, channel), r),
        old(connection).inv(),
        old(connection).mux_inbound_count < u32::MAX,
    ensures
        r is Ignore <==> channel == Some(Some(0u16)),
        r is Failed <==> channel is None,
        r matches Inbound::NewStream { wake_muxer, wake_outbound } ==> {
            &&& wake_muxer == old(connection).no_drop_listeners_waker
            &&& wake_outbound <==> old(connection).outbound_defer_waker
                && old(connection).mux_inbound_count >= 1
            &&& final(connection).mux_inbound_count == old(connection).mux_inbound_count + 1
        },
        !(r is NewStream) ==> *final(connection) == *old(connection),
{
}

/// How an outbound stream is opened: before the wait is over it is started once, for 400 milliseconds,
/// and then looked at; after that a channel is created where none is opening, and the one that is
/// opening looked at. The end of the wait goes on at once; before it, nothing is ready.
pub proof fn law_outbound_streams_go_step_by_step(
    asked: &mut Connection,
    asking: Outbound,
    waiting: &mut Connection,
    elapsed: bool,
    waited: Outbound,
)
    requires
        call_ensures(Connection::poll_outbound, (asked,), asking),
        call_ensures(Connection::on_defer_polled, (waiting, elapsed), waited),
    ensures
        !old(asked).outbound_defer_done && !old(asked).outbound_defer ==> asking
            == (Outbound::StartDefer { millis: 400 }),
        !old(asked).outbound_defer_done && old(asked).outbound_defer ==> asking
            == Outbound::PollDefer,
        old(asked).outbound_defer_done && !old(asked).outbound_opening ==> asking
            == Outbound::OpenChannel && final(asked).outbound_opening,
        old(asked).outbound_defer_done && old(asked).outbound_opening ==> asking
            == Outbound::PollChannel && *final(asked) == *old(asked),
        !elapsed ==> waited == Outbound::Pending && *final(waiting) == *old(waiting),
        elapsed ==> final(waiting).outbound_defer_done && final(waiting).outbound_opening,
        elapsed && !old(waiting).outbound_opening ==> waited == Outbound::OpenChannel,
        elapsed && old(waiting).outbound_opening ==> waited == Outbound::PollChannel,
{
}

/// A channel that is ready is handed out as a stream, and whoever waits for one woken; one that
/// failed says why; one that is still opening is waited for.
pub proof fn law_ready_channels_are_handed_out(
    connection: &mut Connection,
    ready: Ready,
    r: Outbound,
)
    requires
        call_ensures(Connection::on_channel_polled, (connection, ready), r),
    ensures
        ready is WaitForOpen ==> r == Outbound::Pending && *final(connection) == *old(connection),
        ready is Ready ==> r == (Outbound::NewStream {
            wake_muxer: old(connection).no_drop_listeners_waker,
        }) && !final(connection).outbound_opening,
        ready matches Ready::Failed(e) ==> (r matches Outbound::Failed(Error::Connection(text))
            && text@ == e.message@) && !final(connection).outbound_opening,
{
}

/// A connection closes once: the first call closes that of the browser, and no later one does.
pub proof fn law_connections_close_once(
    first: &mut Connection,
    closes: bool,
    second: &mut Connection,
    again: bool,
)
    requires
        call_ensures(Connection::close_connection, (first,), closes),
        call_ensures(Connection::poll_close, (second,), again),
        *old(second) == *final(first),
    ensures
        closes <==> !old(first).closed,
        !again,
        *final(second) == *final(first),
        final(first).closed,
        final(first).drop_listeners == old(first).drop_listeners,
{
}

/// A stream that was dropped is counted off, and the next looked for; where none is left, whoever
/// polls waits for a stream to be there. The fingerprint of this side is the one in its description,
/// and without a description there is none.
pub proof fn law_dropped_streams_are_counted_off(
    connection: &mut Connection,
    dropped: bool,
    again: bool,
    sdp: Option<&str>,
    fingerprint: Result<Fingerprint, Error>,
)
    requires
        call_ensures(Connection::poll, (connection, dropped), again),
        call_ensures(local_fingerprint, (sdp,), fingerprint),
        dropped ==> old(connection).drop_listeners > 0,
    ensures
        again == dropped,
        dropped ==> final(connection).drop_listeners + 1 == old(connection).drop_listeners,
        !dropped ==> final(connection).drop_listeners == old(connection).drop_listeners,
        !dropped && old(connection).drop_listeners == 0 ==> final(
            connection).no_drop_listeners_waker,
        !dropped && old(connection).drop_listeners > 0 ==> *final(connection) == *old(connection),
        sdp is None ==> fingerprint is Err,
        fingerprint matches Ok(fp) ==> sdp is Some && sdp_digest(sdp->0@) == Some(Some(fp@)),
        sdp is Some && fingerprint is Err ==> sdp_digest(sdp->0@) is None,
{
}

} // verus!
