//! This module contains the `UDPManager` struct which is responsible for managing the UDP
//! connections used by the WebRTC transport.
use str0m::change::DtlsCert;
use str0m::Rtc;
use vstd::prelude::*;

use crate::addr_map::AddrMap;
use crate::certificate::{copy_certificate, dtls_digest};
use crate::connection::{acts, Act, Action, Connection, Opening, OpeningEvent, Progress};
use crate::error::{Error, ErrorKind};
use crate::net::SocketAddr;
use crate::rtc::{
    accepted, can_elapse, can_receive, complaint, unusable, was_handed, Received, RtcStack,
    StackOutput,
};
use crate::rtc_client::RtcClient;
use crate::stun::{classify_datagram, is_dtls, is_media, recognised, stun_message, Datagram};
use crate::time::{Clock, Instant};
use crate::upgrade::is_noise_channel;

verus! {

/// The maximum transmission unit (MTU) for the UDP connections.
pub const RECEIVE_MTU: usize = 8192;

/// The address of a new remote that wants to connect on this socket.
#[derive(Clone, Copy, Debug, PartialEq, Eq, Structural)]
pub struct NewRemote {
    pub addr: SocketAddr,
}

/// Events emitted by the [`UDPManager`].
/// The [`UDPManager`] handles every event internally except for new remote addresses that want to
/// connect on this socket, so that these can be upgraded accordingly, and errors.
#[derive(Debug, PartialEq, Eq)]
pub enum UDPManagerEvent {
    /// New remote addresses want to connect on this socket.
    NewRemoteAddress(Vec<NewRemote>),
    /// Error event.
    Error(Error),
}

/// An open connection: where its datagrams go.
pub struct ConnectionContext<Tx> {
    /// Takes datagrams for the connection's event loop.
    pub tx: Tx,
}

/// An opening connection and the WebRTC stack below it.
pub struct OpeningConnection {
    pub connection: Connection<Opening>,
    pub rtc: RtcStack,
}

/// A pending timeout of an opening connection.
#[derive(Clone, Copy, Debug, PartialEq, Eq, Structural)]
pub enum Timer {
    /// It expires at this instant.
    At(Instant),
}

impl Timer {
    /// The nanoseconds that are left at `now` until the timer expires.
    pub open spec fn left(self, now: Instant) -> int {
        match self {
            Timer::At(deadline) => crate::time::nanos_until(deadline, now),
        }
    }

    /// The timer has expired by `now`.
    pub open spec fn expired(self, now: Instant) -> bool {
        self.left(now) == 0
    }

    /// The nanoseconds that are left at `now` until the timer expires.
    pub fn remaining_from(&self, now: Instant) -> (r: u64)
        ensures
            r == self.left(now),
    {
        match self {
            Timer::At(deadline) => deadline.remaining_from(now),
        }
    }
}

/// Events received from opening connections.
#[derive(Clone, Copy, Debug, PartialEq, Eq, Structural)]
pub enum ConnectionEvent {
    /// Connection established.
    ConnectionEstablished,
    /// Connection to peer closed.
    ConnectionClosed,
    /// Timeout, in so many nanoseconds.
    Timeout { nanos: u64 },
}

/// What to do with a datagram.
#[derive(Clone, Copy, Debug, PartialEq, Eq, Structural)]
pub enum InputStep {
    /// Relay it to the open connection of its source, which is not to be polled.
    Relay,
    /// Nothing more; poll the connection of its source.
    Poll,
    /// Hand it over to the WebRTC stack of the opening connection of its source, and report what came
    /// of it.
    HandOver,
    /// Nothing at all: it neither opens a connection nor belongs to one.
    Ignore,
    /// It would open a connection between addresses that cannot be candidates.
    NoCandidate,
}

/// What became of a datagram that was offered to the stack of an opening connection.
#[derive(Clone, Copy, Debug, PartialEq, Eq, Structural)]
pub enum Fed {
    /// The stack took it.
    Taken,
    /// It is still to be handed over.
    NotHandedOver,
    /// The stack does not want it.
    NotAccepted,
    /// The stack failed on it.
    Failed,
}

/// How polling an opening connection goes on.
#[derive(Clone, Copy, Debug, PartialEq, Eq, Structural)]
pub enum PollStep {
    /// Poll the connection again.
    Again,
    /// Hand the current time to the connection's WebRTC stack.
    FeedTimeout,
    /// Polling has this result.
    Done(ConnectionEvent),
}

/// What came of polling an opening connection.
#[derive(Debug, PartialEq, Eq)]
pub struct ConnectionPoll {
    /// Whether to poll again, or the result.
    pub step: PollStep,
    /// What is to be done for the connection, in order.
    pub actions: Vec<Action>,
}

/// How polling a connection whose timer expired goes on.
#[derive(Clone, Copy, Debug, PartialEq, Eq, Structural)]
pub enum ExpiredStep {
    /// Poll the connection again.
    Again { established: bool },
    /// Polling is over; the remote is new, if there is one.
    Done(Option<NewRemote>),
}

/// The options of a UDP socket.
#[derive(Clone, Copy, Debug, PartialEq, Eq, Structural)]
pub struct SocketOptions {
    /// Whether it is an IPv6 socket.
    pub ipv6: bool,
    /// Whether an IPv6 socket leaves IPv4 alone.
    pub only_v6: bool,
    /// Whether its address can be reused.
    pub reuse_address: bool,
    /// Whether its port can be reused.
    pub reuse_port: bool,
    /// Whether it never blocks.
    pub nonblocking: bool,
}

/// The addresses of `remotes`, in order.
pub open spec fn addresses(remotes: Seq<NewRemote>) -> Seq<SocketAddr> {
    remotes.map_values(|remote: NewRemote| remote.addr)
}

/// The instant `nanos` after `now`, or the last one.
pub open spec fn deadline(now: Instant, nanos: u64) -> Instant {
    Instant {
        nanos: if now.nanos + nanos > u64::MAX {
            u64::MAX
        } else {
            (now.nanos + nanos) as u64
        },
    }
}

/// The options of a socket at `addr`.
pub fn socket_options(addr: SocketAddr) -> (r: SocketOptions)
    ensures
        r == (SocketOptions {
            ipv6: addr.ip is V6,
            only_v6: addr.ip is V6,
            reuse_address: true,
            reuse_port: true,
            nonblocking: true,
        }),
{
    let ipv6 = !addr.ip.is_ipv4();
    SocketOptions { ipv6, only_v6: ipv6, reuse_address: true, reuse_port: true, nonblocking: true }
}

/// Create RTC client and open channel for Noise handshake, for a connection from `source` that was
/// told of by a STUN message.
pub fn make_rtc_client(
    ufrag: &str,
    pass: &str,
    source: SocketAddr,
    destination: SocketAddr,
) -> (r: RtcClient)
    ensures
        r.answers(ufrag@, pass@, source, destination),
        is_noise_channel(r.noise_channel, "noise"@, ""@),
{
    crate::upgrade::make_rtc_client(ufrag, pass, source, destination)
}

/// How polling an opening connection goes on after it made progress; `None` stands for a connection
/// that does not exist. A timeout that is due is handed to the connection at once.
pub open spec fn connection_step(event: Option<OpeningEvent>, now: Instant) -> PollStep {
    match event {
        None => PollStep::Done(ConnectionEvent::ConnectionClosed),
        Some(OpeningEvent::Timeout { timeout }) => if crate::time::nanos_until(timeout, now) == 0 {
            PollStep::FeedTimeout
        } else {
            PollStep::Done(
                ConnectionEvent::Timeout { nanos: crate::time::nanos_until(timeout, now) as u64 },
            )
        },
        Some(OpeningEvent::ConnectionClosed) => PollStep::Done(ConnectionEvent::ConnectionClosed),
        Some(OpeningEvent::ConnectionOpened { .. }) => PollStep::Done(
            ConnectionEvent::ConnectionEstablished,
        ),
        Some(OpeningEvent::Nothing) => PollStep::Again,
    }
}

/// Tells how polling an opening connection goes on after it made progress; `None` stands for a
/// connection that does not exist.
pub fn on_progress(event: Option<OpeningEvent>, now: Instant) -> (r: PollStep)
    ensures
        r == connection_step(event, now),
{
    match event {
        None => PollStep::Done(ConnectionEvent::ConnectionClosed),
        Some(OpeningEvent::Timeout { timeout }) => {
            let nanos: u64 = timeout.remaining_from(now);
            if nanos == 0 {
                PollStep::FeedTimeout
            } else {
                PollStep::Done(ConnectionEvent::Timeout { nanos })
            }
        },
        Some(OpeningEvent::ConnectionClosed) => PollStep::Done(ConnectionEvent::ConnectionClosed),
        Some(OpeningEvent::ConnectionOpened { .. }) => PollStep::Done(
            ConnectionEvent::ConnectionEstablished,
        ),
        Some(OpeningEvent::Nothing) => PollStep::Again,
    }
}

/// Tells how polling an opening connection goes on after its WebRTC stack was handed the time.
pub fn on_timeout_fed(result: Result<(), Error>) -> (r: PollStep)
    ensures
        r == (if result is Ok {
            PollStep::Again
        } else {
            PollStep::Done(ConnectionEvent::ConnectionClosed)
        }),
{
    match result {
        Ok(()) => PollStep::Again,
        Err(_) => PollStep::Done(ConnectionEvent::ConnectionClosed),
    }
}

/// What comes of an output of the WebRTC stack of an opening connection: the actions of the progress
/// that it made, and the step that its report asks for when the stack's clock shows `now`. Where that
/// is to hand the time to the WebRTC stack, it was done, and closed the connection if the stack
/// failed. `rtc` is the stack before that.
pub open spec fn is_connection_poll(
    before: OpeningConnection,
    had: StackOutput,
    progress: Option<Progress<OpeningEvent>>,
    now: Instant,
    rtc: RtcStack,
    after: OpeningConnection,
    r: Option<ConnectionPoll>,
) -> bool {
    &&& before.connection.progresses(before.rtc, had, rtc, after.connection, progress)
    &&& rtc.clock().shows(now)
    &&& match progress {
        None => r is None && after.rtc == rtc,
        Some(progress) => {
            &&& r matches Some(poll)
            &&& poll.actions == progress.actions
            &&& if connection_step(Some(progress.output), now) is FeedTimeout {
                ||| poll.step is Again && rtc.fed_time(true, &after.rtc)
                ||| poll.step == PollStep::Done(ConnectionEvent::ConnectionClosed) && rtc.fed_time(
                    false,
                    &after.rtc,
                )
            } else {
                poll.step == connection_step(Some(progress.output), now) && after.rtc == rtc
            }
        },
    }
}

/// What follows once a datagram was offered to the stack of an opening connection.
pub fn on_opening_fed(fed: Fed) -> (r: Result<InputStep, Error>)
    ensures
        r == (match fed {
            Fed::Taken => Ok::<InputStep, Error>(InputStep::Poll),
            Fed::NotHandedOver => Ok::<InputStep, Error>(InputStep::HandOver),
            Fed::NotAccepted | Fed::Failed => Err::<InputStep, Error>(Error::InputRejected),
        }),
{
    match fed {
        Fed::Taken => Ok(InputStep::Poll),
        Fed::NotHandedOver => Ok(InputStep::HandOver),
        Fed::NotAccepted => Err(Error::InputRejected),
        Fed::Failed => Err(Error::InputRejected),
    }
}

/// The event of a manager whose socket failed.
pub fn on_socket_error(kind: ErrorKind) -> (r: UDPManagerEvent)
    ensures
        r == UDPManagerEvent::Error(Error::IoErr(kind)),
{
    UDPManagerEvent::Error(Error::IoErr(kind))
}

/// The event of a manager that was polled: the new remotes, those that sent a datagram first; none
/// if there is no new remote.
pub fn conclude(first: Vec<NewRemote>, later: Vec<NewRemote>) -> (r: Option<UDPManagerEvent>)
    ensures
        first@.len() + later@.len() == 0 ==> r is None,
        first@.len() + later@.len() > 0 ==> (r matches Some(UDPManagerEvent::NewRemoteAddress(all))
            && all@ == first@ + later@),
{
    let mut all = first;
    let mut later = later;
    all.append(&mut later);
    if all.is_empty() {
        None
    } else {
        Some(UDPManagerEvent::NewRemoteAddress(all))
    }
}

/// The `UDPManager` struct is responsible for managing the UDP connections used by the WebRTC
/// transport.
///
/// It does no I/O: whoever drives it reads the socket, hands datagrams in and carries out what
/// comes back. `Tx` takes datagrams for an open connection.
pub struct UDPManager<Tx> {
    /// The socket listen address.
    pub listen_addr: SocketAddr,
    /// Opening connections.
    pub opening: AddrMap<OpeningConnection>,
    /// Mapping of socket addresses to Open connections we have.
    pub open: AddrMap<ConnectionContext<Tx>>,
    /// Pending timeouts
    pub timeouts: AddrMap<Timer>,
    /// Dtls certificate
    pub dtls_cert: DtlsCert,
    /// The clock of the opening connections.
    pub clock: Clock,
}

impl<Tx> UDPManager<Tx> {
    /// The maps are maps, and the WebRTC stacks in them are in order.
    pub open spec fn inv(&self) -> bool {
        &&& self.opening.inv()
        &&& self.open.inv()
        &&& self.timeouts.inv()
        &&& forall|addr: SocketAddr|
            self.opening@.dom().contains(addr) ==> (#[trigger] self.opening@[addr]).rtc.inv()
    }

    /// Everything but the opening connections is the same.
    pub open spec fn same_but_opening(&self, other: &UDPManager<Tx>) -> bool {
        &&& self.listen_addr == other.listen_addr
        &&& self.open == other.open
        &&& self.timeouts == other.timeouts
        &&& self.dtls_cert == other.dtls_cert
        &&& self.clock == other.clock
    }

    /// The opening connections but that of `source` are the same, and that of `source` is between
    /// the same endpoints.
    pub open spec fn same_opening_but(&self, other: &UDPManager<Tx>, source: SocketAddr) -> bool {
        &&& self.opening@.dom() == other.opening@.dom()
        &&& forall|addr: SocketAddr|
            addr != source && other.opening@.dom().contains(addr)
                ==> #[trigger] self.opening@[addr] == other.opening@[addr]
        &&& other.opening@.dom().contains(source) ==> {
            &&& self.opening@[source].connection.peer_address
                == other.opening@[source].connection.peer_address
            &&& self.opening@[source].connection.local_address
                == other.opening@[source].connection.local_address
        }
    }

    /// A manager for the socket that is bound to `listen_addr`.
    pub fn with_config(listen_addr: SocketAddr, dtls_cert: DtlsCert, clock: Clock) -> (r:
        UDPManager<Tx>)
        ensures
            r.inv(),
            r.listen_addr == listen_addr,
            r.opening@ == Map::<SocketAddr, OpeningConnection>::empty(),
            r.open@ == Map::<SocketAddr, ConnectionContext<Tx>>::empty(),
            r.timeouts@ == Map::<SocketAddr, Timer>::empty(),
            r.dtls_cert == dtls_cert,
            r.clock == clock,
    {
        UDPManager {
            listen_addr,
            opening: AddrMap::new(),
            open: AddrMap::new(),
            timeouts: AddrMap::new(),
            dtls_cert,
            clock,
        }
    }

    /// Returns the listen address of the UDP socket.
    pub fn listen_addr(&self) -> (r: SocketAddr)
        ensures
            r == self.listen_addr,
    {
        self.listen_addr
    }

    /// Set the address
    pub fn set_listen_addr(&mut self, addr: SocketAddr)
        ensures
            *final(self) == (UDPManager { listen_addr: addr, ..*old(self) }),
    {
        self.listen_addr = addr;
    }

    /// What is due to a datagram of this kind from `source`, and the manager afterwards.
    ///
    /// An open connection gets every datagram. One that is invalid or too long is an error. STUN
    /// opens a connection, unless the WebRTC stack fails on it. Anything else goes to the opening
    /// connection of its source, and is an error if that does not take it; where there is none it is
    /// ignored.
    pub open spec fn handled(
        &self,
        source: SocketAddr,
        datagram: Seq<u8>,
        kind: crate::stun::Kind,
        after: &UDPManager<Tx>,
        r: Result<InputStep, Error>,
    ) -> bool {
        if self.open@.dom().contains(source) {
            r == Ok::<InputStep, Error>(InputStep::Relay) && after == self
        } else if datagram.len() > RECEIVE_MTU {
            r == Err::<InputStep, Error>(Error::InvalidData) && after == self
        } else {
            match kind {
                crate::stun::Kind::Invalid => r == Err::<InputStep, Error>(Error::InvalidData)
                    && after == self,
                crate::stun::Kind::Stun(ufrag, _) => if !source.ip.candidate()
                    || !self.listen_addr.ip.candidate() {
                    r == Ok::<InputStep, Error>(InputStep::NoCandidate) && after == self
                } else {
                    self.stun_handled(source, ufrag, datagram, after, r)
                },
                crate::stun::Kind::NotStun => if self.opening@.dom().contains(source) {
                    self.offered(source, datagram, after, r)
                } else {
                    r == Ok::<InputStep, Error>(InputStep::Ignore) && after == self
                },
            }
        }
    }

    /// What becomes of a datagram that was offered to the opening connection of its source: DTLS that
    /// the WebRTC stack wants is to be handed over to it. It is handed anything else that it wants,
    /// and the connection is to be polled if it takes it.
    pub open spec fn offered(
        &self,
        source: SocketAddr,
        datagram: Seq<u8>,
        after: &UDPManager<Tx>,
        r: Result<InputStep, Error>,
    ) -> bool {
        let opening = self.opening@[source];
        let (peer, local) = (opening.connection.peer_address.0, opening.connection.local_address);
        let rtc = after.opening@[source].rtc;
        &&& after.same_but_opening(self)
        &&& after.same_opening_but(self, source)
        &&& after.opening@[source].connection == opening.connection
        &&& if !opening.rtc.wants(peer, local, datagram) {
            r == Err::<InputStep, Error>(Error::InputRejected) && rtc == opening.rtc
        } else if is_dtls(datagram) {
            r == Ok::<InputStep, Error>(InputStep::HandOver) && rtc == opening.rtc
        } else {
            match r {
                Ok(step) => step is Poll && opening.rtc.receives(peer, local, datagram, &rtc, None),
                Err(e) => e == Error::InputRejected && exists|text: Seq<char>| #[trigger]
                    opening.rtc.receives(peer, local, datagram, &rtc, Some(text)),
            }
        }
    }

    /// `fresh` is a WebRTC stack that was set up to answer `source` under this user name, with the
    /// manager's certificate and clock.
    pub open spec fn prepared(
        &self,
        source: SocketAddr,
        ufrag: Seq<char>,
        fresh: RtcStack,
    ) -> bool {
        &&& fresh.clock() == self.clock
        &&& exists|client: RtcClient| #[trigger]
            fresh.serves(client, dtls_digest(self.dtls_cert)) && client.answers(
                ufrag,
                ufrag,
                source,
                self.listen_addr,
            ) && is_noise_channel(client.noise_channel, "noise"@, ""@)
    }

    /// `rtc` is a WebRTC stack that was set up to answer `source` under this user name, and then
    /// handed the datagram, of which it said this.
    pub open spec fn answered(
        &self,
        source: SocketAddr,
        ufrag: Seq<char>,
        datagram: Seq<u8>,
        rtc: RtcStack,
        said: Option<Seq<char>>,
    ) -> bool {
        exists|fresh: RtcStack| #[trigger]
            self.prepared(source, ufrag, fresh) && fresh.receives(
                source,
                self.listen_addr,
                datagram,
                &rtc,
                said,
            )
    }

    /// What becomes of a STUN message under this user name: a connection from its source is opening,
    /// unless the WebRTC stack that was set up for it failed on the message. One that starts as DTLS
    /// does is to be handed over to that stack.
    pub open spec fn stun_handled(
        &self,
        source: SocketAddr,
        ufrag: Seq<char>,
        datagram: Seq<u8>,
        after: &UDPManager<Tx>,
        r: Result<InputStep, Error>,
    ) -> bool {
        match r {
            Ok(step) => {
                &&& self.opened(source, after)
                &&& if is_dtls(datagram) {
                    step is HandOver && self.prepared(source, ufrag, after.opening@[source].rtc)
                } else {
                    step is Poll && self.answered(
                        source,
                        ufrag,
                        datagram,
                        after.opening@[source].rtc,
                        None,
                    )
                }
            },
            Err(e) => {
                &&& after == self
                &&& !is_dtls(datagram)
                &&& e matches Error::WebRtc(text)
                &&& exists|failed: RtcStack| #[trigger]
                    self.answered(source, ufrag, datagram, failed, Some(text@))
            },
        }
    }

    /// A connection from `source` is opening, in place of an earlier one.
    pub open spec fn opened(&self, source: SocketAddr, after: &UDPManager<Tx>) -> bool {
        &&& after.same_but_opening(self)
        &&& after.opening@.dom() == self.opening@.dom().insert(source)
        &&& forall|addr: SocketAddr|
            addr != source && self.opening@.dom().contains(addr) ==> #[trigger] after.opening@[addr]
                == self.opening@[addr]
        &&& after.opening@[source].connection.peer_address.0 == source
        &&& after.opening@[source].connection.local_address == self.listen_addr
        &&& after.opening@[source].connection.stage.state is Closed
        &&& after.opening@[source].connection.channel_details@ == Map::<
            crate::channel::ChannelId,
            crate::channel::Details,
        >::empty()
        &&& after.opening@[source].connection.drop_listeners == 0
        &&& !after.opening@[source].connection.no_drop_listeners_waker
    }

    /// What follows once a new WebRTC stack was handed the datagram that made it necessary: its
    /// connection is opening, unless the stack failed; then `fed` holds what it said.
    pub fn on_client_fed(
        &mut self,
        source: SocketAddr,
        rtc: RtcStack,
        fed: Result<(), String>,
    ) -> (r: Result<InputStep, Error>)
        requires
            old(self).inv(),
            rtc.inv(),
        ensures
            final(self).inv(),
            match fed {
                Err(e) => r == Err::<InputStep, Error>(Error::WebRtc(e)) && *final(self) == *old(
                    self,
                ),
                Ok(()) => {
                    &&& r == Ok::<InputStep, Error>(InputStep::Poll)
                    &&& old(self).opened(source, final(self))
                    &&& final(self).opening@[source].rtc == rtc
                },
            },
    {
        match fed {
            Err(e) => Err(Error::WebRtc(e)),
            Ok(()) => {
                let connection = Connection::new(self.listen_addr, source);
                self.opening.insert(source, OpeningConnection { connection, rtc });
                assert(self.opening@.dom() =~= old(self).opening@.dom().insert(source));
                Ok(InputStep::Poll)
            },
        }
    }

    /// Opens a connection for a STUN message with this user name.
    fn on_stun(&mut self, source: SocketAddr, ufrag: &str, buffer: &[u8]) -> (r: Result<
        InputStep,
        Error,
    >)
        requires
            old(self).inv(),
            !unusable(buffer@),
            recognised(buffer@, stun_message(buffer@) is Some),
            source.ip.candidate(),
            old(self).listen_addr.ip.candidate(),
        ensures
            final(self).inv(),
            old(self).stun_handled(source, ufrag@, buffer@, final(self), r),
    {
        let destination = self.listen_addr;
        // Create new `Rtc` object for this source
        let client = make_rtc_client(ufrag, ufrag, source, destination);
        let cert = copy_certificate(&self.dtls_cert);
        let (mut rtc, _) = RtcStack::set_up(&client, cert, self.clock);
        let ghost fresh = rtc;
        assert(fresh.serves(client, dtls_digest(self.dtls_cert)));
        assert(self.prepared(source, ufrag@, fresh));
        // Pass the datagram to it
        let (fed, step) = match rtc.receive(source, destination, buffer) {
            Received::Failed(text) => (Err(text), InputStep::Poll),
            Received::HandOver => (Ok(()), InputStep::HandOver),
            _ => (Ok(()), InputStep::Poll),
        };
        let ghost (stack, said) = (rtc, complaint(fed));
        assert(!is_dtls(buffer@) ==> self.answered(source, ufrag@, buffer@, stack, said));
        match self.on_client_fed(source, rtc, fed) {
            Ok(_) => Ok(step),
            Err(e) => {
                proof {
                    let text = e->WebRtc_0;
                    assert(old(self).answered(source, ufrag@, buffer@, stack, Some(text@)));
                }
                Err(e)
            },
        }
    }

    /// Offers a datagram that is no STUN message to the opening connection of its source.
    fn on_opening_input(&mut self, source: SocketAddr, buffer: &[u8]) -> (r: Result<
        InputStep,
        Error,
    >)
        requires
            old(self).inv(),
            old(self).opening@.dom().contains(source),
        ensures
            final(self).inv(),
            old(self).offered(source, buffer@, final(self), r),
    {
        let fed = match self.opening.get_mut(source) {
            None => Fed::NotAccepted,
            Some(opening) => {
                let peer = opening.connection.peer_address.addr();
                let local = opening.connection.local_address;
                if !opening.rtc.accepts(peer, local, buffer) {
                    Fed::NotAccepted
                } else {
                    match opening.rtc.receive(peer, local, buffer) {
                        Received::Taken => Fed::Taken,
                        Received::HandOver => Fed::NotHandedOver,
                        Received::Failed(text) => {
                            assert(old(self).opening@[source].rtc.receives(
                                peer,
                                local,
                                buffer@,
                                &opening.rtc,
                                Some(text@),
                            ));
                            Fed::Failed
                        },
                        _ => Fed::Failed,
                    }
                }
            },
        };
        assert(self.opening@.dom() =~= old(self).opening@.dom());
        on_opening_fed(fed)
    }

    /// Handle socket input.
    ///
    /// If the datagram was received from an active client, it's dispatched to the connection
    /// handler. If the datagram opened a new connection or it belonged to a client who is opening,
    /// the client is to be polled until it timeouts.
    pub fn on_socket_input(&mut self, source: SocketAddr, buffer: &[u8]) -> (r: Result<
        InputStep,
        Error,
    >)
        requires
            old(self).inv(),
        ensures
            final(self).inv(),
            old(self).handled(
                source,
                buffer@,
                crate::stun::datagram_kind(buffer@, crate::stun::readable_stun(buffer@)),
                final(self),
                r,
            ),
    {
        if self.open.contains_key(source) {
            return Ok(InputStep::Relay);
        }
        if buffer.len() > RECEIVE_MTU {
            return Err(Error::InvalidData);
        }
        match classify_datagram(buffer) {
            Datagram::Invalid => Err(Error::InvalidData),
            Datagram::Stun { local, remote: _ } => {
                if !source.ip.is_candidate() || !self.listen_addr.ip.is_candidate() {
                    return Ok(InputStep::NoCandidate);
                }
                self.on_stun(source, local.as_str(), buffer)
            },
            Datagram::NotStun => {
                if self.opening.contains_key(source) {
                    self.on_opening_input(source, buffer)
                } else {
                    Ok(InputStep::Ignore)
                }
            },
        }
    }

    /// The opening connection of `source` with its WebRTC stack, where there is one.
    pub fn opening_mut(&mut self, source: SocketAddr) -> (r: Option<&mut OpeningConnection>)
        requires
            old(self).inv(),
        ensures
            match r {
                None => !old(self).opening@.dom().contains(source) && *final(self) == *old(self),
                Some(opening) => {
                    &&& old(self).opening@.dom().contains(source)
                    &&& *opening == old(self).opening@[source]
                    &&& final(self).same_but_opening(old(self))
                    &&& final(self).opening@ == old(self).opening@.insert(source, *final(opening))
                    &&& final(opening).rtc.inv() ==> final(self).inv()
                },
            },
    {
        self.opening.get_mut(source)
    }

    /// Enters an opening connection with its WebRTC stack: from now on what comes from its peer goes
    /// to that stack.
    pub fn register_opening(&mut self, connection: Connection<Opening>, rtc: RtcStack)
        requires
            old(self).inv(),
            rtc.inv(),
        ensures
            final(self).inv(),
            final(self).same_but_opening(old(self)),
            final(self).opening@ == old(self).opening@.insert(
                connection.peer_address.0,
                OpeningConnection { connection, rtc },
            ),
    {
        self.opening.insert(
            connection.peer_address.addr(),
            OpeningConnection { connection, rtc },
        );
    }

    /// Takes an opening connection out, with its WebRTC stack: neither datagrams nor timers of
    /// `source` concern the manager any more.
    pub fn take_opening(&mut self, source: SocketAddr) -> (r: Option<OpeningConnection>)
        requires
            old(self).inv(),
        ensures
            final(self).inv(),
            final(self).opening@ == old(self).opening@.remove(source),
            final(self).timeouts@ == old(self).timeouts@.remove(source),
            final(self).open == old(self).open,
            final(self).listen_addr == old(self).listen_addr,
            final(self).dtls_cert == old(self).dtls_cert,
            final(self).clock == old(self).clock,
            match r {
                Some(opening) => old(self).opening@.dom().contains(source) && opening == old(
                    self,
                ).opening@[source] && opening.rtc.inv(),
                None => !old(self).opening@.dom().contains(source),
            },
    {
        self.timeouts.remove(source);
        self.opening.remove(source)
    }

    /// What follows once DTLS was handed over to the WebRTC stack of the opening connection of
    /// `source`: the connection is to be polled. A stack that failed on it is disconnected.
    pub fn on_handed_over(&mut self, source: SocketAddr, result: Result<(), String>) -> (r: Result<
        InputStep,
        Error,
    >)
        requires
            old(self).inv(),
        ensures
            final(self).inv(),
            final(self).same_but_opening(old(self)),
            final(self).same_opening_but(old(self), source),
            if old(self).opening@.dom().contains(source) {
                &&& old(self).opening@[source].rtc.took_over(
                    result,
                    &final(self).opening@[source].rtc,
                )
                &&& final(self).opening@[source].connection
                    == old(self).opening@[source].connection
                &&& r == (if result is Ok {
                    Ok::<InputStep, Error>(InputStep::Poll)
                } else {
                    Err::<InputStep, Error>(Error::InputRejected)
                })
            } else {
                r == Err::<InputStep, Error>(Error::InputRejected)
            },
    {
        let fed = match self.opening.get_mut(source) {
            None => Fed::NotAccepted,
            Some(opening) => match opening.rtc.handed_over(result) {
                Received::Taken => Fed::Taken,
                _ => Fed::Failed,
            },
        };
        assert(self.opening@.dom() =~= old(self).opening@.dom());
        on_opening_fed(fed)
    }

    /// Poll opening connection, by one output of its WebRTC stack. One that does not exist is closed.
    ///
    /// There is no result where the connection came up and the remote's certificate is not known.
    pub fn poll_connection(&mut self, source: SocketAddr, output: StackOutput) -> (r: Option<
        ConnectionPoll,
    >)
        requires
            old(self).inv(),
        ensures
            final(self).inv(),
            final(self).same_opening_but(old(self), source),
            final(self).same_but_opening(old(self)),
            !old(self).opening@.dom().contains(source) ==> {
                &&& *final(self) == *old(self)
                &&& r matches Some(poll) && poll.step == PollStep::Done(
                    ConnectionEvent::ConnectionClosed,
                ) && poll.actions@.len() == 0
            },
            old(self).opening@.dom().contains(source)
                ==> exists|progress: Option<Progress<OpeningEvent>>, now: Instant, rtc: RtcStack|
                #[trigger]
                is_connection_poll(
                    old(self).opening@[source],
                    output,
                    progress,
                    now,
                    rtc,
                    final(self).opening@[source],
                    r,
                ),
            old(self).opening@.dom().contains(source) && !old(self).opening@[source].rtc.alive()
                ==> (r matches Some(poll) && poll.step == PollStep::Done(
                ConnectionEvent::ConnectionClosed,
            )),
    {
        let r = match self.opening.get_mut(source) {
            None => Some(
                ConnectionPoll {
                    step: PollStep::Done(ConnectionEvent::ConnectionClosed),
                    actions: Vec::new(),
                },
            ),
            Some(opening) => {
                let ghost before = *opening;
                let progress = opening.connection.poll_progress(&mut opening.rtc, output);
                let ghost made = progress;
                let ghost rtc = opening.rtc;
                let now = opening.rtc.now();
                let r = match progress {
                    None => None,
                    Some(progress) => {
                        let step = match on_progress(Some(progress.output), now) {
                            PollStep::FeedTimeout => on_timeout_fed(
                                opening.connection.on_timeout(&mut opening.rtc),
                            ),
                            step => step,
                        };
                        Some(ConnectionPoll { step, actions: progress.actions })
                    },
                };
                assert(is_connection_poll(before, output, made, now, rtc, *opening, r));
                r
            },
        };
        assert(self.opening@.dom() =~= old(self).opening@.dom());
        r
    }

    /// The manager after an opening connection was polled.
    pub open spec fn connection_polled(
        self,
        source: SocketAddr,
        event: ConnectionEvent,
        now: Instant,
        after: UDPManager<Tx>,
    ) -> bool {
        &&& after.inv()
        &&& after.listen_addr == self.listen_addr
        &&& after.open == self.open
        &&& after.dtls_cert == self.dtls_cert
        &&& after.clock == self.clock
        &&& match event {
            ConnectionEvent::ConnectionEstablished => after == self,
            ConnectionEvent::ConnectionClosed => after.opening@ == self.opening@.remove(source)
                && after.timeouts@ == self.timeouts@.remove(source),
            ConnectionEvent::Timeout { nanos } => after.opening == self.opening && after.timeouts@
                == self.timeouts@.insert(source, Timer::At(deadline(now, nanos))),
        }
    }

    /// Takes what polling the connection of `source` gave, after a datagram from there; returns
    /// whether to poll on.
    ///
    /// The source of an established connection is among the `pending` remotes once.
    pub fn on_connection_event(
        &mut self,
        pending: &mut Vec<NewRemote>,
        source: SocketAddr,
        event: ConnectionEvent,
        now: Instant,
    ) -> (again: bool)
        requires
            old(self).inv(),
        ensures
            old(self).connection_polled(source, event, now, *final(self)),
            again == (event is ConnectionEstablished),
            final(pending)@ == (if event is ConnectionEstablished && !addresses(
                old(pending)@,
            ).contains(source) {
                old(pending)@.push(NewRemote { addr: source })
            } else {
                old(pending)@
            }),
    {
        match event {
            ConnectionEvent::ConnectionEstablished => {
                if !has_remote(pending, source) {
                    pending.push(NewRemote { addr: source });
                }
                true
            },
            ConnectionEvent::ConnectionClosed => {
                self.opening.remove(source);
                self.timeouts.remove(source);
                false
            },
            ConnectionEvent::Timeout { nanos } => {
                let expires: u64 = now.nanos.saturating_add(nanos);
                self.timeouts.insert(source, Timer::At(Instant { nanos: expires }));
                false
            },
        }
    }

    /// The sources whose timers have expired, each once.
    pub fn expired(&self, now: Instant) -> (r: Vec<SocketAddr>)
        requires
            self.inv(),
        ensures
            r@.no_duplicates(),
            forall|addr: SocketAddr|
                r@.contains(addr) <==> self.timeouts@.dom().contains(addr)
                    && self.timeouts@[addr].expired(now),
    {
        let keys = self.timeouts.keys();
        let mut due: Vec<SocketAddr> = Vec::new();
        let mut i: usize = 0;
        while i < keys.len()
            invariant
                self.inv(),
                i <= keys@.len(),
                keys@.no_duplicates(),
                forall|addr: SocketAddr|
                    keys@.contains(addr) <==> self.timeouts@.dom().contains(addr),
                due@.no_duplicates(),
                forall|j: int|
                    0 <= j < due@.len() ==> keys@.take(i as int).contains(#[trigger] due@[j])
                        && self.timeouts@[due@[j]].expired(now),
                forall|j: int|
                    0 <= j < i && self.timeouts@[#[trigger] keys@[j]].expired(now)
                        ==> due@.contains(keys@[j]),
            decreases keys@.len() - i,
        {
            let addr = keys[i];
            proof {
                assert(keys@.contains(keys@[i as int]));
                assert forall|a: SocketAddr| keys@.take(i as int).contains(a) implies keys@.take(
                    i + 1,
                ).contains(a) by {
                    let j = choose|j: int|
                        0 <= j < keys@.take(i as int).len() && keys@.take(i as int)[j] == a;
                    assert(keys@.take(i + 1)[j] == a);
                }
                assert(keys@.take(i + 1)[i as int] == addr);
            }
            let ghost before = due@;
            let is_due = match self.timeouts.get(addr) {
                Some(timer) => timer.remaining_from(now) == 0,
                None => false,
            };
            if is_due {
                proof {
                    if before.contains(addr) {
                        let k = choose|k: int| 0 <= k < before.len() && before[k] == addr;
                        assert(keys@.take(i as int).contains(before[k]));
                        let j = choose|j: int|
                            0 <= j < keys@.take(i as int).len() && keys@.take(i as int)[j] == addr;
                        assert(keys@[j] == keys@[i as int]);
                    }
                }
                due.push(addr);
                assert(due@[before.len() as int] == addr);
            }
            proof {
                assert forall|j: int|
                    0 <= j < i + 1 && self.timeouts@[#[trigger] keys@[j]].expired(
                        now,
                    ) implies due@.contains(keys@[j]) by {
                    if j < i {
                        let k = choose|k: int| 0 <= k < before.len() && before[k] == keys@[j];
                        assert(due@[k] == keys@[j]);
                    }
                }
            }
            i += 1;
        }
        proof {
            assert(keys@.take(i as int) =~= keys@);
            assert forall|addr: SocketAddr| due@.contains(addr) <==> self.timeouts@.dom().contains(
                addr,
            ) && self.timeouts@[addr].expired(now) by {
                if due@.contains(addr) {
                    let k = choose|k: int| 0 <= k < due@.len() && due@[k] == addr;
                    assert(keys@.contains(due@[k]));
                }
                if self.timeouts@.dom().contains(addr) && self.timeouts@[addr].expired(now) {
                    assert(keys@.contains(addr));
                    let j = choose|j: int| 0 <= j < keys@.len() && keys@[j] == addr;
                    assert(due@.contains(keys@[j]));
                }
            }
        }
        due
    }

    /// The nanoseconds that are left at `now` until the first timer expires; none where there is no
    /// timer.
    pub fn next_timer(&self, now: Instant) -> (r: Option<u64>)
        requires
            self.inv(),
        ensures
            match r {
                None => forall|addr: SocketAddr| !self.timeouts@.dom().contains(addr),
                Some(nanos) => {
                    &&& exists|addr: SocketAddr| #[trigger]
                        self.timeouts@.dom().contains(addr) && self.timeouts@[addr].left(now)
                            == nanos
                    &&& forall|addr: SocketAddr|
                        self.timeouts@.dom().contains(addr) ==> nanos
                            <= #[trigger] self.timeouts@[addr].left(now)
                },
            },
    {
        let keys = self.timeouts.keys();
        let mut first: Option<u64> = None;
        let mut i: usize = 0;
        while i < keys.len()
            invariant
                self.inv(),
                i <= keys@.len(),
                forall|addr: SocketAddr|
                    keys@.contains(addr) <==> self.timeouts@.dom().contains(addr),
                first is None <==> i == 0,
                first matches Some(nanos) ==> exists|addr: SocketAddr| #[trigger]
                    self.timeouts@.dom().contains(addr) && self.timeouts@[addr].left(now) == nanos,
                first matches Some(nanos) ==> forall|j: int|
                    0 <= j < i ==> nanos <= self.timeouts@[#[trigger] keys@[j]].left(now),
            decreases keys@.len() - i,
        {
            let addr = keys[i];
            assert(keys@.contains(keys@[i as int]));
            if let Some(timer) = self.timeouts.get(addr) {
                let nanos: u64 = timer.remaining_from(now);
                first = match first {
                    Some(least) if least <= nanos => Some(least),
                    _ => {
                        assert(self.timeouts@.dom().contains(addr));
                        Some(nanos)
                    },
                };
            }
            i += 1;
        }
        proof {
            assert forall|addr: SocketAddr| #[trigger]
                self.timeouts@.dom().contains(addr) implies first is Some && first->0
                <= self.timeouts@[addr].left(now) by {
                assert(keys@.contains(addr));
                let j = choose|j: int| 0 <= j < keys@.len() && keys@[j] == addr;
                assert(self.timeouts@[keys@[j]].left(now) == self.timeouts@[addr].left(now));
            }
        }
        first
    }

    /// Takes what polling a connection whose timer expired gave; `established` tells whether an
    /// earlier poll established it.
    ///
    /// A connection that closes is forgotten, established or not. One that registers another timeout
    /// is looked at again when that expires.
    pub fn on_expired_event(
        &mut self,
        established: bool,
        source: SocketAddr,
        event: ConnectionEvent,
        now: Instant,
    ) -> (r: ExpiredStep)
        requires
            old(self).inv(),
        ensures
            final(self).inv(),
            old(self).connection_polled(source, event, now, *final(self)),
            r == (match event {
                ConnectionEvent::ConnectionEstablished => ExpiredStep::Again { established: true },
                ConnectionEvent::ConnectionClosed => ExpiredStep::Done(None),
                ConnectionEvent::Timeout { .. } => ExpiredStep::Done(
                    if established {
                        Some(NewRemote { addr: source })
                    } else {
                        None
                    },
                ),
            }),
    {
        match event {
            ConnectionEvent::ConnectionEstablished => ExpiredStep::Again { established: true },
            ConnectionEvent::ConnectionClosed => {
                self.opening.remove(source);
                self.timeouts.remove(source);
                ExpiredStep::Done(None)
            },
            ConnectionEvent::Timeout { nanos } => {
                let expires: u64 = now.nanos.saturating_add(nanos);
                self.timeouts.insert(source, Timer::At(Instant { nanos: expires }));
                if established {
                    ExpiredStep::Done(Some(NewRemote { addr: source }))
                } else {
                    ExpiredStep::Done(None)
                }
            },
        }
    }

    /// Enters an open connection: from now on datagrams from `source` go to `tx`.
    pub fn register_open(&mut self, source: SocketAddr, tx: Tx)
        requires
            old(self).inv(),
        ensures
            final(self).inv(),
            final(self).open@ == old(self).open@.insert(source, ConnectionContext { tx }),
            final(self).opening == old(self).opening,
            final(self).timeouts == old(self).timeouts,
            final(self).listen_addr == old(self).listen_addr,
            final(self).dtls_cert == old(self).dtls_cert,
            final(self).clock == old(self).clock,
    {
        self.open.insert(source, ConnectionContext { tx });
    }
}

fn has_remote(remotes: &Vec<NewRemote>, addr: SocketAddr) -> (r: bool)
    ensures
        r == addresses(remotes@).contains(addr),
{
    let mut i: usize = 0;
    while i < remotes.len()
        invariant
            i <= remotes@.len(),
            forall|j: int| 0 <= j < i ==> (#[trigger] remotes@[j]).addr != addr,
        decreases remotes@.len() - i,
    {
        if remotes[i].addr == addr {
            assert(addresses(remotes@)[i as int] == addr);
            return true;
        }
        i += 1;
    }
    proof {
        if addresses(remotes@).contains(addr) {
            let j = choose|j: int|
                0 <= j < addresses(remotes@).len() && addresses(remotes@)[j] == addr;
            assert(remotes@[j].addr == addr);
        }
    }
    false
}

/// However often a connection is established within one round of datagrams, its source is reported
/// once: pending remotes stay distinct.
pub proof fn law_pending_stays_distinct(pending: Seq<NewRemote>, source: SocketAddr)
    requires
        addresses(pending).no_duplicates(),
    ensures
        ({
            let after = if addresses(pending).contains(source) {
                pending
            } else {
                pending.push(NewRemote { addr: source })
            };
            &&& addresses(after).no_duplicates()
            &&& addresses(after).contains(source)
            &&& pending.is_prefix_of(after)
        }),
{
    let after = if addresses(pending).contains(source) {
        pending
    } else {
        pending.push(NewRemote { addr: source })
    };
    if !addresses(pending).contains(source) {
        assert(addresses(after) =~= addresses(pending).push(source));
        assert(addresses(after)[pending.len() as int] == source);
        assert forall|i: int, j: int|
            0 <= i < j < addresses(after).len() implies addresses(after)[i] != addresses(
            after,
        )[j] by {
            if j == pending.len() {
                assert(addresses(pending)[i] != source);
            }
        }
    }
}

/// An open connection gets every datagram from its remote, whatever it holds: none is looked into
/// and none is refused.
pub proof fn law_open_connections_get_everything<Tx>(
    manager: UDPManager<Tx>,
    source: SocketAddr,
    datagram: Seq<u8>,
    kind: crate::stun::Kind,
    after: UDPManager<Tx>,
    r: Result<InputStep, Error>,
)
    requires
        manager.open@.dom().contains(source),
        manager.handled(source, datagram, kind, &after, r),
    ensures
        r == Ok::<InputStep, Error>(InputStep::Relay),
        after == manager,
{
}

/// Only STUN makes a connection open, and only one from the endpoint that it came from.
pub proof fn law_only_stun_opens_connections<Tx>(
    manager: UDPManager<Tx>,
    source: SocketAddr,
    datagram: Seq<u8>,
    kind: crate::stun::Kind,
    after: UDPManager<Tx>,
    r: Result<InputStep, Error>,
    addr: SocketAddr,
)
    requires
        manager.handled(source, datagram, kind, &after, r),
        after.opening@.dom().contains(addr),
        !manager.opening@.dom().contains(addr),
    ensures
        addr == source,
        kind is Stun,
{
}

/// A connection that registers a timeout is looked at again when that has passed, and not before.
pub proof fn law_timers_are_waited_for<Tx>(
    before: UDPManager<Tx>,
    after: UDPManager<Tx>,
    source: SocketAddr,
    nanos: u64,
    now: Instant,
    later: Instant,
)
    requires
        before.connection_polled(source, ConnectionEvent::Timeout { nanos }, now, after),
        now.nanos + nanos <= u64::MAX,
    ensures
        after.timeouts@.dom().contains(source),
        after.timeouts@[source].expired(later) <==> later.nanos >= now.nanos + nanos,
{
}

/// A closed connection is forgotten: nothing of it opens and no timer of it is left.
pub proof fn law_closed_is_forgotten<Tx>(
    before: UDPManager<Tx>,
    after: UDPManager<Tx>,
    source: SocketAddr,
    now: Instant,
)
    requires
        before.connection_polled(source, ConnectionEvent::ConnectionClosed, now, after),
    ensures
        !after.opening@.dom().contains(source),
        !after.timeouts@.dom().contains(source),
{
}

/// A STUN message with a user name, from an endpoint without an open connection, opens a connection
/// from where it came to the listen address, unless the WebRTC stack fails on it or one of the two
/// cannot be a candidate. The stack that the message is handed to is set up with the listen address
/// as the local candidate and the source as the remote one, with the manager's certificate and clock,
/// and with the first half of the user name as the name and the password of both sides; it expects
/// the digest in which every bit is set, only answers, and has the channel for the Noise handshake.
/// Its remote is the source. What the stack is handed is the message as it came.
pub proof fn law_stun_is_answered_where_it_came_in<Tx>(
    manager: UDPManager<Tx>,
    source: SocketAddr,
    datagram: Seq<u8>,
    ufrag: Seq<char>,
    other: Seq<char>,
    after: UDPManager<Tx>,
    r: Result<InputStep, Error>,
) -> (fresh: RtcStack)
    requires
        !manager.open@.dom().contains(source),
        datagram.len() <= 8192,
        crate::stun::datagram_kind(datagram, crate::stun::readable_stun(datagram))
            == crate::stun::Kind::Stun(ufrag, other),
        source.ip.candidate(),
        manager.listen_addr.ip.candidate(),
        manager.handled(
            source,
            datagram,
            crate::stun::datagram_kind(datagram, crate::stun::readable_stun(datagram)),
            &after,
            r,
        ),
    ensures
        stun_message(datagram) == Some(Some((ufrag, other))),
        fresh.setup().local_candidate == Some((manager.listen_addr.ip, manager.listen_addr.port)),
        fresh.setup().remote_candidate == Some((source.ip, source.port)),
        fresh.remote() == source,
        fresh.clock() == manager.clock,
        fresh.alive(),
        fresh.setup().ice_lite,
        fresh.setup().certificate == dtls_digest(manager.dtls_cert),
        fresh.setup().remote_fingerprint == Some(Seq::new(32, |i: int| 0xffu8)),
        fresh.setup().remote_credentials == Some((ufrag, ufrag)),
        fresh.setup().local_credentials == Some((ufrag, ufrag)),
        fresh.setup().ice_controlling == Some(false),
        fresh.setup().dtls_active == Some(false),
        fresh.setup().sctp_client == Some(false),
        fresh.setup().channels == seq![("noise"@, false, Some(0u16), ""@)],
        match r {
            Ok(step) => {
                let opening = after.opening@[source];
                &&& after.opening@.dom().contains(source)
                &&& opening.connection.peer_address.0 == source
                &&& opening.connection.local_address == manager.listen_addr
                &&& opening.connection.stage.state is Closed
                &&& opening.rtc.remote() == source
                &&& opening.rtc.clock() == manager.clock
                &&& if 20 <= datagram[0] < 64 {
                    step is HandOver && opening.rtc == fresh
                } else if 128 <= datagram[0] < 192 {
                    step is Poll && can_elapse(fresh.inner(), opening.rtc.inner(), None)
                } else {
                    step is Poll && can_receive(
                        fresh.inner(),
                        (source.ip, source.port),
                        (manager.listen_addr.ip, manager.listen_addr.port),
                        datagram,
                        opening.rtc.inner(),
                        None,
                    )
                }
            },
            Err(e) => {
                &&& e matches Error::WebRtc(text)
                &&& after == manager
                &&& if 128 <= datagram[0] < 192 {
                    exists|failed: Rtc| #[trigger]
                        can_elapse(fresh.inner(), failed, Some(text@))
                } else {
                    exists|failed: Rtc| #[trigger]
                        was_handed(
                            fresh.inner(),
                            source,
                            manager.listen_addr,
                            datagram,
                            failed,
                            Some(text@),
                        )
                }
            },
        },
{
    let fresh = match r {
        Ok(_) => if is_dtls(datagram) {
            after.opening@[source].rtc
        } else {
            let stack = after.opening@[source].rtc;
            let fresh = choose|fresh: RtcStack| #[trigger]
                manager.prepared(source, ufrag, fresh) && fresh.receives(
                    source,
                    manager.listen_addr,
                    datagram,
                    &stack,
                    None,
                );
            crate::rtc::law_stacks_are_handed_what_came(
                fresh,
                source,
                manager.listen_addr,
                datagram,
                stack,
                None,
            );
            fresh
        },
        Err(e) => {
            let text = e->WebRtc_0;
            let failed = choose|failed: RtcStack| #[trigger]
                manager.answered(source, ufrag, datagram, failed, Some(text@));
            let fresh = choose|fresh: RtcStack| #[trigger]
                manager.prepared(source, ufrag, fresh) && fresh.receives(
                    source,
                    manager.listen_addr,
                    datagram,
                    &failed,
                    Some(text@),
                );
            crate::rtc::law_stacks_are_handed_what_came(
                fresh,
                source,
                manager.listen_addr,
                datagram,
                failed,
                Some(text@),
            );
            fresh
        },
    };
    let client = choose|client: RtcClient| #[trigger]
        fresh.serves(client, dtls_digest(manager.dtls_cert)) && client.answers(
            ufrag,
            ufrag,
            source,
            manager.listen_addr,
        ) && is_noise_channel(client.noise_channel, "noise"@, ""@);
    crate::rtc::law_stacks_are_set_up_as_asked(fresh, client, dtls_digest(manager.dtls_cert));
    assert(fresh.setup().channels =~= seq![("noise"@, false, Some(0u16), ""@)]);
    fresh
}

/// What is no STUN message goes to the opening connection of its source, with the very bytes, as
/// coming from the connection's peer to its local address: DTLS that the stack takes for its own is
/// left to be handed over, what it does not is refused, and of media only the time matters. The
/// connection itself stays as it is. Where none is opening, the datagram is ignored.
pub proof fn law_opening_connections_get_their_datagrams<Tx>(
    manager: UDPManager<Tx>,
    source: SocketAddr,
    datagram: Seq<u8>,
    after: UDPManager<Tx>,
    r: Result<InputStep, Error>,
)
    requires
        !manager.open@.dom().contains(source),
        datagram.len() <= 8192,
        manager.handled(source, datagram, crate::stun::Kind::NotStun, &after, r),
    ensures
        !manager.opening@.dom().contains(source) ==> r == Ok::<InputStep, Error>(InputStep::Ignore)
            && after == manager,
        manager.opening@.dom().contains(source) ==> {
            let before = manager.opening@[source];
            let peer = before.connection.peer_address.0;
            let local = before.connection.local_address;
            let then = after.opening@[source];
            &&& after.opening@.dom() == manager.opening@.dom()
            &&& then.connection == before.connection
            &&& is_dtls(datagram) ==> {
                &&& then == before
                &&& if accepted(
                    before.rtc.inner(),
                    (peer.ip, peer.port),
                    (local.ip, local.port),
                    datagram,
                ) {
                    r == Ok::<InputStep, Error>(InputStep::HandOver)
                } else {
                    r == Err::<InputStep, Error>(Error::InputRejected)
                }
            }
            &&& r == Ok::<InputStep, Error>(InputStep::Poll) ==> {
                &&& accepted(
                    before.rtc.inner(),
                    (peer.ip, peer.port),
                    (local.ip, local.port),
                    datagram,
                )
                &&& if is_media(datagram) {
                    can_elapse(before.rtc.inner(), then.rtc.inner(), None)
                } else {
                    can_receive(
                        before.rtc.inner(),
                        (peer.ip, peer.port),
                        (local.ip, local.port),
                        datagram,
                        then.rtc.inner(),
                        None,
                    )
                }
            }
            &&& r is Err ==> r == Err::<InputStep, Error>(Error::InputRejected) && (then == before
                || !then.rtc.alive())
            &&& then.rtc.remote() == before.rtc.remote()
        },
{
    if manager.opening@.dom().contains(source) {
        let before = manager.opening@[source];
        let peer = before.connection.peer_address.0;
        let local = before.connection.local_address;
        let then = after.opening@[source];
        crate::rtc::law_stacks_are_asked_of_what_came(before.rtc, peer, local, datagram);
        if before.rtc.wants(peer, local, datagram) && !is_dtls(datagram) {
            match r {
                Ok(_) => {
                    crate::rtc::law_stacks_are_handed_what_came(
                        before.rtc,
                        peer,
                        local,
                        datagram,
                        then.rtc,
                        None,
                    );
                },
                Err(_) => {
                    let text = choose|text: Seq<char>| #[trigger]
                        before.rtc.receives(peer, local, datagram, &then.rtc, Some(text));
                    crate::rtc::law_stacks_are_handed_what_came(
                        before.rtc,
                        peer,
                        local,
                        datagram,
                        then.rtc,
                        Some(text),
                    );
                },
            }
        }
    }
}

/// A datagram concerns its source alone: whatever it holds, the connections of all others, the
/// connections that are open, the timers, the listen address, the certificate and the clock stay as
/// they are, and no connection stops opening.
pub proof fn law_datagrams_concern_their_source_alone<Tx>(
    manager: UDPManager<Tx>,
    source: SocketAddr,
    datagram: Seq<u8>,
    kind: crate::stun::Kind,
    after: UDPManager<Tx>,
    r: Result<InputStep, Error>,
    other: SocketAddr,
)
    requires
        manager.handled(source, datagram, kind, &after, r),
        other != source,
    ensures
        after.open == manager.open,
        after.timeouts == manager.timeouts,
        after.listen_addr == manager.listen_addr,
        after.dtls_cert == manager.dtls_cert,
        after.clock == manager.clock,
        after.opening@.dom().contains(other) == manager.opening@.dom().contains(other),
        manager.opening@.dom().contains(other) ==> after.opening@[other] == manager.opening@[other],
        manager.opening@.dom().contains(source) ==> after.opening@.dom().contains(source),
{
}

/// A datagram is refused, and changes nothing, exactly where that is longer than 8192 bytes or good
/// for nothing, unless it comes from an open connection; STUN between addresses that cannot be
/// candidates opens nothing.
pub proof fn law_bad_datagrams_change_nothing<Tx>(
    manager: UDPManager<Tx>,
    source: SocketAddr,
    datagram: Seq<u8>,
    kind: crate::stun::Kind,
    after: UDPManager<Tx>,
    r: Result<InputStep, Error>,
)
    requires
        !manager.open@.dom().contains(source),
        manager.handled(source, datagram, kind, &after, r),
    ensures
        r == Err::<InputStep, Error>(Error::InvalidData) <==> datagram.len() > 8192
            || kind is Invalid,
        r == Err::<InputStep, Error>(Error::InvalidData) ==> after == manager,
        r == Ok::<InputStep, Error>(InputStep::NoCandidate) <==> datagram.len() <= 8192
            && kind is Stun && (!source.ip.candidate() || !manager.listen_addr.ip.candidate()),
        r == Ok::<InputStep, Error>(InputStep::NoCandidate) ==> after == manager,
        !(r == Ok::<InputStep, Error>(InputStep::Relay)),
{
}

/// Polling an opening connection with a working WebRTC stack does what the stack asks for, and goes
/// on accordingly: after a datagram that is sent, and what happens to channels, the stack is polled
/// again. Where the stack failed or lost ICE the connection is closed. Where ICE and DTLS come up, it
/// is established, once. A timeout that is still to come is waited for until it is there; one that
/// is due was handed to the stack.
pub proof fn law_polls_follow_the_stack(
    before: OpeningConnection,
    had: StackOutput,
    progress: Option<Progress<OpeningEvent>>,
    now: Instant,
    rtc: RtcStack,
    after: OpeningConnection,
    r: Option<ConnectionPoll>,
)
    requires
        before.rtc.inv(),
        before.rtc.alive(),
        is_connection_poll(before, had, progress, now, rtc, after, r),
    ensures
        had matches StackOutput::Transmit { destination, contents } ==> {
            &&& r is Some
            &&& r->0.step is Again
            &&& acts(r->0.actions@) == seq![
                Act::Send(
                    if destination.ip == before.rtc.remote().ip && destination.port
                        == before.rtc.remote().port {
                        before.rtc.remote()
                    } else {
                        destination
                    },
                    contents@,
                ),
            ]
            &&& after.connection == before.connection
        },
        had is ChannelOpen || had is ChannelData || had is ChannelClose || had is Other ==> r is Some
            && r->0.step is Again,
        had is Failed || had is IceDisconnected ==> r is Some && r->0.step == PollStep::Done(
            ConnectionEvent::ConnectionClosed,
        ),
        had is IceDisconnected ==> acts(r->0.actions@) == seq![Act::ReportClosed],
        had is Connected && r is Some ==> r->0.step == PollStep::Done(
            if before.connection.stage.state is Closed {
                ConnectionEvent::ConnectionEstablished
            } else {
                ConnectionEvent::ConnectionClosed
            },
        ),
        had is Connected ==> (r is None <==> before.rtc.told() is Some && !({
            let (hash_func, bytes) = before.rtc.told()->0;
            hash_func == "sha-256"@ && bytes.len() == 32
        })),
        had matches StackOutput::Timeout(at) ==> r is Some && r->0.actions@.len() == 0 && {
            ||| r->0.step is Done && now.nanos < at.nanos && (r->0.step->0 matches ConnectionEvent::Timeout {
                nanos,
            } && now.nanos + nanos == at.nanos)
            ||| r->0.step is Again
            ||| r->0.step == PollStep::Done(ConnectionEvent::ConnectionClosed)
                && !after.rtc.alive()
        },
        acts(r->0.actions@) == acts(progress->0.actions@) || r is None,
{
    crate::connection::opening::law_opening_reports(
        before.connection,
        before.rtc,
        had,
        rtc,
        after.connection,
        progress,
    );
    crate::connection::law_outputs_are_carried_out(
        before.connection,
        before.rtc,
        had,
        rtc,
        after.connection,
        progress,
    );
}

/// How polling goes on is told by what the connection reports: nothing to report means to poll again,
/// and a timeout that is still to come, with what is left of it, ends polling as closing and opening
/// do; one that is due goes to the stack.
pub proof fn law_reports_are_acted_on(event: OpeningEvent, now: Instant)
    ensures
        connection_step(None, now) == PollStep::Done(ConnectionEvent::ConnectionClosed),
        connection_step(Some(event), now) is Again <==> event is Nothing,
        connection_step(Some(event), now) == PollStep::Done(ConnectionEvent::ConnectionClosed)
            <==> event is ConnectionClosed,
        connection_step(Some(event), now) == PollStep::Done(ConnectionEvent::ConnectionEstablished)
            <==> event is ConnectionOpened,
        connection_step(Some(event), now) is FeedTimeout <==> (event matches OpeningEvent::Timeout {
            timeout,
        } && timeout.nanos <= now.nanos),
        event matches OpeningEvent::Timeout { timeout } ==> (timeout.nanos > now.nanos ==> (
        connection_step(Some(event), now) matches PollStep::Done(ConnectionEvent::Timeout { nanos })
            && now.nanos + nanos == timeout.nanos)),
{
}

/// A timer is set to so many nanoseconds from now, or to the last instant where that is beyond it;
/// what is left of it leads to that instant. Polling one connection leaves those of others and their
/// timers alone, and an established one as it is.
pub proof fn law_timers_are_set_from_now<Tx>(
    before: UDPManager<Tx>,
    after: UDPManager<Tx>,
    source: SocketAddr,
    event: ConnectionEvent,
    now: Instant,
    other: SocketAddr,
)
    requires
        before.connection_polled(source, event, now, after),
        other != source,
    ensures
        event matches ConnectionEvent::Timeout { nanos } ==> {
            &&& after.timeouts@.dom().contains(source)
            &&& after.timeouts@[source] == Timer::At(
                Instant {
                    nanos: if now.nanos + nanos <= u64::MAX {
                        (now.nanos + nanos) as u64
                    } else {
                        u64::MAX
                    },
                },
            )
            &&& now.nanos + nanos <= u64::MAX ==> after.timeouts@[source].left(now) == nanos
            &&& after.opening == before.opening
        },
        event is ConnectionEstablished ==> after == before,
        after.opening@.dom().contains(other) == before.opening@.dom().contains(other),
        before.opening@.dom().contains(other) ==> after.opening@[other] == before.opening@[other],
        after.timeouts@.dom().contains(other) == before.timeouts@.dom().contains(other),
        before.timeouts@.dom().contains(other) ==> after.timeouts@[other]
            == before.timeouts@[other],
        after.open == before.open,
        after.listen_addr == before.listen_addr,
        after.dtls_cert == before.dtls_cert,
        after.clock == before.clock,
{
}

/// When a STUN message with a user name is taken from an endpoint without an open connection, the
/// stack that it is handed to is set up between the listen address, as the local candidate, and its
/// source, as the remote one, and its remote is the source.
pub proof fn law_taken_stun_is_answered_where_it_came_in<Tx>(
    manager: &mut UDPManager<Tx>,
    source: SocketAddr,
    buffer: &[u8],
    local: Seq<char>,
    remote: Seq<char>,
    r: Result<InputStep, Error>,
)
    requires
        call_ensures(UDPManager::<Tx>::on_socket_input, (manager, source, buffer), r),
        !old(manager).open@.dom().contains(source),
        buffer@.len() <= 8192,
        crate::stun::decodable(buffer@),
        stun_message(buffer@) == Some(Some((local, remote))),
        buffer@[0] < 2,
        source.ip.candidate(),
        old(manager).listen_addr.ip.candidate(),
    ensures
        exists|fresh: RtcStack|
            {
                &&& #[trigger] fresh.setup().local_candidate == Some(
                    (old(manager).listen_addr.ip, old(manager).listen_addr.port),
                )
                &&& fresh.setup().remote_candidate == Some((source.ip, source.port))
                &&& fresh.setup().certificate == dtls_digest(old(manager).dtls_cert)
                &&& fresh.setup().local_credentials == Some((local, local))
                &&& fresh.setup().remote_credentials == Some((local, local))
                &&& fresh.setup().channels == seq![("noise"@, false, Some(0u16), ""@)]
                &&& fresh.remote() == source
                &&& fresh.clock() == old(manager).clock
                &&& r is Ok ==> can_receive(
                    fresh.inner(),
                    (source.ip, source.port),
                    (old(manager).listen_addr.ip, old(manager).listen_addr.port),
                    buffer@,
                    final(manager).opening@[source].rtc.inner(),
                    None,
                )
            },
        r is Ok ==> {
            let opening = final(manager).opening@[source];
            &&& r == Ok::<InputStep, Error>(InputStep::Poll)
            &&& final(manager).opening@.dom().contains(source)
            &&& opening.connection.peer_address.0 == source
            &&& opening.connection.local_address == old(manager).listen_addr
            &&& opening.rtc.remote() == source
        },
        r is Err ==> *final(manager) == *old(manager),
{
    crate::stun::law_kinds_of_datagrams(buffer@, local, remote);
    let fresh = law_stun_is_answered_where_it_came_in(
        *old(manager),
        source,
        buffer@,
        local,
        remote,
        *final(manager),
        r,
    );
    assert(fresh.setup().local_candidate == Some(
        (old(manager).listen_addr.ip, old(manager).listen_addr.port),
    ));
}

/// A datagram from an open connection is relayed, whatever it holds, and changes nothing. From
/// anywhere else, one that is longer than 8192 bytes or empty is refused, and changes nothing.
pub proof fn law_relayed_and_refused<Tx>(
    manager: &mut UDPManager<Tx>,
    source: SocketAddr,
    buffer: &[u8],
    r: Result<InputStep, Error>,
)
    requires
        call_ensures(UDPManager::<Tx>::on_socket_input, (manager, source, buffer), r),
    ensures
        r == Ok::<InputStep, Error>(InputStep::Relay) <==> old(manager).open@.dom().contains(source),
        r == Ok::<InputStep, Error>(InputStep::Relay) ==> *final(manager) == *old(manager),
        !old(manager).open@.dom().contains(source) && (buffer@.len() > 8192 || buffer@.len() == 0)
            ==> r == Err::<InputStep, Error>(Error::InvalidData) && *final(manager) == *old(manager),
        final(manager).open == old(manager).open,
        final(manager).timeouts == old(manager).timeouts,
        final(manager).listen_addr == old(manager).listen_addr,
{
    crate::stun::law_only_stun_opens(buffer@);
}

/// The new remotes of a round are reported in the order in which they came: those that sent a
/// datagram first, then those whose timer expired; and where there is none, nothing is.
pub proof fn law_new_remotes_are_reported_in_order(
    first: Vec<NewRemote>,
    later: Vec<NewRemote>,
    r: Option<UDPManagerEvent>,
)
    requires
        call_ensures(conclude, (first, later), r),
    ensures
        r is None <==> first@.len() == 0 && later@.len() == 0,
        r matches Some(event) ==> {
            &&& event matches UDPManagerEvent::NewRemoteAddress(all)
            &&& all@.len() == first@.len() + later@.len()
            &&& all@.take(first@.len() as int) == first@
            &&& all@.skip(first@.len() as int) == later@
        },
{
    if let Some(UDPManagerEvent::NewRemoteAddress(all)) = r {
        assert(all@.take(first@.len() as int) =~= first@);
        assert(all@.skip(first@.len() as int) =~= later@);
    }
}

/// Sockets are of the family of their address, leave the other family alone, share their address and
/// never block.
pub proof fn law_sockets_suit_their_address(addr: SocketAddr, r: SocketOptions)
    requires
        call_ensures(socket_options, (addr,), r),
    ensures
        r.ipv6 <==> !(addr.ip is V4),
        r.only_v6 == r.ipv6,
        r.reuse_address && r.reuse_port && r.nonblocking,
{
}

/// What became of a datagram that was offered to the stack decides what follows: taken, the
/// connection is polled; not handed over, that is still to be done; else it is refused.
pub proof fn law_offers_are_followed_up(fed: Fed, r: Result<InputStep, Error>)
    requires
        call_ensures(on_opening_fed, (fed,), r),
    ensures
        fed is Taken <==> r == Ok::<InputStep, Error>(InputStep::Poll),
        fed is NotHandedOver <==> r == Ok::<InputStep, Error>(InputStep::HandOver),
        fed is NotAccepted || fed is Failed <==> r == Err::<InputStep, Error>(Error::InputRejected),
{
}

/// A connection that is established after a datagram is reported once, however often that happens,
/// and polled on; one that closed is forgotten and one that waits is left to its timer, and neither
/// is reported.
pub proof fn law_established_connections_are_reported<Tx>(
    manager: &mut UDPManager<Tx>,
    pending: &mut Vec<NewRemote>,
    source: SocketAddr,
    event: ConnectionEvent,
    now: Instant,
    again: bool,
)
    requires
        call_ensures(
            UDPManager::<Tx>::on_connection_event,
            (manager, pending, source, event, now),
            again,
        ),
        addresses(old(pending)@).no_duplicates(),
    ensures
        again <==> event is ConnectionEstablished,
        old(pending)@.is_prefix_of(final(pending)@),
        addresses(final(pending)@).no_duplicates(),
        event is ConnectionEstablished ==> addresses(final(pending)@).contains(source)
            && *final(manager) == *old(manager),
        !(event is ConnectionEstablished) ==> final(pending)@ == old(pending)@,
        event is ConnectionClosed ==> !final(manager).opening@.dom().contains(source)
            && !final(manager).timeouts@.dom().contains(source),
        event matches ConnectionEvent::Timeout { nanos } ==> {
            &&& final(manager).timeouts@.dom().contains(source)
            &&& now.nanos + nanos <= u64::MAX ==> final(manager).timeouts@[source] == Timer::At(
                Instant { nanos: (now.nanos + nanos) as u64 },
            )
            &&& final(manager).opening == old(manager).opening
        },
{
    law_pending_stays_distinct(old(pending)@, source);
}

/// A connection whose timer expired is polled on while it is established; it is reported when it then
/// waits, if it was established before, and forgotten when it closes.
pub proof fn law_expired_connections_are_looked_at<Tx>(
    manager: &mut UDPManager<Tx>,
    established: bool,
    source: SocketAddr,
    event: ConnectionEvent,
    now: Instant,
    r: ExpiredStep,
)
    requires
        call_ensures(
            UDPManager::<Tx>::on_expired_event,
            (manager, established, source, event, now),
            r,
        ),
    ensures
        event is ConnectionEstablished <==> r == (ExpiredStep::Again { established: true }),
        event is ConnectionClosed ==> r == ExpiredStep::Done(None)
            && !final(manager).opening@.dom().contains(source)
            && !final(manager).timeouts@.dom().contains(source),
        event is Timeout ==> final(manager).timeouts@.dom().contains(source) && r
            == ExpiredStep::Done(
            if established {
                Some(NewRemote { addr: source })
            } else {
                None
            },
        ),
{
}

/// The next timer is the first of all: none expires before it, and when that much time has passed one
/// has expired. Those that have expired by now are exactly those whose instant is not after now, each
/// once.
pub proof fn law_the_first_timer_is_next<Tx>(
    manager: &UDPManager<Tx>,
    now: Instant,
    next: Option<u64>,
    due: Vec<SocketAddr>,
    addr: SocketAddr,
)
    requires
        call_ensures(UDPManager::<Tx>::next_timer, (manager, now), next),
        call_ensures(UDPManager::<Tx>::expired, (manager, now), due),
    ensures
        due@.no_duplicates(),
        due@.contains(addr) <==> manager.timeouts@.dom().contains(addr)
            && manager.timeouts@[addr]->0.nanos <= now.nanos,
        next is None <==> manager.timeouts@.dom() == Set::<SocketAddr>::empty(),
        next matches Some(nanos) ==> manager.timeouts@.dom().contains(addr)
            ==> manager.timeouts@[addr]->0.nanos >= now.nanos + nanos || nanos == 0,
        next matches Some(nanos) ==> exists|first: SocketAddr|
            #[trigger] manager.timeouts@.dom().contains(first) && (manager.timeouts@[first]->0.nanos
                == now.nanos + nanos || nanos == 0 && manager.timeouts@[first]->0.nanos
                <= now.nanos),
{
    match next {
        None => {
            assert(manager.timeouts@.dom() =~= Set::<SocketAddr>::empty());
        },
        Some(nanos) => {
            let first = choose|first: SocketAddr| #[trigger]
                manager.timeouts@.dom().contains(first) && manager.timeouts@[first].left(now)
                    == nanos;
            assert(manager.timeouts@.dom().contains(first));
            if manager.timeouts@.dom().contains(addr) {
                assert(nanos <= manager.timeouts@[addr].left(now));
            }
        },
    }
}

/// A connection that is entered is the one that is found: an opening one, under its peer's address,
/// with its stack, and can be taken out again; an open one, under its source, with what takes its
/// datagrams. The others stay as they are.
pub proof fn law_entered_connections_are_found<Tx>(
    manager: &mut UDPManager<Tx>,
    connection: Connection<Opening>,
    rtc: RtcStack,
    registered: (),
    taker: &mut UDPManager<Tx>,
    taken: Option<OpeningConnection>,
    other: SocketAddr,
)
    requires
        call_ensures(
            UDPManager::<Tx>::register_opening,
            (manager, connection, rtc),
            registered,
        ),
        call_ensures(
            UDPManager::<Tx>::take_opening,
            (taker, connection.peer_address.0),
            taken,
        ),
        *old(taker) == *final(manager),
        other != connection.peer_address.0,
    ensures
        final(manager).opening@.dom().contains(connection.peer_address.0),
        taken == Some(OpeningConnection { connection, rtc }),
        !final(taker).opening@.dom().contains(connection.peer_address.0),
        !final(taker).timeouts@.dom().contains(connection.peer_address.0),
        final(taker).opening@.dom().contains(other) == old(manager).opening@.dom().contains(other),
        old(manager).opening@.dom().contains(other) ==> final(taker).opening@[other]
            == old(manager).opening@[other],
        final(taker).open == old(manager).open,
{
}

/// Once a connection is entered as open, all that comes from its source is relayed.
pub proof fn law_open_connections_are_heard<Tx>(
    manager: &mut UDPManager<Tx>,
    source: SocketAddr,
    tx: Tx,
    registered: (),
    next: &mut UDPManager<Tx>,
    buffer: &[u8],
    r: Result<InputStep, Error>,
)
    requires
        call_ensures(UDPManager::<Tx>::register_open, (manager, source, tx), registered),
        call_ensures(UDPManager::<Tx>::on_socket_input, (next, source, buffer), r),
        *old(next) == *final(manager),
    ensures
        r == Ok::<InputStep, Error>(InputStep::Relay),
        final(next).open@[source].tx == tx,
        final(manager).opening == old(manager).opening,
{
}

/// DTLS that was handed over and taken leaves the stack as it is and has the connection polled; where
/// the stack failed on it, or there is no such connection, it is refused, and the stack works no
/// longer.
pub proof fn law_handed_over_dtls_is_followed_up<Tx>(
    manager: &mut UDPManager<Tx>,
    source: SocketAddr,
    result: Result<(), String>,
    r: Result<InputStep, Error>,
)
    requires
        call_ensures(UDPManager::<Tx>::on_handed_over, (manager, source, result), r),
    ensures
        r is Ok <==> old(manager).opening@.dom().contains(source) && result is Ok,
        r matches Ok(step) ==> step is Poll && final(manager).opening@[source]
            == old(manager).opening@[source],
        r matches Err(e) ==> e == Error::InputRejected,
        old(manager).opening@.dom().contains(source) && result is Err
            ==> !final(manager).opening@[source].rtc.alive(),
{
}

/// A manager for a socket has its address, certificate and clock, and no connections; its listen
/// address can be changed, and nothing else then changes.
pub proof fn law_managers_start_empty<Tx>(
    listen_addr: SocketAddr,
    cert: DtlsCert,
    clock: Clock,
    r: UDPManager<Tx>,
    moved: &mut UDPManager<Tx>,
    to: SocketAddr,
    done: (),
)
    requires
        call_ensures(UDPManager::<Tx>::with_config, (listen_addr, cert, clock), r),
        call_ensures(UDPManager::<Tx>::set_listen_addr, (moved, to), done),
    ensures
        r.listen_addr == listen_addr,
        r.dtls_cert == cert,
        r.clock == clock,
        forall|addr: SocketAddr|
            !(#[trigger] r.opening@.dom().contains(addr)) && !r.open@.dom().contains(addr)
                && !r.timeouts@.dom().contains(addr),
        final(moved).listen_addr == to,
        final(moved).opening == old(moved).opening,
        final(moved).open == old(moved).open,
        final(moved).timeouts == old(moved).timeouts,
{
}

/// Polling the connection of a source that has none says that it is closed, and does nothing. Where
/// one is opening and its stack works, a datagram that the stack puts out is sent as it is, and the
/// connection polled again; ICE that is lost is reported, and closes it. Only that connection changes,
/// and its addresses do not.
pub proof fn law_polled_connections_send<Tx>(
    manager: &mut UDPManager<Tx>,
    source: SocketAddr,
    output: StackOutput,
    r: Option<ConnectionPoll>,
    other: SocketAddr,
)
    requires
        call_ensures(UDPManager::<Tx>::poll_connection, (manager, source, output), r),
        old(manager).inv(),
        other != source,
    ensures
        !old(manager).opening@.dom().contains(source) ==> {
            &&& r is Some
            &&& r->0.step == PollStep::Done(ConnectionEvent::ConnectionClosed)
            &&& r->0.actions@.len() == 0
            &&& *final(manager) == *old(manager)
        },
        old(manager).opening@.dom().contains(source) && old(manager).opening@[source].rtc.alive()
            ==> {
            let remote = old(manager).opening@[source].rtc.remote();
            &&& output matches StackOutput::Transmit { destination, contents } ==> {
                &&& r is Some
                &&& r->0.step is Again
                &&& acts(r->0.actions@) == seq![
                    Act::Send(
                        if destination.ip == remote.ip && destination.port == remote.port {
                            remote
                        } else {
                            destination
                        },
                        contents@,
                    ),
                ]
            }
            &&& output is IceDisconnected ==> {
                &&& r is Some
                &&& r->0.step == PollStep::Done(ConnectionEvent::ConnectionClosed)
                &&& acts(r->0.actions@) == seq![Act::ReportClosed]
            }
        },
        final(manager).opening@.dom() == old(manager).opening@.dom(),
        old(manager).opening@.dom().contains(other) ==> final(manager).opening@[other]
            == old(manager).opening@[other],
        final(manager).open == old(manager).open,
        final(manager).timeouts == old(manager).timeouts,
{
    if old(manager).opening@.dom().contains(source) && old(manager).opening@[source].rtc.alive() {
        let before = old(manager).opening@[source];
        let after = final(manager).opening@[source];
        let (progress, now, rtc) = choose|
            progress: Option<Progress<OpeningEvent>>,
            now: Instant,
            rtc: RtcStack,
        | #[trigger]
            is_connection_poll(before, output, progress, now, rtc, after, r);
        law_polls_follow_the_stack(before, output, progress, now, rtc, after, r);
    }
}

} // verus!
