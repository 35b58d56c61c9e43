//! WebRTC Transport for libp2p.
use std::collections::VecDeque;

use libp2p_core::transport::ListenerId;
use libp2p_core::Multiaddr;
use libp2p_identity::Keypair;
use str0m::change::DtlsCert;
use vstd::prelude::*;

use crate::certificate::{dtls_digest, Certificate};
use crate::error::{Error, IoError};
use crate::fingerprint::Fingerprint;
use crate::multiaddr::{
    components, dial_endpoint, endpoint_components, listen_endpoint, parse_webrtc_dial_addr,
    parse_webrtc_listen_addr, socketaddr_to_multiaddr, Component,
};
use crate::net::{endpoint, IpAddr, SocketAddr};
use crate::udp_manager::{NewRemote, UDPManagerEvent};

verus! {

/// The id of a listener.
#[verifier::external_type_specification]
#[verifier::external_body]
pub struct ExListenerId(ListenerId);

/// The keys of a peer.
#[verifier::external_type_specification]
#[verifier::external_body]
pub struct ExKeypair(Keypair);

/// Why a transport does not listen or dial.
pub enum TransportError {
    /// The multiaddress is not one of this transport.
    MultiaddrNotSupported(Multiaddr),
    /// Something else failed.
    Other(Error),
}

/// What happens at a listener.
pub enum TransportEvent {
    /// A new address is being listened on.
    NewAddress { listener_id: ListenerId, listen_addr: Multiaddr },
    /// An address is no longer being listened on.
    AddressExpired { listener_id: ListenerId, listen_addr: Multiaddr },
    /// A remote wants to connect; the upgrade is with `remote`, at `destination`.
    Incoming {
        listener_id: ListenerId,
        remote: NewRemote,
        destination: SocketAddr,
        local_addr: Multiaddr,
        send_back_addr: Multiaddr,
    },
    /// The listener closed.
    ListenerClosed { listener_id: ListenerId, reason: Result<(), Error> },
    /// The listener encountered an error that does not close it.
    ListenerError { listener_id: ListenerId, error: Error },
}

/// The mathematical form of [`TransportEvent`].
pub enum Event {
    NewAddress(ListenerId, Seq<Component>),
    AddressExpired(ListenerId, Seq<Component>),
    Incoming(ListenerId, NewRemote, SocketAddr, Seq<Component>, Seq<Component>),
    ListenerClosed(ListenerId, Result<(), Error>),
    ListenerError(ListenerId, Error),
}

impl View for TransportEvent {
    type V = Event;

    open spec fn view(&self) -> Event {
        match *self {
            TransportEvent::NewAddress { listener_id, listen_addr } => Event::NewAddress(
                listener_id,
                components(listen_addr),
            ),
            TransportEvent::AddressExpired { listener_id, listen_addr } => Event::AddressExpired(
                listener_id,
                components(listen_addr),
            ),
            TransportEvent::Incoming {
                listener_id,
                remote,
                destination,
                local_addr,
                send_back_addr,
            } => Event::Incoming(
                listener_id,
                remote,
                destination,
                components(local_addr),
                components(send_back_addr),
            ),
            TransportEvent::ListenerClosed { listener_id, reason } => Event::ListenerClosed(
                listener_id,
                reason,
            ),
            TransportEvent::ListenerError { listener_id, error } => Event::ListenerError(
                listener_id,
                error,
            ),
        }
    }
}

/// The mathematical form of an optional event.
pub open spec fn event_view(event: Option<TransportEvent>) -> Option<Event> {
    match event {
        Some(event) => Some(event@),
        None => None,
    }
}

/// A change of the network interfaces.
#[derive(Debug, PartialEq, Eq)]
pub enum IfEvent {
    /// An address became available.
    Up(IpAddr),
    /// An address is gone.
    Down(IpAddr),
    /// The interfaces cannot be watched.
    Failed(IoError),
}

/// How polling a listener goes on.
pub enum ListenStep {
    /// This comes next; `None` ends the stream.
    Ready(Option<TransportEvent>),
    /// See whether the network interfaces changed.
    PollIfWatcher,
    /// Poll the manager of the listener's UDP socket.
    PollUdp,
    /// Nothing is ready.
    Pending,
}

/// The mathematical form of [`ListenStep`].
pub enum Step {
    Ready(Option<Event>),
    PollIfWatcher,
    PollUdp,
    Pending,
}

impl View for ListenStep {
    type V = Step;

    open spec fn view(&self) -> Step {
        match *self {
            ListenStep::Ready(event) => Step::Ready(event_view(event)),
            ListenStep::PollIfWatcher => Step::PollIfWatcher,
            ListenStep::PollUdp => Step::PollUdp,
            ListenStep::Pending => Step::Pending,
        }
    }
}

/// A config which holds peer's keys and a x509Cert used to authenticate WebRTC communications.
pub struct Config {
    inner: DtlsCert,
    fingerprint: Fingerprint,
    id_keys: Keypair,
}

impl Config {
    /// The digest of the certificate.
    pub closed spec fn digest(&self) -> Seq<u8> {
        self.fingerprint@
    }

    /// The peer's keys.
    pub closed spec fn keys(&self) -> Keypair {
        self.id_keys
    }

    /// The fingerprint is that of the certificate.
    #[verifier::type_invariant]
    spec fn inv(&self) -> bool {
        dtls_digest(self.inner) == self.fingerprint@
    }

    /// Returns a new [`Config`] with the given keys and certificate.
    pub fn new(id_keys: Keypair, certificate: Certificate) -> (r: Config)
        ensures
            r.digest() == certificate.digest(),
            r.keys() == id_keys,
    {
        let inner = certificate.extract();
        match certificate.fingerprint() {
            Some(fingerprint) => Config { inner, fingerprint, id_keys },
            None => {
                assert(false);
                Config { inner, fingerprint: Fingerprint::ff(), id_keys }
            },
        }
    }

    /// Get Dtls cert
    pub fn dtls_cert(&self) -> (r: Option<&DtlsCert>)
        ensures
            r matches Some(cert) && dtls_digest(*cert) == self.digest(),
    {
        proof {
            use_type_invariant(self);
        }
        Some(&self.inner)
    }

    /// Get id keys
    pub fn id_keys(&self) -> (r: &Keypair)
        ensures
            *r == self.keys(),
    {
        &self.id_keys
    }

    /// The fingerprint of the certificate.
    pub fn fingerprint(&self) -> (r: Fingerprint)
        ensures
            r@ == self.digest(),
    {
        self.fingerprint
    }
}

/// A WebRTC transport with direct p2p communication (without a STUN server).
///
/// It does no I/O: it tells where to listen and whom to dial.
pub struct Transport {
    /// The config which holds this peer's keys and certificate.
    pub config: Config,
}

/// Where a dial goes.
#[derive(Clone, Copy, Debug, PartialEq, Eq)]
pub struct DialTarget {
    /// The remote's endpoint.
    pub addr: SocketAddr,
    /// The fingerprint of the certificate to expect there.
    pub remote_fingerprint: Fingerprint,
}

/// The endpoint and the digest that can be dialled at a multiaddress.
pub open spec fn dialable(parts: Seq<Component>) -> Option<(SocketAddr, Seq<u8>)> {
    match dial_endpoint(parts) {
        Some((addr, digest)) => if addr.port == 0 || addr.ip.unspecified() {
            None
        } else {
            Some((addr, digest))
        },
        None => None,
    }
}

impl Transport {
    /// Creates a new WebRTC transport.
    pub fn new(id_keys: Keypair, certificate: Certificate) -> (r: Transport)
        ensures
            r.config.digest() == certificate.digest(),
            r.config.keys() == id_keys,
    {
        Transport { config: Config::new(id_keys, certificate) }
    }

    /// Tells where to bind a socket to listen on a multiaddress.
    pub fn listen_on(&self, addr: Multiaddr) -> (r: Result<SocketAddr, TransportError>)
        ensures
            match r {
                Ok(socket_addr) => listen_endpoint(components(addr)) == Some(socket_addr),
                Err(e) => listen_endpoint(components(addr)) is None && e
                    == TransportError::MultiaddrNotSupported(addr),
            },
    {
        match parse_webrtc_listen_addr(&addr) {
            Some(socket_addr) => Ok(socket_addr),
            None => Err(TransportError::MultiaddrNotSupported(addr)),
        }
    }

    /// The error of a transport whose socket could not be set up.
    pub fn on_bind_failed(&self) -> (r: TransportError)
        ensures
            r == TransportError::Other(Error::Disconnected),
    {
        TransportError::Other(Error::Disconnected)
    }

    /// The error of a transport that cannot watch the network interfaces.
    pub fn on_watch_failed(&self, error: IoError) -> (r: TransportError)
        ensures
            r == TransportError::Other(Error::Io(error)),
    {
        TransportError::Other(Error::Io(error))
    }

    /// Tells whom to dial at a multiaddress.
    pub fn dial(&self, addr: Multiaddr) -> (r: Result<DialTarget, TransportError>)
        ensures
            match r {
                Ok(target) => dialable(components(addr)) == Some(
                    (target.addr, target.remote_fingerprint@),
                ),
                Err(e) => dialable(components(addr)) is None && e
                    == TransportError::MultiaddrNotSupported(addr),
            },
    {
        match parse_webrtc_dial_addr(&addr) {
            Some((socket_addr, remote_fingerprint)) => {
                if socket_addr.port == 0 || socket_addr.ip.is_unspecified() {
                    Err(TransportError::MultiaddrNotSupported(addr))
                } else {
                    Ok(DialTarget { addr: socket_addr, remote_fingerprint })
                }
            },
            None => Err(TransportError::MultiaddrNotSupported(addr)),
        }
    }

    /// What a transport reports of a poll of its listeners: the outer `None` stands for one that
    /// is pending, the inner for one after the last listener ended.
    pub fn poll(&self, polled: Option<Option<TransportEvent>>) -> (r: Option<TransportEvent>)
        ensures
            r == (match polled {
                Some(event) => event,
                None => None,
            }),
    {
        match polled {
            Some(Some(event)) => Some(event),
            _ => None,
        }
    }
}

/// An address that a listener on all interfaces takes for its own.
pub open spec fn adoptable(ip: IpAddr) -> bool {
    &&& !ip.loopback()
    &&& !ip.unspecified()
    &&& ip is V4 ==> !ip.link_local()
    &&& !ip.multicast()
}

/// Whether a listener on all interfaces takes the address for its own.
fn is_adoptable(ip: IpAddr) -> (r: bool)
    ensures
        r == adoptable(ip),
{
    !ip.is_loopback() && !ip.is_unspecified() && !(ip.is_ipv4() && ip.is_link_local())
        && !ip.is_multicast()
}

/// The two addresses are of the same family.
pub open spec fn same_family(a: IpAddr, b: IpAddr) -> bool {
    a is V4 == b is V4
}

/// A stream of incoming connections on one or more interfaces.
///
/// It does no I/O: whoever drives it watches the interfaces and polls the socket. `W` is what wakes
/// a task.
pub struct ListenStream<W> {
    /// The ID of this listener.
    pub listener_id: ListenerId,
    /// The socket address that the listening socket is bound to,
    /// which may be a "wildcard address" like `INADDR_ANY` or `IN6ADDR_ANY`
    /// when listening on all interfaces for IPv4 respectively IPv6 connections.
    pub listen_addr: SocketAddr,
    /// The fingerprint of this peer's certificate.
    pub fingerprint: Fingerprint,
    /// Set to `Some` if this listener should close.
    ///
    /// Optionally contains a [`TransportEvent::ListenerClosed`] that should be
    /// reported before the listener's stream is terminated.
    pub report_closed: Option<Option<TransportEvent>>,
    /// Whether network interface changes are watched: not if the socket is only listening on a
    /// single interface.
    pub watching: bool,
    /// Pending event to reported.
    pub pending_events: VecDeque<TransportEvent>,
    /// The stream must be awaken after it has been closed to deliver the last event.
    pub close_listener_waker: Option<W>,
}

/// The event of an address of a listener.
pub open spec fn new_address(id: ListenerId, addr: SocketAddr, digest: Seq<u8>) -> Event {
    Event::NewAddress(id, endpoint_components(addr, Some(digest)))
}

/// The events of new remotes at a listener.
pub open spec fn incoming(
    id: ListenerId,
    addr: SocketAddr,
    digest: Seq<u8>,
    remotes: Seq<NewRemote>,
) -> Seq<Event> {
    remotes.map_values(
        |remote: NewRemote|
            Event::Incoming(
                id,
                remote,
                addr,
                endpoint_components(addr, Some(digest)),
                endpoint_components(remote.addr, None),
            ),
    )
}

/// What a change of the interfaces means to a listener; nothing where it is one of the other family.
pub open spec fn if_event(
    id: ListenerId,
    addr: SocketAddr,
    digest: Seq<u8>,
    event: IfEvent,
) -> Option<Event> {
    match event {
        IfEvent::Up(ip) => if same_family(addr.ip, ip) {
            Some(new_address(id, endpoint(ip, addr.port), digest))
        } else {
            None
        },
        IfEvent::Down(ip) => if same_family(addr.ip, ip) {
            Some(
                Event::AddressExpired(
                    id,
                    endpoint_components(endpoint(ip, addr.port), Some(digest)),
                ),
            )
        } else {
            None
        },
        IfEvent::Failed(error) => Some(Event::ListenerError(id, Error::Io(error))),
    }
}

/// The listen address of a listener after a change of the interfaces: one on all interfaces takes
/// the first address of its own.
pub open spec fn adopted(addr: SocketAddr, event: IfEvent) -> SocketAddr {
    match event {
        IfEvent::Up(ip) => if same_family(addr.ip, ip) && adoptable(ip) && addr.ip.unspecified() {
            endpoint(ip, addr.port)
        } else {
            addr
        },
        _ => addr,
    }
}

impl<W> ListenStream<W> {
    /// The pending events.
    pub open spec fn pending(&self) -> Seq<Event> {
        self.pending_events@.map_values(|event: TransportEvent| event@)
    }

    /// The event to report when the listener closes, if it does.
    pub open spec fn closing(&self) -> Option<Option<Event>> {
        match self.report_closed {
            Some(event) => Some(event_view(event)),
            None => None,
        }
    }

    /// Everything but the pending events, the report of the end and the waker is the same.
    pub open spec fn same_listener(&self, other: &ListenStream<W>) -> bool {
        &&& self.listener_id == other.listener_id
        &&& self.listen_addr == other.listen_addr
        &&& self.fingerprint == other.fingerprint
        &&& self.watching == other.watching
    }

    /// Creates a new [`ListenStream`] with the given listener id, fingerprint, and address of its
    /// socket.
    ///
    /// On a single interface its address is reported at once; on all of them the interfaces are
    /// watched.
    pub fn new(listener_id: ListenerId, fingerprint: Fingerprint, listen_addr: SocketAddr) -> (r:
        ListenStream<W>)
        ensures
            r.listener_id == listener_id,
            r.listen_addr == listen_addr,
            r.fingerprint@ == fingerprint@,
            r.closing() is None,
            r.close_listener_waker is None,
            r.watching == listen_addr.ip.unspecified(),
            r.pending() == (if listen_addr.ip.unspecified() {
                Seq::empty()
            } else {
                seq![new_address(listener_id, listen_addr, fingerprint@)]
            }),
    {
        let mut pending_events: VecDeque<TransportEvent> = VecDeque::new();
        let watching = listen_addr.ip.is_unspecified();
        if !watching {
            let ma = socketaddr_to_multiaddr(&listen_addr, Some(fingerprint));
            pending_events.push_back(TransportEvent::NewAddress { listener_id, listen_addr: ma });
        }
        ListenStream {
            listener_id,
            listen_addr,
            fingerprint,
            report_closed: None,
            watching,
            pending_events,
            close_listener_waker: None,
        }
    }

    /// Report the listener as closed in a [`TransportEvent::ListenerClosed`] and
    /// terminate the stream.
    ///
    /// Only the first reason counts. What comes back is to be woken, to deliver the last event.
    pub fn close(&mut self, reason: Result<(), Error>) -> (wake: Option<W>)
        ensures
            final(self).same_listener(old(self)),
            final(self).pending() == old(self).pending(),
            match old(self).closing() {
                Some(_) => wake is None && *final(self) == *old(self),
                None => {
                    &&& final(self).closing() == Some(
                        Some(Event::ListenerClosed(old(self).listener_id, reason)),
                    )
                    &&& wake == old(self).close_listener_waker
                    &&& final(self).close_listener_waker is None
                },
            },
    {
        match self.report_closed {
            Some(_) => None,
            None => {
                // Report the listener event as closed.
                let listener_id = self.listener_id;
                self.report_closed = Some(
                    Some(TransportEvent::ListenerClosed { listener_id, reason }),
                );
                // Wake the stream to deliver the last event.
                self.close_listener_waker.take()
            },
        }
    }

    /// To be called when nothing is ready: the stream is awoken through `waker` once it is closed.
    pub fn wait(&mut self, waker: W)
        ensures
            *final(self) == (ListenStream { close_listener_waker: Some(waker), ..*old(self) }),
    {
        self.close_listener_waker = Some(waker);
    }

    /// Constructs a [`Multiaddr`] for the given IP address that represents our listen address.
    fn listen_multiaddress(&self, ip: IpAddr) -> (r: Multiaddr)
        ensures
            components(r) == endpoint_components(
                endpoint(ip, self.listen_addr.port),
                Some(self.fingerprint@),
            ),
    {
        let socket_addr = SocketAddr::new(ip, self.listen_addr.port);
        socketaddr_to_multiaddr(&socket_addr, Some(self.fingerprint))
    }

    /// Takes a change of the interfaces and relays it as
    /// [`TransportEvent::NewAddress`], [`TransportEvent::AddressExpired`], or
    /// [`TransportEvent::ListenerError`] event; one of the other family is passed over.
    fn relay_if_event(&self, event: IfEvent) -> (r: Option<TransportEvent>)
        ensures
            event_view(r) == if_event(
                self.listener_id,
                self.listen_addr,
                self.fingerprint@,
                event,
            ),
    {
        let listener_id = self.listener_id;
        match event {
            IfEvent::Up(ip) => {
                if self.listen_addr.ip.is_ipv4() == ip.is_ipv4() || self.listen_addr.ip.is_ipv6()
                    == ip.is_ipv6() {
                    let listen_addr = self.listen_multiaddress(ip);
                    Some(TransportEvent::NewAddress { listener_id, listen_addr })
                } else {
                    None
                }
            },
            IfEvent::Down(ip) => {
                if self.listen_addr.ip.is_ipv4() == ip.is_ipv4() || self.listen_addr.ip.is_ipv6()
                    == ip.is_ipv6() {
                    let listen_addr = self.listen_multiaddress(ip);
                    Some(TransportEvent::AddressExpired { listener_id, listen_addr })
                } else {
                    None
                }
            },
            IfEvent::Failed(error) => Some(
                TransportEvent::ListenerError { listener_id, error: Error::Io(error) },
            ),
        }
    }

    /// The first event that is pending; where none is, the report of a listener that closed, which
    /// is given once and followed by the end of the stream.
    pub open spec fn next(&self) -> Step {
        if self.pending().len() > 0 {
            Step::Ready(Some(self.pending()[0]))
        } else if let Some(last) = self.closing() {
            Step::Ready(last)
        } else if self.watching {
            Step::PollIfWatcher
        } else {
            Step::PollUdp
        }
    }

    /// What a poll of the stream gives, and what it leaves.
    pub open spec fn polled(&self, after: &ListenStream<W>, step: Step) -> bool {
        &&& after.same_listener(self)
        &&& after.close_listener_waker == self.close_listener_waker
        &&& step == self.next()
        &&& after.pending() == (if self.pending().len() > 0 {
            self.pending().skip(1)
        } else {
            self.pending()
        })
        &&& after.closing() == (if self.pending().len() == 0 && self.closing() is Some {
            Some(None)
        } else {
            self.closing()
        })
    }

    /// Polls the stream: what is ready comes first, then the interfaces, then the socket.
    pub fn poll_next(&mut self) -> (r: ListenStep)
        ensures
            old(self).polled(final(self), r@),
    {
        // If a [TransportEvent::NewAddress] event is pending, return it.
        if let Some(event) = self.pending_events.pop_front() {
            assert(self.pending() =~= old(self).pending().skip(1));
            return ListenStep::Ready(Some(event));
        }
        // If a Listener has been closed
        if self.report_closed.is_some() {
            // Report the transport event if there is one. On the next iteration, there is none,
            // which terminates the stream.
            let closed = self.report_closed.take();
            self.report_closed = Some(None);
            return match closed {
                Some(last) => ListenStep::Ready(last),
                None => ListenStep::Ready(None),
            };
        }
        if self.watching {
            ListenStep::PollIfWatcher
        } else {
            ListenStep::PollUdp
        }
    }

    /// Goes on with what watching the interfaces gave, `None` if nothing did.
    ///
    /// The address beside the step, if there is one, is to be the listen address of the manager of
    /// the socket.
    pub fn on_if_event(&mut self, event: Option<IfEvent>) -> (r: (ListenStep, Option<SocketAddr>))
        ensures
            match event {
                None => r.0@ == Step::PollUdp && r.1 is None && *final(self) == *old(self),
                Some(event) => {
                    &&& r.0@ == (match if_event(
                        old(self).listener_id,
                        old(self).listen_addr,
                        old(self).fingerprint@,
                        event,
                    ) {
                        Some(relayed) => Step::Ready(Some(relayed)),
                        None => Step::PollIfWatcher,
                    })
                    &&& *final(self) == (ListenStream {
                        listen_addr: adopted(old(self).listen_addr, event),
                        ..*old(self)
                    })
                    &&& r.1 == (if adopted(old(self).listen_addr, event) != old(self).listen_addr
                        && old(self).listen_addr.ip is V4 {
                        Some(adopted(old(self).listen_addr, event))
                    } else {
                        None
                    })
                },
            },
    {
        let event = match event {
            None => return (ListenStep::PollUdp, None),
            Some(event) => event,
        };
        // if not loopback, set the listen address to the first non-loopback value
        let mut moved: Option<SocketAddr> = None;
        let own: Option<IpAddr> = match &event {
            IfEvent::Up(ip) => if self.listen_addr.ip.is_ipv4() == ip.is_ipv4() && is_adoptable(*ip)
                && self.listen_addr.ip.is_unspecified() {
                Some(*ip)
            } else {
                None
            },
            _ => None,
        };
        match self.relay_if_event(event) {
            None => (ListenStep::PollIfWatcher, None),
            Some(relayed) => {
                if let Some(ip) = own {
                    self.listen_addr = SocketAddr::new(ip, self.listen_addr.port);
                    if ip.is_ipv4() {
                        moved = Some(self.listen_addr);
                    }
                }
                (ListenStep::Ready(Some(relayed)), moved)
            },
        }
    }

    /// Goes on with what polling the manager of the socket gave, `None` if nothing did.
    ///
    /// UDP Manager will only bubble up new addresses for tracking, and
    /// errors for closing.
    pub fn on_udp_event(&mut self, event: Option<UDPManagerEvent>) -> (r: (ListenStep, Option<W>))
        ensures
            final(self).same_listener(old(self)),
            match event {
                None => r.0@ == Step::Pending && r.1 is None && *final(self) == *old(self),
                Some(UDPManagerEvent::NewRemoteAddress(remotes)) => {
                    let all = old(self).pending() + incoming(
                        old(self).listener_id,
                        old(self).listen_addr,
                        old(self).fingerprint@,
                        remotes@,
                    );
                    &&& r.1 is None
                    &&& final(self).closing() == old(self).closing()
                    &&& final(self).close_listener_waker == old(self).close_listener_waker
                    &&& r.0@ == (if all.len() > 0 {
                        Step::Ready(Some(all[0]))
                    } else {
                        Step::Pending
                    })
                    &&& final(self).pending() == (if all.len() > 0 {
                        all.skip(1)
                    } else {
                        all
                    })
                },
                Some(UDPManagerEvent::Error(error)) => {
                    let last = match old(self).closing() {
                        Some(last) => last,
                        None => Some(
                            Event::ListenerClosed(old(self).listener_id, Err::<(), Error>(error)),
                        ),
                    };
                    &&& r.1 == (if old(self).closing() is None {
                        old(self).close_listener_waker
                    } else {
                        None
                    })
                    &&& r.0@ == Step::Ready(
                        if old(self).pending().len() > 0 {
                            Some(old(self).pending()[0])
                        } else {
                            last
                        },
                    )
                    &&& final(self).pending() == (if old(self).pending().len() > 0 {
                        old(self).pending().skip(1)
                    } else {
                        old(self).pending()
                    })
                    &&& final(self).closing() == Some(
                        if old(self).pending().len() > 0 {
                            last
                        } else {
                            None
                        },
                    )
                },
            },
    {
        match event {
            None => (ListenStep::Pending, None),
            Some(UDPManagerEvent::NewRemoteAddress(remotes)) => {
                let mut i: usize = 0;
                let ghost all = old(self).pending() + incoming(
                    old(self).listener_id,
                    old(self).listen_addr,
                    old(self).fingerprint@,
                    remotes@,
                );
                while i < remotes.len()
                    invariant
                        i <= remotes@.len(),
                        self.same_listener(old(self)),
                        self.report_closed == old(self).report_closed,
                        self.close_listener_waker == old(self).close_listener_waker,
                        all == old(self).pending() + incoming(
                            old(self).listener_id,
                            old(self).listen_addr,
                            old(self).fingerprint@,
                            remotes@,
                        ),
                        self.pending() == all.take(old(self).pending().len() + i),
                    decreases remotes@.len() - i,
                {
                    let remote = remotes[i];
                    let local_addr = socketaddr_to_multiaddr(
                        &self.listen_addr,
                        Some(self.fingerprint),
                    );
                    let send_back_addr = socketaddr_to_multiaddr(&remote.addr, None);
                    let listener_id = self.listener_id;
                    let destination = self.listen_addr;
                    let event = TransportEvent::Incoming {
                        listener_id,
                        remote,
                        destination,
                        local_addr,
                        send_back_addr,
                    };
                    let ghost before = self.pending();
                    self.pending_events.push_back(event);
                    proof {
                        assert(self.pending() =~= before.push(event@));
                        assert(all[old(self).pending().len() + i] == event@);
                        assert(self.pending() =~= all.take(old(self).pending().len() + i + 1));
                    }
                    i += 1;
                }
                assert(self.pending() =~= all);
                match self.pending_events.pop_front() {
                    Some(event) => {
                        assert(self.pending() =~= all.skip(1));
                        (ListenStep::Ready(Some(event)), None)
                    },
                    None => (ListenStep::Pending, None),
                }
            },
            Some(UDPManagerEvent::Error(error)) => {
                let wake = self.close(Err(error));
                (self.poll_next(), wake)
            },
        }
    }
}

/// A closed listener with nothing left to deliver reports its end once; from then on every poll ends
/// the stream, and neither the interfaces nor the socket are looked at again.
pub proof fn law_closed_listener_ends<W>(
    closed: ListenStream<W>,
    reported: ListenStream<W>,
    ended: ListenStream<W>,
    first: Step,
    second: Step,
)
    requires
        closed.closing() is Some,
        closed.pending().len() == 0,
        closed.polled(&reported, first),
        reported.polled(&ended, second),
    ensures
        first == Step::Ready(closed.closing()->0),
        second == Step::Ready(None),
        ended.closing() == reported.closing(),
        ended.pending() == reported.pending(),
{
}

/// What is pending is delivered in order, before a listener's end is reported.
pub proof fn law_pending_events_come_first<W>(
    before: ListenStream<W>,
    after: ListenStream<W>,
    step: Step,
)
    requires
        before.pending().len() > 0,
        before.polled(&after, step),
    ensures
        step matches Step::Ready(Some(event)) && before.pending() == seq![event] + after.pending(),
        after.closing() == before.closing(),
{
    assert(before.pending() =~= seq![before.pending()[0]] + before.pending().skip(1));
}

/// A listener takes an address for its own at most once: one on a single interface keeps it
/// whatever the interfaces do.
pub proof fn law_address_is_adopted_once(addr: SocketAddr, first: IfEvent, second: IfEvent)
    ensures
        !addr.ip.unspecified() ==> adopted(addr, first) == addr,
        adopted(addr, first) != addr ==> adopted(adopted(addr, first), second) == adopted(
            addr,
            first,
        ),
        adopted(addr, first).port == addr.port,
        same_family(adopted(addr, first).ip, addr.ip),
{
}

/// Whoever dials an address that a listener reports as new reaches the listener: its endpoint and
/// its certificate, provided that it has a port and an address of its own.
pub proof fn law_reported_addresses_can_be_dialled(
    id: ListenerId,
    addr: SocketAddr,
    fingerprint: Fingerprint,
    ip: IpAddr,
)
    requires
        addr.port != 0,
        !ip.unspecified(),
        same_family(addr.ip, ip),
    ensures
        if_event(id, addr, fingerprint@, IfEvent::Up(ip)) matches Some(
            Event::NewAddress(_, listen_addr),
        ) && dialable(listen_addr) == Some((endpoint(ip, addr.port), fingerprint@)),
{
    crate::multiaddr::law_dial_round_trip(ip, addr.port, fingerprint);
}

/// Every address that is announced as new expires when its interface goes down: a change of the
/// interfaces of the listener's family is relayed with the multiaddress of the address that
/// changed, the listener's port and the certificate, and it is the same one when the address comes
/// up and when it is gone, whatever the listen address is by then. Those of the other family mean
/// nothing to the listener.
pub proof fn law_announced_addresses_expire(
    id: ListenerId,
    before: SocketAddr,
    now: SocketAddr,
    digest: Seq<u8>,
    ip: IpAddr,
)
    requires
        before.ip is V4 == now.ip is V4,
        before.port == now.port,
    ensures
        ({
            let parts = seq![
                match ip {
                    IpAddr::V4(bits) => Component::Ip4(bits),
                    IpAddr::V6(bits) => Component::Ip6(bits),
                },
                Component::Udp(now.port),
                Component::WebRtcDirect,
                Component::Certhash(0x12, digest),
            ];
            if ip is V4 == now.ip is V4 {
                &&& if_event(id, before, digest, IfEvent::Up(ip)) == Some(
                    Event::NewAddress(id, parts),
                )
                &&& if_event(id, now, digest, IfEvent::Down(ip)) == Some(
                    Event::AddressExpired(id, parts),
                )
            } else {
                &&& if_event(id, before, digest, IfEvent::Up(ip)) is None
                &&& if_event(id, now, digest, IfEvent::Down(ip)) is None
            }
        }),
{
    let parts = seq![
        match ip {
            IpAddr::V4(bits) => Component::Ip4(bits),
            IpAddr::V6(bits) => Component::Ip6(bits),
        },
        Component::Udp(now.port),
        Component::WebRtcDirect,
        Component::Certhash(0x12, digest),
    ];
    assert(endpoint_components(endpoint(ip, now.port), Some(digest)) =~= parts);
}

/// Interfaces that cannot be watched are reported as an error of the listener, with its cause, and
/// leave the listen address as it is, as does an address that is gone.
pub proof fn law_watch_errors_are_reported(
    id: ListenerId,
    addr: SocketAddr,
    digest: Seq<u8>,
    error: IoError,
    ip: IpAddr,
)
    ensures
        if_event(id, addr, digest, IfEvent::Failed(error)) == Some(
            Event::ListenerError(id, Error::Io(error)),
        ),
        adopted(addr, IfEvent::Failed(error)) == addr,
        adopted(addr, IfEvent::Down(ip)) == addr,
{
}

/// A listener on all interfaces takes for its own the first address of its family that others can
/// reach it at, and keeps its port: an IPv4 address that is neither in `127.0.0.0/8`,
/// `169.254.0.0/16` nor `224.0.0.0/4` nor zero, or an IPv6 address that is neither one, zero nor in
/// `ff00::/8`.
pub proof fn law_reachable_addresses_are_adopted(port: u16, v4: u32, v6: u128)
    ensures
        ({
            let addr = SocketAddr { ip: IpAddr::V4(0), port, flowinfo: 0, scope_id: 0 };
            adopted(addr, IfEvent::Up(IpAddr::V4(v4))) == (if v4 == 0 || 0x7f00_0000 <= v4
                <= 0x7fff_ffff || 0xa9fe_0000 <= v4 <= 0xa9fe_ffff || 0xe000_0000 <= v4
                <= 0xefff_ffff {
                addr
            } else {
                SocketAddr { ip: IpAddr::V4(v4), ..addr }
            }) && adopted(addr, IfEvent::Up(IpAddr::V6(v6))) == addr
        }),
        ({
            let addr = SocketAddr { ip: IpAddr::V6(0), port, flowinfo: 0, scope_id: 0 };
            adopted(addr, IfEvent::Up(IpAddr::V6(v6))) == (if v6 <= 1 || v6
                >= 0xff00_0000_0000_0000_0000_0000_0000_0000 {
                addr
            } else {
                SocketAddr { ip: IpAddr::V6(v6), ..addr }
            }) && adopted(addr, IfEvent::Up(IpAddr::V4(v4))) == addr
        }),
{
}

/// Every new remote is reported once, in the order in which they came: at the listener's address,
/// which the local multiaddress names with the certificate, and from the remote's, which the other
/// names without one.
pub proof fn law_every_remote_is_reported(
    id: ListenerId,
    addr: SocketAddr,
    digest: Seq<u8>,
    remotes: Seq<NewRemote>,
    i: int,
)
    requires
        0 <= i < remotes.len(),
    ensures
        incoming(id, addr, digest, remotes).len() == remotes.len(),
        incoming(id, addr, digest, remotes)[i] matches Event::Incoming(
            listener,
            remote,
            destination,
            local,
            send_back,
        ) && {
            &&& listener == id
            &&& remote == remotes[i]
            &&& destination == addr
            &&& local == seq![
                match addr.ip {
                    IpAddr::V4(bits) => Component::Ip4(bits),
                    IpAddr::V6(bits) => Component::Ip6(bits),
                },
                Component::Udp(addr.port),
                Component::WebRtcDirect,
                Component::Certhash(0x12, digest),
            ]
            &&& send_back == seq![
                match remotes[i].addr.ip {
                    IpAddr::V4(bits) => Component::Ip4(bits),
                    IpAddr::V6(bits) => Component::Ip6(bits),
                },
                Component::Udp(remotes[i].addr.port),
                Component::WebRtcDirect,
            ]
        },
{
    assert(endpoint_components(addr, Some(digest)) =~= seq![
        match addr.ip {
            IpAddr::V4(bits) => Component::Ip4(bits),
            IpAddr::V6(bits) => Component::Ip6(bits),
        },
        Component::Udp(addr.port),
        Component::WebRtcDirect,
        Component::Certhash(0x12, digest),
    ]);
}

/// Whom to dial is told by every multiaddress of the form that a dialer reads, unless its port is
/// zero or its address stands for all interfaces.
pub proof fn law_what_can_be_dialled(parts: Seq<Component>, addr: SocketAddr, digest: Seq<u8>)
    ensures
        dialable(parts) == Some((addr, digest)) <==> dial_endpoint(parts) == Some((addr, digest))
            && addr.port != 0 && addr.ip != IpAddr::V4(0) && addr.ip != IpAddr::V6(0),
{
}

/// A listener with nothing to deliver that is not closed looks at the interfaces first, where it
/// watches them, and else at the socket; neither changes it.
pub proof fn law_idle_listeners_look_around<W>(
    before: ListenStream<W>,
    after: ListenStream<W>,
    step: Step,
)
    requires
        before.pending().len() == 0,
        before.closing() is None,
        before.polled(&after, step),
    ensures
        step == (if before.watching {
            Step::PollIfWatcher
        } else {
            Step::PollUdp
        }),
        after.pending().len() == 0,
        after.closing() is None,
        after.listener_id == before.listener_id,
        after.listen_addr == before.listen_addr,
        after.fingerprint == before.fingerprint,
        after.watching == before.watching,
        after.close_listener_waker == before.close_listener_waker,
{
}

/// Taking an address that comes up, and later one that goes down, with the same id, port,
/// certificate and family of addresses: both of the listener's family are relayed, the first as new
/// and the second as expired, and where they are the same address, under the same multiaddress; so
/// whatever was announced expires, also where it is what the listener took for its own. Those of the
/// other family are passed over.
pub proof fn law_relayed_addresses_expire<W>(
    up: &mut ListenStream<W>,
    announced: (ListenStep, Option<SocketAddr>),
    down: &mut ListenStream<W>,
    expired: (ListenStep, Option<SocketAddr>),
    ip: IpAddr,
)
    requires
        call_ensures(ListenStream::<W>::on_if_event, (up, Some(IfEvent::Up(ip))), announced),
        call_ensures(ListenStream::<W>::on_if_event, (down, Some(IfEvent::Down(ip))), expired),
        old(up).listener_id == old(down).listener_id,
        old(up).fingerprint@ == old(down).fingerprint@,
        old(up).listen_addr.port == old(down).listen_addr.port,
        old(up).listen_addr.ip is V4 == old(down).listen_addr.ip is V4,
    ensures
        ip is V4 != old(up).listen_addr.ip is V4 ==> announced.0@ == Step::PollIfWatcher
            && expired.0@ == Step::PollIfWatcher,
        ip is V4 == old(up).listen_addr.ip is V4 ==> exists|parts: Seq<Component>|
            {
                &&& #[trigger] parts.len() == 4
                &&& announced.0@ == Step::Ready(
                    Some(Event::NewAddress(old(up).listener_id, parts)),
                )
                &&& expired.0@ == Step::Ready(
                    Some(Event::AddressExpired(old(up).listener_id, parts)),
                )
                &&& parts[0] == (match ip {
                    IpAddr::V4(bits) => Component::Ip4(bits),
                    IpAddr::V6(bits) => Component::Ip6(bits),
                })
                &&& parts[1] == Component::Udp(old(up).listen_addr.port)
                &&& parts[2] == Component::WebRtcDirect
                &&& parts[3] == Component::Certhash(0x12, old(up).fingerprint@)
            },
        *final(down) == *old(down),
        expired.1 is None,
{
    law_announced_addresses_expire(
        old(up).listener_id,
        old(up).listen_addr,
        old(down).listen_addr,
        old(up).fingerprint@,
        ip,
    );
    if ip is V4 == old(up).listen_addr.ip is V4 {
        let parts = endpoint_components(
            endpoint(ip, old(up).listen_addr.port),
            Some(old(up).fingerprint@),
        );
        assert(parts.len() == 4);
        assert(if_event(
            old(up).listener_id,
            old(up).listen_addr,
            old(up).fingerprint@,
            IfEvent::Up(ip),
        ) == Some(Event::NewAddress(old(up).listener_id, parts)));
    }
}

/// When an address comes up, nothing but the listen address of the listener changes, and that only
/// from all interfaces to this one; the manager of the socket is told of it, where it is IPv4.
pub proof fn law_interfaces_move_the_listen_address_only<W>(
    stream: &mut ListenStream<W>,
    ip: IpAddr,
    r: (ListenStep, Option<SocketAddr>),
)
    requires
        call_ensures(ListenStream::<W>::on_if_event, (stream, Some(IfEvent::Up(ip))), r),
    ensures
        *final(stream) == (ListenStream { listen_addr: final(stream).listen_addr, ..*old(stream) }),
        final(stream).listen_addr != old(stream).listen_addr ==> {
            &&& old(stream).listen_addr.ip == IpAddr::V4(0) || old(stream).listen_addr.ip
                == IpAddr::V6(0)
            &&& final(stream).listen_addr.ip == ip
            &&& final(stream).listen_addr.port == old(stream).listen_addr.port
            &&& r.1 == (if ip is V4 {
                Some(final(stream).listen_addr)
            } else {
                None
            })
        },
        final(stream).listen_addr == old(stream).listen_addr ==> r.1 is None,
{
}

/// Where watching the interfaces gave nothing, the socket comes next, and where the socket gave
/// nothing, nothing is ready; the listener stays as it is.
pub proof fn law_nothing_new_changes_nothing<W>(
    watched: &mut ListenStream<W>,
    after_watch: (ListenStep, Option<SocketAddr>),
    polled: &mut ListenStream<W>,
    after_poll: (ListenStep, Option<W>),
)
    requires
        call_ensures(ListenStream::<W>::on_if_event, (watched, None::<IfEvent>), after_watch),
        call_ensures(
            ListenStream::<W>::on_udp_event,
            (polled, None::<UDPManagerEvent>),
            after_poll,
        ),
    ensures
        after_watch.0@ == Step::PollUdp,
        *final(watched) == *old(watched),
        after_poll.0@ == Step::Pending,
        *final(polled) == *old(polled),
{
}

/// A listener closes once, for the first reason that it is given: that is reported, with the id of
/// the listener, and whoever waits for the end is woken. What is pending is still delivered, and
/// closing again changes nothing and wakes nobody.
pub proof fn law_listeners_close_once<W>(
    first: &mut ListenStream<W>,
    reason: Result<(), Error>,
    woken: Option<W>,
    second: &mut ListenStream<W>,
    other: Result<(), Error>,
    again: Option<W>,
)
    requires
        call_ensures(ListenStream::<W>::close, (first, reason), woken),
        call_ensures(ListenStream::<W>::close, (second, other), again),
        old(first).closing() is None,
        *old(second) == *final(first),
    ensures
        final(first).closing() == Some(
            Some(Event::ListenerClosed(old(first).listener_id, reason)),
        ),
        woken == old(first).close_listener_waker,
        final(first).pending() == old(first).pending(),
        *final(second) == *final(first),
        again is None,
{
}

/// New remotes are reported one by one, behind what is pending already: what is given out at once and
/// what is pending then is what was pending before, followed by a report for each remote.
pub proof fn law_remotes_are_queued_behind_what_is_pending<W>(
    stream: &mut ListenStream<W>,
    remotes: Vec<NewRemote>,
    r: (ListenStep, Option<W>),
)
    requires
        call_ensures(
            ListenStream::<W>::on_udp_event,
            (stream, Some(UDPManagerEvent::NewRemoteAddress(remotes))),
            r,
        ),
    ensures
        old(stream).pending().len() + remotes@.len() == 0 ==> r.0@ == Step::Pending
            && final(stream).pending().len() == 0,
        old(stream).pending().len() + remotes@.len() > 0 ==> {
            &&& r.0@ matches Step::Ready(Some(event))
            &&& ({
                let all = seq![event] + final(stream).pending();
                &&& all.len() == old(stream).pending().len() + remotes@.len()
                &&& forall|i: int|
                    0 <= i < old(stream).pending().len() ==> all[i] == #[trigger] old(
                        stream,
                    ).pending()[i]
                &&& forall|i: int|
                    0 <= i < remotes@.len() ==> (all[old(stream).pending().len() + i]
                        matches Event::Incoming(id, remote, destination, _, _) && id == old(
                        stream,
                    ).listener_id && remote == #[trigger] remotes@[i] && destination == old(
                        stream,
                    ).listen_addr)
            })
        },
        final(stream).closing() == old(stream).closing(),
        final(stream).listen_addr == old(stream).listen_addr,
        r.1 is None,
{
    let all = old(stream).pending() + incoming(
        old(stream).listener_id,
        old(stream).listen_addr,
        old(stream).fingerprint@,
        remotes@,
    );
    if all.len() > 0 {
        assert(seq![all[0]] + all.skip(1) =~= all);
        assert forall|i: int| 0 <= i < remotes@.len() implies (all[old(stream).pending().len() + i]
            matches Event::Incoming(id, remote, destination, _, _) && id == old(stream).listener_id
            && remote == #[trigger] remotes@[i] && destination == old(stream).listen_addr) by {
            law_every_remote_is_reported(
                old(stream).listener_id,
                old(stream).listen_addr,
                old(stream).fingerprint@,
                remotes@,
                i,
            );
        }
    }
}

/// A socket that fails closes its listener, for that reason, unless it was closed already; what is
/// pending is delivered first, then the reason, and then nothing more.
pub proof fn law_failed_sockets_close_their_listener<W>(
    stream: &mut ListenStream<W>,
    error: Error,
    r: (ListenStep, Option<W>),
)
    requires
        call_ensures(
            ListenStream::<W>::on_udp_event,
            (stream, Some(UDPManagerEvent::Error(error))),
            r,
        ),
        old(stream).closing() is None,
    ensures
        ({
            let reason = Event::ListenerClosed(old(stream).listener_id, Err::<(), Error>(error));
            if old(stream).pending().len() > 0 {
                &&& r.0@ == Step::Ready(Some(old(stream).pending()[0]))
                &&& final(stream).pending() == old(stream).pending().skip(1)
                &&& final(stream).closing() == Some(Some(reason))
            } else {
                &&& r.0@ == Step::Ready(Some(reason))
                &&& final(stream).closing() == Some(None::<Event>)
                &&& final(stream).pending().len() == 0
            }
        }),
        r.1 == old(stream).close_listener_waker,
{
}

/// A new listener on one interface has its address to report, with the port and the certificate, and
/// does not watch; one on all interfaces watches them and has nothing to report. Neither is closed.
pub proof fn law_new_listeners_report_their_address<W>(
    id: ListenerId,
    fingerprint: Fingerprint,
    addr: SocketAddr,
    r: ListenStream<W>,
)
    requires
        call_ensures(ListenStream::<W>::new, (id, fingerprint, addr), r),
    ensures
        r.listener_id == id,
        r.listen_addr == addr,
        r.fingerprint@ == fingerprint@,
        r.closing() is None,
        r.watching <==> addr.ip == IpAddr::V4(0) || addr.ip == IpAddr::V6(0),
        r.watching ==> r.pending().len() == 0,
        !r.watching ==> r.pending() == seq![
            Event::NewAddress(
                id,
                seq![
                    match addr.ip {
                        IpAddr::V4(bits) => Component::Ip4(bits),
                        IpAddr::V6(bits) => Component::Ip6(bits),
                    },
                    Component::Udp(addr.port),
                    Component::WebRtcDirect,
                    Component::Certhash(0x12, fingerprint@),
                ],
            ),
        ],
{
    assert(endpoint_components(addr, Some(fingerprint@)) =~= seq![
        match addr.ip {
            IpAddr::V4(bits) => Component::Ip4(bits),
            IpAddr::V6(bits) => Component::Ip6(bits),
        },
        Component::Udp(addr.port),
        Component::WebRtcDirect,
        Component::Certhash(0x12, fingerprint@),
    ]);
}

/// Where to listen and whom to dial is what the multiaddress says, for every multiaddress that says
/// it; any other is refused, and handed back.
pub proof fn law_multiaddresses_are_followed(
    transport: &Transport,
    addr: Multiaddr,
    listened: Result<SocketAddr, TransportError>,
    dialled: Result<DialTarget, TransportError>,
)
    requires
        call_ensures(Transport::listen_on, (transport, addr), listened),
        call_ensures(Transport::dial, (transport, addr), dialled),
    ensures
        listened matches Ok(at) ==> listen_endpoint(components(addr)) == Some(at),
        listened is Ok <==> listen_endpoint(components(addr)) is Some,
        listened matches Err(e) ==> e == TransportError::MultiaddrNotSupported(addr),
        dialled matches Ok(target) ==> {
            &&& dial_endpoint(components(addr)) == Some((target.addr, target.remote_fingerprint@))
            &&& target.addr.port != 0
            &&& target.addr.ip != IpAddr::V4(0) && target.addr.ip != IpAddr::V6(0)
        },
        dialled matches Err(e) ==> e == TransportError::MultiaddrNotSupported(addr),
        dialled is Err ==> dial_endpoint(components(addr)) is None || ({
            let (at, _) = dial_endpoint(components(addr))->0;
            at.port == 0 || at.ip == IpAddr::V4(0) || at.ip == IpAddr::V6(0)
        }),
        !(listened is Ok && dialled is Ok),
{
    crate::multiaddr::law_listen_and_dial_disjoint(components(addr));
}

} // verus!
