//! A ping test, from either side.
use libp2p_core::Multiaddr;
use vstd::prelude::*;

use crate::interop::protocols::{Muxer, SecProtocol, Transport};
use crate::multiaddr::{components, Component};
use crate::text::{contains, ends_with, lemma_ends, occurs_in};
use crate::time::{nanos_until, Instant};

verus! {

/// Number of successful pings required before the test is considered passing.
/// Using more than one exercises that subsequent messages (not just the first)
/// can flow over the connection.
pub const PING_COUNT: u32 = 12;

/// How often a peer is pinged, in seconds.
pub const PING_INTERVAL_SECS: u64 = 1;

/// The name under which a peer identifies itself.
pub const IDENTIFY_PROTOCOL: &'static str = "/interop-tests";

/// The list through which the listener tells the dialer its address.
pub const LISTENER_ADDR_KEY: &'static str = "listenerAddr";

/// An address with this in it is of no use to others.
pub const LOOPBACK: &'static str = "127.0.0.1";

/// A request to redis proxy that will pop the value from the list
/// and will wait for it being inserted until a timeout is reached.
#[derive(Debug, PartialEq, Eq)]
pub struct BlpopRequest {
    pub key: String,
    pub timeout: u64,
}

/// A report generated by the test, in microseconds.
#[derive(Clone, Copy, Debug, PartialEq, Eq, Structural)]
pub struct Report {
    /// How long the handshake and the first ping took.
    pub handshake_plus_one_rtt_micros: u64,
    /// How long the last ping took.
    pub ping_rtt_micros: u64,
}

/// The protocols to test with.
#[derive(Clone, Copy, Debug, PartialEq, Eq, Structural)]
pub struct TestProtocols {
    pub transport: Transport,
    pub sec_protocol: Option<SecProtocol>,
    pub muxer: Option<Muxer>,
}

/// Why a test does not start: what was not understood, and why.
#[derive(Debug, PartialEq, Eq)]
pub struct ParseError {
    pub context: &'static str,
    pub cause: String,
}

impl ParseError {
    /// This error says these.
    pub open spec fn says(self, context: Seq<char>, cause: Seq<char>) -> bool {
        self.context@ == context && self.cause@ == cause
    }
}

/// A transport has that name.
pub open spec fn is_transport(name: Seq<char>) -> bool {
    exists|transport: Transport| #[trigger] transport.name() == name
}

/// A security protocol has that name.
pub open spec fn is_sec_protocol(name: Seq<char>) -> bool {
    exists|protocol: SecProtocol| #[trigger] protocol.name() == name
}

/// A multiplexer has that name.
pub open spec fn is_muxer(name: Seq<char>) -> bool {
    exists|muxer: Muxer| #[trigger] muxer.name() == name
}

/// Tells the protocols to test with by their names; the first name that is not known is the error.
pub fn parse_protocols(transport: &str, sec_protocol: Option<&str>, muxer: Option<&str>) -> (r:
    Result<TestProtocols, ParseError>)
    ensures
        match r {
            Ok(protocols) => {
                &&& protocols.transport.name() == transport@
                &&& match (protocols.sec_protocol, sec_protocol) {
                    (Some(p), Some(name)) => p.name() == name@,
                    (None, None) => true,
                    _ => false,
                }
                &&& match (protocols.muxer, muxer) {
                    (Some(m), Some(name)) => m.name() == name@,
                    (None, None) => true,
                    _ => false,
                }
            },
            Err(e) => if !is_transport(transport@) {
                e.says("Couldn't parse transport"@, "unknown transport "@ + transport@)
            } else if sec_protocol is Some && !is_sec_protocol(sec_protocol->0@) {
                e.says(
                    "Couldn't parse security protocol"@,
                    "unknown security protocol "@ + sec_protocol->0@,
                )
            } else {
                &&& muxer is Some
                &&& !is_muxer(muxer->0@)
                &&& e.says("Couldn't parse muxer protocol"@, "unknown muxer "@ + muxer->0@)
            },
        },
{
    let transport = match Transport::from_str(transport) {
        Ok(transport) => transport,
        Err(cause) => return Err(ParseError { context: "Couldn't parse transport", cause }),
    };
    let sec_protocol = match sec_protocol {
        None => None,
        Some(name) => match SecProtocol::from_str(name) {
            Ok(protocol) => Some(protocol),
            Err(cause) => return Err(
                ParseError { context: "Couldn't parse security protocol", cause },
            ),
        },
    };
    let muxer = match muxer {
        None => None,
        Some(name) => match Muxer::from_str(name) {
            Ok(muxer) => Some(muxer),
            Err(cause) => return Err(
                ParseError { context: "Couldn't parse muxer protocol", cause },
            ),
        },
    };
    Ok(TestProtocols { transport, sec_protocol, muxer })
}

/// Whether to listen before anything else, even as a dialer: a browser never does.
pub fn listens_first(transport: Transport, in_browser: bool) -> (r: bool)
    ensures
        r == (transport == Transport::WebRtcDirect && !in_browser),
{
    transport == Transport::WebRtcDirect && !in_browser
}

/// The listener's address in what was popped off the list: the second entry, behind the key.
pub fn listener_address(popped: &Vec<String>) -> (r: Result<&String, &'static str>)
    ensures
        if popped@.len() > 1 {
            r matches Ok(address) && *address == popped@[1]
        } else {
            r matches Err(text) && text@ == "Failed to wait for listener to be ready"@
        },
{
    if popped.len() > 1 {
        Ok(&popped[1])
    } else {
        Err("Failed to wait for listener to be ready")
    }
}

/// The components of the multiaddress that `libp2p_core` reads in a text, where it reads one.
pub uninterp spec fn read_multiaddr(text: Seq<char>) -> Option<Seq<Component>>;

/// `Multiaddr::from_str` of `libp2p_core`, which depends on nothing but the text.
#[verifier::external_body]
fn parse_multiaddr(text: &str) -> (r: Option<Multiaddr>)
    ensures
        match r {
            Some(addr) => read_multiaddr(text@) == Some(components(addr)),
            None => read_multiaddr(text@) is None,
        },
{
    text.parse().ok()
}

/// Why there is nothing to dial.
#[derive(Clone, Copy, Debug, PartialEq, Eq, Structural)]
pub enum NoDialAddress {
    /// No listener told its address in time.
    NoListener,
    /// What a listener told is not a multiaddress.
    NotAMultiaddr,
}

/// What to dial, out of what was popped off the list.
pub fn dial_address(popped: &Vec<String>) -> (r: Result<Multiaddr, NoDialAddress>)
    ensures
        match r {
            Ok(addr) => popped@.len() > 1 && read_multiaddr(popped@[1]@) == Some(components(addr)),
            Err(NoDialAddress::NoListener) => popped@.len() <= 1,
            Err(NoDialAddress::NotAMultiaddr) => popped@.len() > 1 && read_multiaddr(
                popped@[1]@,
            ) is None,
        },
{
    match listener_address(popped) {
        Err(_) => Err(NoDialAddress::NoListener),
        Ok(address) => match parse_multiaddr(address.as_str()) {
            Some(addr) => Ok(addr),
            None => Err(NoDialAddress::NotAMultiaddr),
        },
    }
}

/// What the listener tells the dialer of a new address: one of the listener that was asked for, not
/// a loopback one, together with the peer.
pub fn announcement(address: &str, is_listener: bool, peer: &str) -> (r: Option<String>)
    ensures
        match r {
            Some(text) => !occurs_in(address@, LOOPBACK@) && is_listener && text@ == address@
                + "/p2p/"@ + peer@,
            None => occurs_in(address@, LOOPBACK@) || !is_listener,
        },
{
    if contains(address, LOOPBACK) {
        return None;
    }
    if !is_listener {
        return None;
    }
    let mut text = address.to_owned();
    text.append("/p2p/");
    text.append(peer);
    Some(text)
}

/// What happens in the swarm.
#[derive(Clone, Copy, Debug, PartialEq, Eq, Structural)]
pub enum SwarmEvent {
    /// A ping came back after so many microseconds.
    PingSucceeded { rtt_micros: u64 },
    /// A ping did not come back.
    PingFailed,
    /// A connection was established.
    ConnectionEstablished,
    /// Something else.
    Other,
    /// Nothing will happen any more.
    Ended,
}

/// How a test goes on.
#[derive(Clone, Copy, Debug, PartialEq, Eq)]
pub enum TestStep {
    /// Wait for the next event.
    Wait,
    /// The test passed.
    Passed(Report),
    /// The test failed, for this reason.
    Failed(&'static str),
}

/// The microseconds from `start` to `now`.
pub open spec fn micros_since(start: Instant, now: Instant) -> u64 {
    (nanos_until(now, start) / 1000) as u64
}

fn elapsed_micros(start: Instant, now: Instant) -> (r: u64)
    ensures
        r == micros_since(start, now),
{
    now.remaining_from(start) / 1000
}

/// The dialer's side of a test.
#[derive(Clone, Copy, Debug, PartialEq, Eq, Structural)]
pub struct Dialer {
    /// When dialing started.
    pub handshake_start: Instant,
    /// How many pings succeeded.
    pub ping_count: u32,
    /// How long it took until the first did.
    pub handshake_plus_first_rtt: Option<u64>,
}

/// What the dialer makes of an event: the count and the first round trip, and the report once
/// enough pings succeeded.
pub open spec fn dialer_step(dialer: Dialer, event: SwarmEvent, now: Instant) -> (
    Dialer,
    Option<Report>,
) {
    match event {
        SwarmEvent::PingSucceeded { rtt_micros } => {
            let first = match dialer.handshake_plus_first_rtt {
                Some(micros) => micros,
                None => micros_since(dialer.handshake_start, now),
            };
            let next = Dialer {
                ping_count: (dialer.ping_count + 1) as u32,
                handshake_plus_first_rtt: Some(first),
                ..dialer
            };
            (
                next,
                if next.ping_count >= PING_COUNT {
                    Some(
                        Report {
                            handshake_plus_one_rtt_micros: first,
                            ping_rtt_micros: rtt_micros,
                        },
                    )
                } else {
                    None
                },
            )
        },
        _ => (dialer, None),
    }
}

impl Dialer {
    /// A test that has not passed yet.
    pub open spec fn inv(&self) -> bool {
        self.ping_count < PING_COUNT
    }

    /// A test of which dialing starts now.
    pub fn new(now: Instant) -> (r: Dialer)
        ensures
            r.inv(),
            r == (Dialer { handshake_start: now, ping_count: 0, handshake_plus_first_rtt: None }),
    {
        Dialer { handshake_start: now, ping_count: 0, handshake_plus_first_rtt: None }
    }

    /// Takes an event.
    pub fn on_event(&mut self, event: SwarmEvent, now: Instant) -> (r: TestStep)
        requires
            old(self).inv(),
        ensures
            !(r is Passed) ==> final(self).inv(),
            *final(self) == dialer_step(*old(self), event, now).0,
            match r {
                TestStep::Passed(report) => dialer_step(*old(self), event, now).1 == Some(report),
                TestStep::Failed(text) => event is Ended && text@
                    == "Swarm stream ended unexpectedly"@,
                TestStep::Wait => !(event is Ended) && dialer_step(
                    *old(self),
                    event,
                    now,
                ).1 is None,
            },
    {
        match event {
            SwarmEvent::PingSucceeded { rtt_micros } => {
                self.ping_count += 1;
                let first: u64 = match self.handshake_plus_first_rtt {
                    Some(micros) => micros,
                    None => elapsed_micros(self.handshake_start, now),
                };
                self.handshake_plus_first_rtt = Some(first);
                if self.ping_count >= PING_COUNT {
                    TestStep::Passed(
                        Report {
                            handshake_plus_one_rtt_micros: first,
                            ping_rtt_micros: rtt_micros,
                        },
                    )
                } else {
                    TestStep::Wait
                }
            },
            SwarmEvent::Ended => TestStep::Failed("Swarm stream ended unexpectedly"),
            _ => TestStep::Wait,
        }
    }
}

/// The listener's side of a test.
#[derive(Clone, Copy, Debug, PartialEq, Eq, Structural)]
pub struct Listener {
    /// When the first connection was established.
    pub handshake_start: Option<Instant>,
    /// How many pings succeeded.
    pub ping_count: u32,
}

/// What the listener makes of an event.
pub open spec fn listener_step(listener: Listener, event: SwarmEvent, now: Instant) -> (
    Listener,
    Option<Report>,
) {
    match event {
        SwarmEvent::ConnectionEstablished => (
            Listener {
                handshake_start: match listener.handshake_start {
                    Some(start) => Some(start),
                    None => Some(now),
                },
                ..listener
            },
            None,
        ),
        SwarmEvent::PingSucceeded { rtt_micros } => {
            let next = Listener { ping_count: (listener.ping_count + 1) as u32, ..listener };
            let start = match listener.handshake_start {
                Some(start) => start,
                None => now,
            };
            (
                next,
                if next.ping_count >= PING_COUNT {
                    Some(
                        Report {
                            handshake_plus_one_rtt_micros: micros_since(start, now),
                            ping_rtt_micros: rtt_micros,
                        },
                    )
                } else {
                    None
                },
            )
        },
        _ => (listener, None),
    }
}

impl Listener {
    /// A test that has not passed yet.
    pub open spec fn inv(&self) -> bool {
        self.ping_count < PING_COUNT
    }

    /// A test to which nobody connected yet.
    pub fn new() -> (r: Listener)
        ensures
            r.inv(),
            r == (Listener { handshake_start: None, ping_count: 0 }),
    {
        Listener { handshake_start: None, ping_count: 0 }
    }

    /// Takes an event.
    pub fn on_event(&mut self, event: SwarmEvent, now: Instant) -> (r: TestStep)
        requires
            old(self).inv(),
        ensures
            !(r is Passed) ==> final(self).inv(),
            *final(self) == listener_step(*old(self), event, now).0,
            match r {
                TestStep::Passed(report) => listener_step(*old(self), event, now).1 == Some(
                    report,
                ),
                TestStep::Failed(text) => event is Ended && text@
                    == "Swarm stream ended unexpectedly"@,
                TestStep::Wait => !(event is Ended) && listener_step(
                    *old(self),
                    event,
                    now,
                ).1 is None,
            },
    {
        match event {
            SwarmEvent::ConnectionEstablished => {
                if self.handshake_start.is_none() {
                    self.handshake_start = Some(now);
                }
                TestStep::Wait
            },
            SwarmEvent::PingSucceeded { rtt_micros } => {
                self.ping_count += 1;
                if self.ping_count >= PING_COUNT {
                    let start = match self.handshake_start {
                        Some(start) => start,
                        None => now,
                    };
                    TestStep::Passed(
                        Report {
                            handshake_plus_one_rtt_micros: elapsed_micros(start, now),
                            ping_rtt_micros: rtt_micros,
                        },
                    )
                } else {
                    TestStep::Wait
                }
            },
            SwarmEvent::Ended => TestStep::Failed("Swarm stream ended unexpectedly"),
            _ => TestStep::Wait,
        }
    }

    /// The outcome of a test whose time is over.
    pub fn on_timeout(&self) -> (r: TestStep)
        ensures
            r matches TestStep::Failed(text) && text@ == "Timed out waiting for dialer ping"@,
    {
        TestStep::Failed("Timed out waiting for dialer ping")
    }
}

/// Where the results of a test in a browser go.
pub fn results_url(base_url: &str) -> (r: String)
    ensures
        r@ == "http://"@ + base_url@ + "/results"@,
{
    let mut url = "http://".to_owned();
    url.append(base_url);
    url.append("/results");
    url
}

/// What is said when the results could not be sent.
pub fn sending_failed(error: &str) -> (r: String)
    ensures
        r@ == "Sending test result failed: "@ + error@,
{
    let mut text = "Sending test result failed: ".to_owned();
    text.append(error);
    text
}

/// How many pings succeeded among these events.
pub open spec fn successes(events: Seq<(SwarmEvent, Instant)>) -> nat
    decreases events.len(),
{
    if events.len() == 0 {
        0
    } else {
        successes(events.drop_last()) + if events.last().0 is PingSucceeded {
            1nat
        } else {
            0nat
        }
    }
}

/// The dialer after these events.
pub open spec fn dialer_after(dialer: Dialer, events: Seq<(SwarmEvent, Instant)>) -> Dialer
    decreases events.len(),
{
    if events.len() == 0 {
        dialer
    } else {
        dialer_step(
            dialer_after(dialer, events.drop_last()),
            events.last().0,
            events.last().1,
        ).0
    }
}

/// The listener after these events.
pub open spec fn listener_after(listener: Listener, events: Seq<(SwarmEvent, Instant)>) -> Listener
    decreases events.len(),
{
    if events.len() == 0 {
        listener
    } else {
        listener_step(
            listener_after(listener, events.drop_last()),
            events.last().0,
            events.last().1,
        ).0
    }
}

/// As long as a dialer's test runs it has counted the pings that succeeded, and nothing else; it
/// passes with the last one that is required and not before, however many failed in between.
pub proof fn law_dialer_counts_pings(
    start: Instant,
    events: Seq<(SwarmEvent, Instant)>,
    next: (SwarmEvent, Instant),
)
    requires
        successes(events) < PING_COUNT,
    ensures
        ({
            let dialer = dialer_after(
                Dialer { handshake_start: start, ping_count: 0, handshake_plus_first_rtt: None },
                events,
            );
            &&& dialer.ping_count == successes(events)
            &&& dialer_step(dialer, next.0, next.1).1 is Some <==> next.0 is PingSucceeded
                && successes(events) + 1 == PING_COUNT
        }),
    decreases events.len(),
{
    if events.len() > 0 {
        law_dialer_counts_pings(start, events.drop_last(), events.last());
    }
}

/// The time to the first ping is that of the first one that succeeded: later ones do not change it.
pub proof fn law_first_round_trip_is_kept(dialer: Dialer, event: SwarmEvent, now: Instant)
    requires
        dialer.inv(),
        dialer.handshake_plus_first_rtt is Some,
    ensures
        dialer_step(dialer, event, now).0.handshake_plus_first_rtt
            == dialer.handshake_plus_first_rtt,
{
}

/// As long as a listener's test runs it has counted the pings that succeeded, and nothing else; it
/// passes with the last one that is required and not before.
pub proof fn law_listener_counts_pings(
    events: Seq<(SwarmEvent, Instant)>,
    next: (SwarmEvent, Instant),
)
    requires
        successes(events) < PING_COUNT,
    ensures
        ({
            let listener = listener_after(
                Listener { handshake_start: None, ping_count: 0 },
                events,
            );
            &&& listener.ping_count == successes(events)
            &&& listener_step(listener, next.0, next.1).1 is Some <==> next.0 is PingSucceeded
                && successes(events) + 1 == PING_COUNT
        }),
    decreases events.len(),
{
    if events.len() > 0 {
        law_listener_counts_pings(events.drop_last(), events.last());
    }
}

/// The first ping that succeeded among these events is the one at `at`.
pub open spec fn is_first_success(events: Seq<(SwarmEvent, Instant)>, at: int) -> bool {
    &&& 0 <= at < events.len()
    &&& events[at].0 is PingSucceeded
    &&& forall|i: int| 0 <= i < at ==> !(#[trigger] events[i].0 is PingSucceeded)
}

/// The first connection was established by the event at `at`.
pub open spec fn is_first_connection(events: Seq<(SwarmEvent, Instant)>, at: int) -> bool {
    &&& 0 <= at < events.len()
    &&& events[at].0 is ConnectionEstablished
    &&& forall|i: int| 0 <= i < at ==> !(#[trigger] events[i].0 is ConnectionEstablished)
}

/// Without a ping that succeeded a dialer has measured nothing; with one it has measured the time
/// from the start to the first, in whole microseconds, and keeps that.
pub proof fn law_dialer_measures_the_first_round_trip(
    start: Instant,
    events: Seq<(SwarmEvent, Instant)>,
    at: int,
)
    ensures
        ({
            let dialer = dialer_after(
                Dialer { handshake_start: start, ping_count: 0, handshake_plus_first_rtt: None },
                events,
            );
            &&& dialer.handshake_start == start
            &&& (forall|i: int|
                0 <= i < events.len() ==> !(#[trigger] events[i].0 is PingSucceeded))
                ==> dialer.handshake_plus_first_rtt is None
            &&& is_first_success(events, at) ==> {
                &&& dialer.handshake_plus_first_rtt matches Some(micros)
                &&& start.nanos <= events[at].1.nanos ==> 1000 * micros <= events[at].1.nanos
                    - start.nanos < 1000 * (micros + 1)
                &&& start.nanos >= events[at].1.nanos ==> micros == 0
            }
        }),
    decreases events.len(),
{
    if events.len() > 0 {
        let earlier = events.drop_last();
        law_dialer_measures_the_first_round_trip(start, earlier, at);
        assert forall|i: int| 0 <= i < earlier.len() implies earlier[i] == events[i] by {}
        if is_first_success(events, at) {
            if at < earlier.len() {
                assert(is_first_success(earlier, at));
            } else {
                assert(forall|i: int|
                    0 <= i < earlier.len() ==> !(#[trigger] earlier[i].0 is PingSucceeded));
            }
        }
    }
}

/// A dialer passes with the last ping that is required, and reports the whole microseconds from the
/// start to the first ping that succeeded, and how long the last one took.
pub proof fn law_dialer_reports_what_it_measured(
    start: Instant,
    events: Seq<(SwarmEvent, Instant)>,
    rtt_micros: u64,
    now: Instant,
    at: int,
)
    requires
        successes(events) + 1 == PING_COUNT,
        is_first_success(events, at),
    ensures
        ({
            let dialer = dialer_after(
                Dialer { handshake_start: start, ping_count: 0, handshake_plus_first_rtt: None },
                events,
            );
            &&& dialer_step(dialer, SwarmEvent::PingSucceeded { rtt_micros }, now).1 matches Some(
                report,
            )
            &&& report.ping_rtt_micros == rtt_micros
            &&& start.nanos <= events[at].1.nanos ==> 1000 * report.handshake_plus_one_rtt_micros
                <= events[at].1.nanos - start.nanos < 1000 * (report.handshake_plus_one_rtt_micros
                + 1)
            &&& start.nanos >= events[at].1.nanos ==> report.handshake_plus_one_rtt_micros == 0
        }),
{
    law_dialer_counts_pings(start, events, (SwarmEvent::PingSucceeded { rtt_micros }, now));
    law_dialer_measures_the_first_round_trip(start, events, at);
}

/// A listener remembers when the first connection was established, and nothing before.
pub proof fn law_listener_remembers_the_first_connection(
    events: Seq<(SwarmEvent, Instant)>,
    at: int,
)
    ensures
        ({
            let listener = listener_after(
                Listener { handshake_start: None, ping_count: 0 },
                events,
            );
            &&& (forall|i: int|
                0 <= i < events.len() ==> !(#[trigger] events[i].0 is ConnectionEstablished))
                ==> listener.handshake_start is None
            &&& is_first_connection(events, at) ==> listener.handshake_start == Some(events[at].1)
        }),
    decreases events.len(),
{
    if events.len() > 0 {
        let earlier = events.drop_last();
        law_listener_remembers_the_first_connection(earlier, at);
        assert forall|i: int| 0 <= i < earlier.len() implies earlier[i] == events[i] by {}
        if is_first_connection(events, at) {
            if at < earlier.len() {
                assert(is_first_connection(earlier, at));
            } else {
                assert(forall|i: int|
                    0 <= i < earlier.len() ==> !(#[trigger] earlier[i].0 is ConnectionEstablished));
            }
        }
    }
}

/// A listener passes with the last ping that is required, and reports the whole microseconds from
/// the first connection to that ping, or nothing where there was no connection, and how long the
/// ping took.
pub proof fn law_listener_reports_what_it_measured(
    events: Seq<(SwarmEvent, Instant)>,
    rtt_micros: u64,
    now: Instant,
    at: int,
)
    requires
        successes(events) + 1 == PING_COUNT,
    ensures
        ({
            let listener = listener_after(
                Listener { handshake_start: None, ping_count: 0 },
                events,
            );
            &&& listener_step(listener, SwarmEvent::PingSucceeded { rtt_micros }, now).1 matches Some(
                report,
            )
            &&& report.ping_rtt_micros == rtt_micros
            &&& is_first_connection(events, at) && events[at].1.nanos <= now.nanos ==> 1000
                * report.handshake_plus_one_rtt_micros <= now.nanos - events[at].1.nanos < 1000 * (
            report.handshake_plus_one_rtt_micros + 1)
            &&& is_first_connection(events, at) && events[at].1.nanos >= now.nanos
                ==> report.handshake_plus_one_rtt_micros == 0
            &&& (forall|i: int|
                0 <= i < events.len() ==> !(#[trigger] events[i].0 is ConnectionEstablished))
                ==> report.handshake_plus_one_rtt_micros == 0
        }),
{
    law_listener_counts_pings(events, (SwarmEvent::PingSucceeded { rtt_micros }, now));
    law_listener_remembers_the_first_connection(events, at);
}

/// Whatever state a test is in: a report that is given with the last ping measures the time since
/// the handshake started in whole microseconds, where that is measured by this ping, and every
/// event but a ping that succeeded and, at a listener, a connection leaves the test as it is.
pub proof fn law_reports_measure_the_time(
    dialer: Dialer,
    listener: Listener,
    event: SwarmEvent,
    now: Instant,
)
    requires
        dialer.inv(),
        listener.inv(),
    ensures
        !(event is PingSucceeded) ==> dialer_step(dialer, event, now) == (dialer, None::<Report>),
        !(event is PingSucceeded) && !(event is ConnectionEstablished) ==> listener_step(
            listener,
            event,
            now,
        ) == (listener, None::<Report>),
        dialer_step(dialer, event, now).1 matches Some(report) ==> {
            let micros = report.handshake_plus_one_rtt_micros;
            let start = dialer.handshake_start;
            match dialer.handshake_plus_first_rtt {
                Some(first) => micros == first,
                None => if start.nanos <= now.nanos {
                    1000 * micros <= now.nanos - start.nanos < 1000 * (micros + 1)
                } else {
                    micros == 0
                },
            }
        },
        listener_step(listener, event, now).1 matches Some(report) ==> {
            let micros = report.handshake_plus_one_rtt_micros;
            match listener.handshake_start {
                Some(start) => if start.nanos <= now.nanos {
                    1000 * micros <= now.nanos - start.nanos < 1000 * (micros + 1)
                } else {
                    micros == 0
                },
                None => micros == 0,
            }
        },
{
}

/// The report that a dialer or a listener gives when it takes the last ping is of that ping and of
/// the time that it measured: where that is measured by this ping, in whole microseconds from the
/// start to now. Any other event but a ping that succeeded leaves a dialer as it is, and the end of
/// events fails the test on either side.
pub proof fn law_events_are_reported(
    dialer: &mut Dialer,
    listener: &mut Listener,
    event: SwarmEvent,
    now: Instant,
    dialed: TestStep,
    listened: TestStep,
)
    requires
        old(dialer).inv(),
        old(listener).inv(),
        call_ensures(Dialer::on_event, (dialer, event, now), dialed),
        call_ensures(Listener::on_event, (listener, event, now), listened),
    ensures
        dialed is Passed <==> event is PingSucceeded && old(dialer).ping_count + 1 == PING_COUNT,
        listened is Passed <==> event is PingSucceeded && old(listener).ping_count + 1
            == PING_COUNT,
        dialed is Failed <==> event is Ended,
        listened is Failed <==> event is Ended,
        event is PingSucceeded ==> final(dialer).ping_count == old(dialer).ping_count + 1
            && final(listener).ping_count == old(listener).ping_count + 1,
        !(event is PingSucceeded) ==> *final(dialer) == *old(dialer) && final(listener).ping_count
            == old(listener).ping_count,
        dialed matches TestStep::Passed(report) ==> {
            let start = old(dialer).handshake_start;
            let micros = report.handshake_plus_one_rtt_micros;
            &&& event == SwarmEvent::PingSucceeded { rtt_micros: report.ping_rtt_micros }
            &&& match old(dialer).handshake_plus_first_rtt {
                Some(first) => micros == first,
                None => if start.nanos <= now.nanos {
                    1000 * micros <= now.nanos - start.nanos < 1000 * (micros + 1)
                } else {
                    micros == 0
                },
            }
        },
        event is PingSucceeded && old(dialer).handshake_plus_first_rtt is None
            && old(dialer).handshake_start.nanos <= now.nanos ==> {
            &&& final(dialer).handshake_plus_first_rtt matches Some(micros)
            &&& 1000 * micros <= now.nanos - old(dialer).handshake_start.nanos < 1000 * (micros + 1)
        },
        listened matches TestStep::Passed(report) ==> {
            let micros = report.handshake_plus_one_rtt_micros;
            &&& event == SwarmEvent::PingSucceeded { rtt_micros: report.ping_rtt_micros }
            &&& match old(listener).handshake_start {
                Some(start) => if start.nanos <= now.nanos {
                    1000 * micros <= now.nanos - start.nanos < 1000 * (micros + 1)
                } else {
                    micros == 0
                },
                None => micros == 0,
            }
        },
        final(listener).handshake_start == (if event is ConnectionEstablished && old(
            listener,
        ).handshake_start is None {
            Some(now)
        } else {
            old(listener).handshake_start
        }),
{
}

/// The protocols of a test have the names that were asked for, and where none was asked for there is
/// none; each known name is understood, and the first that is not known, in the order of transport,
/// security protocol and multiplexer, is in the error.
pub proof fn law_names_are_understood(
    transport: &str,
    sec_protocol: Option<&str>,
    muxer: Option<&str>,
    r: Result<TestProtocols, ParseError>,
)
    requires
        call_ensures(parse_protocols, (transport, sec_protocol, muxer), r),
    ensures
        r matches Ok(protocols) ==> {
            &&& protocols.transport.name() == transport@
            &&& protocols.sec_protocol is Some == sec_protocol is Some
            &&& protocols.muxer is Some == muxer is Some
            &&& sec_protocol is Some ==> protocols.sec_protocol->0.name() == sec_protocol->0@
            &&& muxer is Some ==> protocols.muxer->0.name() == muxer->0@
        },
        is_transport(transport@) && (sec_protocol matches Some(name) ==> is_sec_protocol(name@)) && (
        muxer matches Some(name) ==> is_muxer(name@)) ==> r is Ok,
        r matches Err(e) ==> ends_with(
            e.cause@,
            if !is_transport(transport@) {
                transport@
            } else if sec_protocol is Some && !is_sec_protocol(sec_protocol->0@) {
                sec_protocol->0@
            } else {
                muxer->0@
            },
        ),
{
    if let Err(e) = r {
        if !is_transport(transport@) {
            lemma_ends("unknown transport "@, transport@);
        } else if sec_protocol is Some && !is_sec_protocol(sec_protocol->0@) {
            lemma_ends("unknown security protocol "@, sec_protocol->0@);
        } else {
            lemma_ends("unknown muxer "@, muxer->0@);
        }
    }
}

/// What is dialled is what the second entry of the list reads as; with fewer entries, or where that
/// is no multiaddress, nothing is.
pub proof fn law_the_second_entry_is_dialled(
    popped: &Vec<String>,
    found: Result<&String, &'static str>,
    dialled: Result<Multiaddr, NoDialAddress>,
)
    requires
        call_ensures(listener_address, (popped,), found),
        call_ensures(dial_address, (popped,), dialled),
    ensures
        found is Ok <==> popped@.len() >= 2,
        found matches Ok(address) ==> *address == popped@[1],
        dialled matches Ok(addr) ==> popped@.len() >= 2 && read_multiaddr(popped@[1]@) == Some(
            components(addr),
        ),
        popped@.len() >= 2 && read_multiaddr(popped@[1]@) is Some ==> dialled is Ok,
        popped@.len() < 2 ==> dialled == Err::<Multiaddr, NoDialAddress>(NoDialAddress::NoListener),
{
}

/// An address is told to the dialer, with the peer behind it, exactly where it is the listener's and
/// not a loopback one.
pub proof fn law_announcements_name_the_peer(
    address: &str,
    is_listener: bool,
    peer: &str,
    r: Option<String>,
)
    requires
        call_ensures(announcement, (address, is_listener, peer), r),
    ensures
        r is Some <==> is_listener && !occurs_in(address@, "127.0.0.1"@),
        r matches Some(text) ==> {
            &&& text@.len() == address@.len() + 5 + peer@.len()
            &&& text@.take(address@.len() as int) == address@
            &&& text@.subrange(address@.len() as int, address@.len() as int + 5) == "/p2p/"@
            &&& ends_with(text@, peer@)
        },
{
    reveal_strlit("/p2p/");
    if let Some(text) = r {
        assert(text@.take(address@.len() as int) =~= address@);
        assert(text@.subrange(address@.len() as int, address@.len() as int + 5) =~= "/p2p/"@);
        lemma_ends(address@ + "/p2p/"@, peer@);
    }
}

/// Only a test over this transport listens before anything else, and never one in a browser.
pub proof fn law_who_listens_first(transport: Transport, in_browser: bool, r: bool)
    requires
        call_ensures(listens_first, (transport, in_browser), r),
    ensures
        in_browser ==> !r,
        !in_browser ==> r == (transport == Transport::WebRtcDirect),
{
}

/// A new test starts its clock, where it dials, and has counted nothing.
pub proof fn law_new_tests_have_counted_nothing(now: Instant, dialer: Dialer, listener: Listener)
    requires
        call_ensures(Dialer::new, (now,), dialer),
        call_ensures(Listener::new, (), listener),
    ensures
        dialer.handshake_start == now,
        dialer.ping_count == 0,
        dialer.handshake_plus_first_rtt is None,
        listener.ping_count == 0,
        listener.handshake_start is None,
{
}

/// Results go to a page of the host that was given, and a failure to send them says what it was
/// told.
pub proof fn law_results_go_to_the_host(
    base_url: &str,
    url: String,
    error: &str,
    text: String,
)
    requires
        call_ensures(results_url, (base_url,), url),
        call_ensures(sending_failed, (error,), text),
    ensures
        url@.len() == 7 + base_url@.len() + 8,
        url@.take(7) == "http://"@,
        url@.subrange(7, 7 + base_url@.len() as int) == base_url@,
        ends_with(url@, "/results"@),
        ends_with(text@, error@),
{
    reveal_strlit("http://");
    reveal_strlit("/results");
    assert(url@.take(7) =~= "http://"@);
    assert(url@.subrange(7, 7 + base_url@.len() as int) =~= base_url@);
    lemma_ends("http://"@ + base_url@, "/results"@);
    lemma_ends("Sending test result failed: "@, error@);
}

} // verus!
