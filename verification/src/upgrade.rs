//! Upgrades new connections with Noise Protocol.
use libp2p_identity::PeerId;
use str0m::change::DtlsCert;
use vstd::prelude::*;

use crate::certificate::dtls_digest;
use crate::channel::{ChannelId, RtcDataChannelState};
use crate::connection::{
    acts, required_acts, Act, Action, Connection, HandshakeState, Open, OpenConfig, Opening,
    OpeningEvent, Progress, RtcOutput,
};
use crate::error::Error;
use crate::fingerprint::Fingerprint;
use crate::net::SocketAddr;
use crate::rtc::{
    can_elapse, can_receive, full_address, unusable, Polled, Received, RtcStack, StackOutput,
};
use crate::rtc_client::{ChannelConfig, IceCreds, RtcClient};
use crate::stun::{
    check_datagram, decodable, is_dtls, is_media, looks_like_stun, recognised, rejection, stun_message,
    stun_rejection,
};
use crate::stream::Stream;
use crate::time::{Clock, Instant};
use crate::udp_manager::{InputStep, OpeningConnection, UDPManager};

verus! {

/// What the user name of an outbound connection starts with.
pub const UFRAG_PREFIX: &'static str = "libp2p+webrtc+v1/";

/// How many random characters follow the prefix.
pub const UFRAG_RANDOM_LEN: usize = 64;

/// The stream of the channel for the Noise handshake, which both sides know.
pub const NOISE_STREAM: u16 = 0;

/// The number that the channel for the Noise handshake has on this side.
pub const NOISE_CHANNEL: ChannelId = 0;

/// A new remote that wants to connect, with what it sent to open the connection.
#[derive(Debug, PartialEq, Eq)]
pub struct NewRemoteAddress {
    /// Where the remote is.
    pub addr: SocketAddr,
    /// The first half of the user name in its STUN message.
    pub ufrag: String,
    /// The STUN message.
    pub contents: Vec<u8>,
}

/// Who opens a connection.
#[derive(Clone, Copy, Debug, PartialEq, Eq, Structural)]
pub enum Direction {
    /// The remote does.
    Inbound,
    /// This side does.
    Outbound,
}

/// How an upgrade goes on after the opening connection made progress.
#[derive(Clone, Copy, Debug, PartialEq, Eq)]
pub enum UpgradeStep {
    /// Poll the connection again.
    Poll,
    /// Hand the remote's STUN message to the connection's WebRTC stack again, then poll.
    FeedAgain,
    /// Start the Noise handshake with the remote whose certificate this is.
    Handshake { remote_fingerprint: Fingerprint },
}

/// What came of handing the remote's message to the WebRTC stack.
#[derive(Clone, Copy, Debug, PartialEq, Eq, Structural)]
pub enum Feeding {
    /// The stack took it.
    Done,
    /// It is DTLS, which is to be handed over to the stack.
    HandOver,
}

/// The fingerprints that go into a Noise handshake.
#[derive(Clone, Copy, Debug, PartialEq, Eq)]
pub struct NoiseFingerprints {
    pub client: Fingerprint,
    pub server: Fingerprint,
}

/// `c` is an ASCII letter or digit.
pub open spec fn alphanumeric(c: char) -> bool {
    'a' <= c <= 'z' || 'A' <= c <= 'Z' || '0' <= c <= '9'
}

/// A user name for an outbound connection: the prefix, then random letters and digits.
pub open spec fn is_ufrag(ufrag: Seq<char>) -> bool {
    exists|random: Seq<char>| #[trigger]
        (UFRAG_PREFIX@ + random) == ufrag && random.len() == UFRAG_RANDOM_LEN && forall|i: int|
            0 <= i < random.len() ==> alphanumeric(#[trigger] random[i])
}

/// `random_ufrag` of `libp2p_webrtc_utils`: the prefix and 64 letters and digits, which are a
/// matter of chance.
#[verifier::external_body]
fn random_ufrag() -> (r: String)
    ensures
        is_ufrag(r@),
{
    libp2p_webrtc_utils::sdp::random_ufrag()
}

/// This is the channel for the Noise handshake.
pub open spec fn is_noise_channel(
    channel: Option<ChannelConfig>,
    label: Seq<char>,
    protocol: Seq<char>,
) -> bool {
    channel matches Some(c) && c.label@ == label && c.protocol@ == protocol && !c.ordered
        && c.negotiated == Some(NOISE_STREAM)
}

/// Create RTC client and open channel for Noise handshake.
pub fn make_rtc_client(
    ufrag: &str,
    pass: &str,
    source: SocketAddr,
    destination: SocketAddr,
) -> (r: RtcClient)
    ensures
        r.answers(ufrag@, pass@, source, destination),
        is_noise_channel(r.noise_channel, "noise"@, ""@),
{
    let channel = ChannelConfig {
        label: "noise".to_owned(),
        ordered: false,
        negotiated: Some(NOISE_STREAM),
        protocol: "".to_owned(),
    };
    RtcClient::answering(ufrag, pass, source, destination, Some(channel))
}

/// A WebRTC stack that calls `destination` from `source`: it expects the certificate with this
/// digest, knows no credentials of the remote yet, and is in the lead.
pub open spec fn calls(
    client: RtcClient,
    ufrag: Seq<char>,
    remote_digest: Seq<u8>,
    source: SocketAddr,
    destination: SocketAddr,
) -> bool {
    &&& client.ice_lite
    &&& !client.fingerprint_verification
    &&& client.local_candidate == source
    &&& client.remote_candidate == destination
    &&& client.remote_fingerprint@ == remote_digest
    &&& client.remote_credentials is None
    &&& client.local_credentials.are(ufrag, ufrag)
    &&& client.ice_controlling
    &&& !client.dtls_active
    &&& !client.sctp_client
    &&& is_noise_channel(client.noise_channel, ""@, "noise"@)
}

/// Make an Rtc client for an outbound connection, given its user name.
pub fn outbound_rtc_client_with(
    ufrag: &str,
    remote_fingerprint: Fingerprint,
    source: SocketAddr,
    destination: SocketAddr,
) -> (r: RtcClient)
    ensures
        calls(r, ufrag@, remote_fingerprint@, source, destination),
{
    RtcClient {
        ice_lite: true,
        fingerprint_verification: false,
        // We are the source, they are the destination since we are going outbound
        local_candidate: source,
        remote_candidate: destination,
        remote_fingerprint,
        // We are dialing outbound, so we do not yet have remote ICE credentials
        remote_credentials: None,
        // NOTE: ufrag is equal to pwd.
        local_credentials: IceCreds::new(ufrag, ufrag),
        ice_controlling: true,
        dtls_active: false,
        sctp_client: false,
        noise_channel: Some(
            ChannelConfig {
                label: "".to_owned(),
                ordered: false,
                negotiated: Some(NOISE_STREAM),
                protocol: "noise".to_owned(),
            },
        ),
    }
}

/// Make an Rtc client for an outbound connection.
/// Given: remote_fingerprint, source and destination SocketAddr
/// Set:
/// - negotiated is true
/// - protocol is "noise"
/// - label is ""
/// - ufrag is random
pub fn outbound_rtc_client(
    remote_fingerprint: Fingerprint,
    source: SocketAddr,
    destination: SocketAddr,
) -> (r: RtcClient)
    ensures
        is_ufrag(r.local_credentials.ufrag@),
        calls(r, r.local_credentials.ufrag@, remote_fingerprint@, source, destination),
{
    let ufrag = random_ufrag();
    outbound_rtc_client_with(ufrag.as_str(), remote_fingerprint, source, destination)
}

/// An upgrade that has started.
pub struct Started {
    /// The WebRTC stack of the connection.
    pub rtc: RtcStack,
    /// The connection, which is opening.
    pub connection: Connection<Opening>,
    /// The stream for the Noise handshake.
    pub stream: Stream,
}

impl Started {
    /// The upgrade starts with a stack that works and is set up for `client`, and with a connection
    /// between these endpoints that has a stream for the Noise handshake.
    pub open spec fn starts(
        &self,
        client: RtcClient,
        digest: Seq<u8>,
        local: SocketAddr,
        peer: SocketAddr,
    ) -> bool {
        &&& self.rtc.serves(client, digest)
        &&& self.connection.stage.state is Closed
        &&& self.connection.local_address == local
        &&& self.connection.peer_address.0 == peer
        &&& self.connection.channel_details@.dom() == set![0u64]
        &&& self.stream.channel_id() == 0
        &&& self.stream.fresh()
    }
}

/// Sets up the WebRTC stack and the connection of an upgrade.
fn start(
    client: &RtcClient,
    cert: DtlsCert,
    clock: Clock,
    local: SocketAddr,
    peer: SocketAddr,
) -> (r: Result<Started, Error>)
    requires
        client.ice_lite,
        client.local_candidate.ip.candidate(),
        client.remote_candidate.ip.candidate(),
        !client.dtls_active,
        !client.sctp_client,
        client.noise_channel is Some,
    ensures
        r matches Ok(started) && started.starts(*client, dtls_digest(cert), local, peer)
            && started.rtc.clock() == clock,
{
    let (rtc, channel) = RtcStack::set_up(client, cert, clock);
    // New Opening Connection
    let mut connection = Connection::new(local, peer);
    match channel {
        None => Err(Error::StreamCreationFailed),
        Some(id) => match connection.new_stream_from_data_channel_id(id) {
            Err(_) => Err(Error::StreamCreationFailed),
            Ok(new) => {
                assert(connection.channel_details@.dom() =~= set![0u64]);
                Ok(Started { rtc, connection, stream: new.stream })
            },
        },
    }
}

/// Starts the upgrade of a new inbound WebRTC connection with Noise Protocol: the WebRTC stack is
/// set up and entered in the manager with its connection, so that what the remote sends reaches it. It
/// is then to be handed what the remote sent first. Returns the stream for the Noise handshake.
pub fn inbound<Tx>(
    manager: &mut UDPManager<Tx>,
    remote: &NewRemoteAddress,
    destination: SocketAddr,
    cert: DtlsCert,
) -> (r: Result<Stream, Error>)
    requires
        old(manager).inv(),
        looks_like_stun(remote.contents@) ==> decodable(remote.contents@),
        remote.addr.ip.candidate(),
        destination.ip.candidate(),
    ensures
        final(manager).inv(),
        match r {
            Ok(stream) => {
                let opening = final(manager).opening@[remote.addr];
                let started = Started { rtc: opening.rtc, connection: opening.connection, stream };
                &&& recognised(remote.contents@, stun_message(remote.contents@) is Some)
                &&& final(manager).same_but_opening(old(manager))
                &&& final(manager).opening@ == old(manager).opening@.insert(remote.addr, opening)
                &&& opening.rtc.clock() == old(manager).clock
                &&& exists|client: RtcClient| #[trigger]
                    started.starts(client, dtls_digest(cert), destination, remote.addr)
                        && client.answers(
                        remote.ufrag@,
                        remote.ufrag@,
                        remote.addr,
                        destination,
                    ) && is_noise_channel(client.noise_channel, "noise"@, ""@)
            },
            Err(e) => {
                &&& *final(manager) == *old(manager)
                &&& !recognised(remote.contents@, stun_message(remote.contents@) is Some)
                &&& e matches Error::Net(text)
                &&& text@ == rejection(remote.contents@, stun_rejection(remote.contents@))
            },
        },
{
    match check_datagram(remote.contents.as_slice()) {
        Err(e) => Err(e),
        Ok(()) => {
            // Create new `Rtc` object for this source
            let client = make_rtc_client(
                remote.ufrag.as_str(),
                remote.ufrag.as_str(),
                remote.addr,
                destination,
            );
            match start(&client, cert, manager.clock, destination, remote.addr) {
                Err(e) => Err(e),
                Ok(started) => {
                    let ghost begun = started;
                    let Started { rtc, connection, stream } = started;
                    // A relay to this new connection needs to be added to the manager
                    manager.register_opening(connection, rtc);
                    assert(begun.starts(client, dtls_digest(cert), destination, remote.addr));
                    Ok(stream)
                },
            }
        },
    }
}

/// Starts the upgrade of an outbound WebRTC connection with Noise Protocol, from `source`.
pub fn outbound(
    source: SocketAddr,
    destination: SocketAddr,
    remote_fingerprint: Fingerprint,
    cert: DtlsCert,
    clock: Clock,
) -> (r: Result<Started, Error>)
    requires
        source.ip.candidate(),
        destination.ip.candidate(),
    ensures
        r matches Ok(started) && started.rtc.clock() == clock && exists|client: RtcClient|
            #[trigger]
            started.starts(client, dtls_digest(cert), source, destination) && is_ufrag(
                client.local_credentials.ufrag@,
            ) && calls(
                client,
                client.local_credentials.ufrag@,
                remote_fingerprint@,
                source,
                destination,
            ),
{
    let client = outbound_rtc_client(remote_fingerprint, source, destination);
    start(&client, cert, clock, source, destination)
}

/// What follows once the WebRTC stack was handed the remote's message.
///
/// A message that the stack would not survive is invalid.
pub fn on_fed(received: Received) -> (r: Result<Feeding, Error>)
    ensures
        match received {
            Received::Taken => r == Ok::<Feeding, Error>(Feeding::Done),
            Received::HandOver => r == Ok::<Feeding, Error>(Feeding::HandOver),
            Received::Rejected(text) => r == Err::<Feeding, Error>(Error::Net(text)),
            Received::Unusable => r == Err::<Feeding, Error>(Error::InvalidData),
            Received::Failed(text) => r == Err::<Feeding, Error>(Error::WebRtc(text)),
        },
{
    match received {
        Received::Taken => Ok(Feeding::Done),
        Received::HandOver => Ok(Feeding::HandOver),
        Received::Rejected(text) => Err(Error::Net(text)),
        Received::Unusable => Err(Error::InvalidData),
        Received::Failed(text) => Err(Error::WebRtc(text)),
    }
}

/// What the remote sent was handed to the WebRTC stack `before`, which is `after` then, unless it is
/// DTLS, which is to be handed over.
pub open spec fn fed(
    remote: NewRemoteAddress,
    destination: SocketAddr,
    before: RtcStack,
    after: RtcStack,
    r: Result<Feeding, Error>,
) -> bool {
    let contents = remote.contents@;
    let known = recognised(contents, stun_message(contents) is Some);
    &&& after.same_numbers(&before)
    &&& match r {
        Ok(Feeding::Done) => {
            &&& !unusable(contents)
            &&& known
            &&& !is_dtls(contents)
            &&& before.receives(remote.addr, destination, contents, &after, None)
        },
        Ok(Feeding::HandOver) => !unusable(contents) && is_dtls(contents) && after == before,
        Err(Error::InvalidData) => unusable(contents) && after == before,
        Err(Error::Net(text)) => {
            &&& !unusable(contents)
            &&& !known
            &&& text@ == rejection(contents, stun_rejection(contents))
            &&& after == before
        },
        Err(Error::WebRtc(text)) => {
            &&& !unusable(contents)
            &&& known
            &&& !is_dtls(contents)
            &&& before.receives(remote.addr, destination, contents, &after, Some(text@))
        },
        Err(_) => false,
    }
}

/// Hands what the remote sent to the WebRTC stack of its connection, unless it is DTLS, which is to
/// be handed over.
pub fn feed(remote: &NewRemoteAddress, destination: SocketAddr, rtc: &mut RtcStack) -> (r: Result<
    Feeding,
    Error,
>)
    requires
        old(rtc).inv(),
    ensures
        final(rtc).inv(),
        fed(*remote, destination, *old(rtc), *final(rtc), r),
{
    on_fed(rtc.receive(remote.addr, destination, remote.contents.as_slice()))
}

/// How an upgrade goes on after the opening connection reported this. A connection that closes ends
/// the upgrade. While an inbound connection waits, it is handed the remote's message again.
pub open spec fn upgrade_step(direction: Direction, event: OpeningEvent) -> Result<
    UpgradeStep,
    Error,
> {
    match event {
        OpeningEvent::Nothing => Ok(UpgradeStep::Poll),
        OpeningEvent::Timeout { .. } => Ok(
            if direction is Inbound {
                UpgradeStep::FeedAgain
            } else {
                UpgradeStep::Poll
            },
        ),
        OpeningEvent::ConnectionOpened { remote_fingerprint } => Ok(
            UpgradeStep::Handshake { remote_fingerprint },
        ),
        OpeningEvent::ConnectionClosed => Err(Error::Disconnected),
    }
}

/// What follows when the connection of an upgrade is in this state, and would otherwise go on like
/// this: a connection that is open starts the handshake, whoever polled it when it came up.
pub open spec fn step_in(state: HandshakeState, step: Result<UpgradeStep, Error>) -> Result<
    UpgradeStep,
    Error,
> {
    match (step, state) {
        (Ok(_), HandshakeState::Opened { remote_fingerprint }) => Ok(
            UpgradeStep::Handshake { remote_fingerprint },
        ),
        _ => step,
    }
}

/// What follows, and what is to be done, once the connection of an upgrade made this progress, or
/// none for want of the remote's certificate, and is in this state.
pub open spec fn is_upgrade_poll(
    direction: Direction,
    progress: Option<Progress<OpeningEvent>>,
    state: HandshakeState,
    r: (Result<UpgradeStep, Error>, Vec<Action>),
) -> bool {
    match progress {
        Some(progress) => r.0 == step_in(state, upgrade_step(direction, progress.output)) && r.1
            == progress.actions,
        None => r.0 == Err::<UpgradeStep, Error>(Error::DtlsCert) && r.1@.len() == 0,
    }
}

/// Goes on with the connection of an upgrade, by one output of its WebRTC stack: what follows, and
/// what is to be done for the connection. One whose WebRTC stack no longer works is disconnected; one
/// that came up without the remote's certificate fails for want of it.
pub fn poll(
    direction: Direction,
    connection: &mut Connection<Opening>,
    rtc: &mut RtcStack,
    output: StackOutput,
) -> (r: (Result<UpgradeStep, Error>, Vec<Action>))
    requires
        old(rtc).inv(),
    ensures
        final(rtc).inv(),
        final(rtc).remote() == old(rtc).remote(),
        exists|progress: Option<Progress<OpeningEvent>>| #[trigger]
            old(connection).progresses(
                *old(rtc),
                output,
                *final(rtc),
                *final(connection),
                progress,
            ) && is_upgrade_poll(direction, progress, final(connection).stage.state, r),
        !old(rtc).alive() ==> r.0 == Err::<UpgradeStep, Error>(Error::Disconnected),
        r.0 matches Ok(UpgradeStep::Handshake { remote_fingerprint })
            ==> final(connection).stage.state == (HandshakeState::Opened { remote_fingerprint }),
        *final(connection) == (Connection { stage: final(connection).stage, ..*old(connection) }),
{
    let progress = connection.poll_progress(rtc, output);
    let ghost made = progress;
    let r = match progress {
        None => (Err(Error::DtlsCert), Vec::new()),
        Some(progress) => {
            let Progress { output, actions } = progress;
            let step = match (on_opening_event(direction, output), connection.stage.state) {
                (Ok(_), HandshakeState::Opened { remote_fingerprint }) => Ok(
                    UpgradeStep::Handshake { remote_fingerprint },
                ),
                (step, _) => step,
            };
            (step, actions)
        },
    };
    assert(is_upgrade_poll(direction, made, connection.stage.state, r));
    r
}

/// This is the connection of an upgrade: it has the channel for the Noise handshake.
pub open spec fn is_upgrading(connection: Connection<Opening>) -> bool {
    connection.channel_details@.dom().contains(NOISE_CHANNEL)
}

/// The manager has the connection of an upgrade from `source`.
pub open spec fn upgrades<Tx>(manager: UDPManager<Tx>, source: SocketAddr) -> bool {
    manager.opening@.dom().contains(source) && is_upgrading(manager.opening@[source].connection)
}

/// The connection of an inbound upgrade from `source`, with its WebRTC stack, where the manager still
/// has it: it is gone once it was closed, or replaced by a new one from there.
pub fn upgrading<Tx>(manager: &mut UDPManager<Tx>, source: SocketAddr) -> (r: Option<
    &mut OpeningConnection,
>)
    requires
        old(manager).inv(),
    ensures
        match r {
            None => !upgrades(*old(manager), source) && *final(manager) == *old(manager),
            Some(opening) => {
                &&& upgrades(*old(manager), source)
                &&& *opening == old(manager).opening@[source]
                &&& final(manager).same_but_opening(old(manager))
                &&& final(manager).opening@ == old(manager).opening@.insert(
                    source,
                    *final(opening),
                )
                &&& final(opening).rtc.inv() ==> final(manager).inv()
            },
        },
{
    let present = match manager.opening.get(source) {
        Some(opening) => opening.connection.channel_details.contains(NOISE_CHANNEL),
        None => false,
    };
    if present {
        manager.opening_mut(source)
    } else {
        None
    }
}

/// Hands what the remote sent first to the WebRTC stack of its upgrade, in the manager, unless it is
/// DTLS, which is to be handed over. An upgrade whose connection is gone is disconnected.
pub fn feed_inbound<Tx>(
    manager: &mut UDPManager<Tx>,
    remote: &NewRemoteAddress,
    destination: SocketAddr,
) -> (r: Result<Feeding, Error>)
    requires
        old(manager).inv(),
    ensures
        final(manager).inv(),
        if upgrades(*old(manager), remote.addr) {
            let before = old(manager).opening@[remote.addr];
            let after = final(manager).opening@[remote.addr];
            &&& final(manager).same_but_opening(old(manager))
            &&& final(manager).opening@ == old(manager).opening@.insert(remote.addr, after)
            &&& after.connection == before.connection
            &&& fed(*remote, destination, before.rtc, after.rtc, r)
        } else {
            r == Err::<Feeding, Error>(Error::Disconnected) && *final(manager) == *old(manager)
        },
{
    match upgrading(manager, remote.addr) {
        None => Err(Error::Disconnected),
        Some(opening) => feed(remote, destination, &mut opening.rtc),
    }
}

/// Goes on with an inbound upgrade, by one output of its WebRTC stack, in the manager. An upgrade
/// whose connection is gone is disconnected.
pub fn poll_inbound<Tx>(manager: &mut UDPManager<Tx>, source: SocketAddr, output: StackOutput) -> (r:
    (Result<UpgradeStep, Error>, Vec<Action>))
    requires
        old(manager).inv(),
    ensures
        final(manager).inv(),
        if upgrades(*old(manager), source) {
            let before = old(manager).opening@[source];
            let after = final(manager).opening@[source];
            &&& final(manager).same_but_opening(old(manager))
            &&& final(manager).opening@ == old(manager).opening@.insert(source, after)
            &&& upgrades(*final(manager), source)
            &&& after.connection == (Connection {
                stage: after.connection.stage,
                ..before.connection
            })
            &&& exists|progress: Option<Progress<OpeningEvent>>| #[trigger]
                before.connection.progresses(
                    before.rtc,
                    output,
                    after.rtc,
                    after.connection,
                    progress,
                ) && is_upgrade_poll(
                    Direction::Inbound,
                    progress,
                    after.connection.stage.state,
                    r,
                )
            &&& !before.rtc.alive() ==> r.0 == Err::<UpgradeStep, Error>(Error::Disconnected)
            &&& r.0 matches Ok(UpgradeStep::Handshake { remote_fingerprint })
                ==> after.connection.stage.state == (HandshakeState::Opened { remote_fingerprint })
        } else {
            &&& r.0 == Err::<UpgradeStep, Error>(Error::Disconnected)
            &&& r.1@.len() == 0
            &&& *final(manager) == *old(manager)
        },
{
    match upgrading(manager, source) {
        None => (Err(Error::Disconnected), Vec::new()),
        Some(opening) => poll(
            Direction::Inbound,
            &mut opening.connection,
            &mut opening.rtc,
            output,
        ),
    }
}

/// Takes the connection of an inbound upgrade out of the manager, to open it with the peer that the
/// handshake authenticated. An upgrade whose connection is gone is disconnected.
pub fn open_inbound<Tx>(
    manager: &mut UDPManager<Tx>,
    source: SocketAddr,
    config: OpenConfig,
) -> (r: Result<(Connection<Open>, RtcStack), Error>)
    requires
        old(manager).inv(),
    ensures
        final(manager).inv(),
        if upgrades(*old(manager), source) {
            let before = old(manager).opening@[source];
            &&& r matches Ok((connection, rtc))
            &&& rtc == before.rtc
            &&& rtc.inv()
            &&& connection == (Connection {
                stage: Open { peer: config.peer_id },
                channel_details: before.connection.channel_details,
                peer_address: before.connection.peer_address,
                local_address: before.connection.local_address,
                drop_listeners: before.connection.drop_listeners,
                no_drop_listeners_waker: before.connection.no_drop_listeners_waker,
            })
            &&& final(manager).opening@ == old(manager).opening@.remove(source)
            &&& final(manager).timeouts@ == old(manager).timeouts@.remove(source)
            &&& final(manager).open == old(manager).open
            &&& final(manager).listen_addr == old(manager).listen_addr
            &&& final(manager).dtls_cert == old(manager).dtls_cert
            &&& final(manager).clock == old(manager).clock
        } else {
            r == Err::<(Connection<Open>, RtcStack), Error>(Error::Disconnected) && *final(manager)
                == *old(manager)
        },
{
    if upgrading(manager, source).is_none() {
        return Err(Error::Disconnected);
    }
    match manager.take_opening(source) {
        None => Err(Error::Disconnected),
        Some(OpeningConnection { connection, rtc }) => Ok((connection.open(config), rtc)),
    }
}

/// What follows once the opening connection made progress.
pub fn on_opening_event(direction: Direction, event: OpeningEvent) -> (r: Result<
    UpgradeStep,
    Error,
>)
    ensures
        r == upgrade_step(direction, event),
{
    match event {
        OpeningEvent::Nothing => Ok(UpgradeStep::Poll),
        OpeningEvent::Timeout { .. } => match direction {
            Direction::Inbound => Ok(UpgradeStep::FeedAgain),
            Direction::Outbound => Ok(UpgradeStep::Poll),
        },
        OpeningEvent::ConnectionOpened { remote_fingerprint } => Ok(
            UpgradeStep::Handshake { remote_fingerprint },
        ),
        OpeningEvent::ConnectionClosed => Err(Error::Disconnected),
    }
}

/// The fingerprints for the Noise handshake: whoever opens the connection is the client.
pub open spec fn handshake_fingerprints(
    direction: Direction,
    own: Fingerprint,
    remote: Fingerprint,
) -> NoiseFingerprints {
    match direction {
        Direction::Inbound => NoiseFingerprints { client: remote, server: own },
        Direction::Outbound => NoiseFingerprints { client: own, server: remote },
    }
}

/// The fingerprints for the Noise handshake, given those of both sides' certificates.
pub fn noise_fingerprints(direction: Direction, own: Fingerprint, remote: Fingerprint) -> (r:
    NoiseFingerprints)
    ensures
        r == handshake_fingerprints(direction, own, remote),
{
    match direction {
        Direction::Inbound => NoiseFingerprints { client: remote, server: own },
        Direction::Outbound => NoiseFingerprints { client: own, server: remote },
    }
}

/// What follows once the Noise handshake is over: the connection opens with the peer that it
/// authenticated.
pub fn on_handshake(peer: Option<PeerId>) -> (r: Result<OpenConfig, Error>)
    ensures
        r == (match peer {
            Some(peer_id) => Ok::<OpenConfig, Error>(OpenConfig { peer_id }),
            None => Err::<OpenConfig, Error>(Error::NoiseHandshakeFailed),
        }),
{
    match peer {
        Some(peer_id) => Ok(OpenConfig { peer_id }),
        None => Err(Error::NoiseHandshakeFailed),
    }
}

/// Ends the upgrade: the open connection gets the datagrams that come from its peer, through the
/// sender that its event loop handed out. Without one the upgrade fails.
pub fn on_ready<Tx>(
    manager: &mut UDPManager<Tx>,
    connection: &Connection<Open>,
    tx: Option<Tx>,
) -> (r: Result<(), Error>)
    requires
        old(manager).inv(),
    ensures
        final(manager).inv(),
        final(manager).opening == old(manager).opening,
        final(manager).timeouts == old(manager).timeouts,
        final(manager).listen_addr == old(manager).listen_addr,
        final(manager).dtls_cert == old(manager).dtls_cert,
        final(manager).clock == old(manager).clock,
        match tx {
            Some(tx) => {
                &&& r is Ok
                &&& final(manager).open@ == old(manager).open@.insert(
                    connection.peer_address.0,
                    crate::udp_manager::ConnectionContext { tx },
                )
            },
            None => r == Err::<(), Error>(Error::Receive) && *final(manager) == *old(manager),
        },
{
    match tx {
        Some(tx) => {
            manager.register_open(connection.peer_address.addr(), tx);
            Ok(())
        },
        None => Err(Error::Receive),
    }
}

/// Both sides of a connection put the same fingerprints into the Noise handshake, each in the same
/// place.
pub proof fn law_noise_fingerprints_agree(caller: Fingerprint, listener: Fingerprint)
    ensures
        handshake_fingerprints(Direction::Outbound, caller, listener) == handshake_fingerprints(
            Direction::Inbound,
            listener,
            caller,
        ),
{
}

/// Datagrams from a dialled peer reach the dialled connection: once the upgrade that started for it
/// is over, the manager relays to the connection's sender whatever comes from where was dialled. The
/// same holds of a remote that dialled.
pub proof fn law_peers_are_heard<Tx>(
    started: Started,
    client: RtcClient,
    digest: Seq<u8>,
    local: SocketAddr,
    peer: SocketAddr,
    connection: Connection<Open>,
    before: UDPManager<Tx>,
    tx: Tx,
    ready: UDPManager<Tx>,
    datagram: Seq<u8>,
    kind: crate::stun::Kind,
    after: UDPManager<Tx>,
    r: Result<InputStep, Error>,
)
    requires
        started.starts(client, digest, local, peer),
        connection.peer_address == started.connection.peer_address,
        ready.open@ == before.open@.insert(
            connection.peer_address.0,
            crate::udp_manager::ConnectionContext { tx },
        ),
        ready.handled(peer, datagram, kind, &after, r),
    ensures
        r == Ok::<InputStep, Error>(InputStep::Relay),
        after == ready,
        ready.open@[peer].tx == tx,
{
}

/// While an inbound connection is upgraded, the remote is heard: what it sends, but for STUN, is
/// offered to the very stack that the upgrade set up, as coming from where the remote is.
pub proof fn law_remotes_are_heard_while_upgraded<Tx>(
    started: Started,
    client: RtcClient,
    digest: Seq<u8>,
    local: SocketAddr,
    remote: SocketAddr,
    manager: UDPManager<Tx>,
    datagram: Seq<u8>,
    after: UDPManager<Tx>,
    r: Result<InputStep, Error>,
)
    requires
        started.starts(client, digest, local, remote),
        manager.opening@.dom().contains(remote),
        manager.opening@[remote] == (OpeningConnection {
            connection: started.connection,
            rtc: started.rtc,
        }),
        !manager.open@.dom().contains(remote),
        datagram.len() <= crate::udp_manager::RECEIVE_MTU,
        manager.handled(remote, datagram, crate::stun::Kind::NotStun, &after, r),
    ensures
        upgrades(manager, remote),
        upgrades(after, remote),
        manager.offered(remote, datagram, &after, r),
        after.opening@[remote].connection == started.connection,
        !started.rtc.wants(remote, local, datagram) ==> r == Err::<InputStep, Error>(
            Error::InputRejected,
        ) && after.opening@[remote].rtc == started.rtc,
        started.rtc.wants(remote, local, datagram) && is_dtls(datagram) ==> r == Ok::<
            InputStep,
            Error,
        >(InputStep::HandOver) && after.opening@[remote].rtc == started.rtc,
        started.rtc.wants(remote, local, datagram) && !is_dtls(datagram) && r is Ok
            ==> started.rtc.receives(remote, local, datagram, &after.opening@[remote].rtc, None),
{
}

/// Both sides of a connection use the same channel for the Noise handshake, and it delivers out of
/// order on either.
pub proof fn law_noise_channels_agree(
    answering: RtcClient,
    calling: RtcClient,
    ufrag: Seq<char>,
    remote_digest: Seq<u8>,
    source: SocketAddr,
    destination: SocketAddr,
)
    requires
        is_noise_channel(answering.noise_channel, "noise"@, ""@),
        calls(calling, ufrag, remote_digest, source, destination),
    ensures
        answering.noise_channel->0.negotiated == calling.noise_channel->0.negotiated,
        answering.noise_channel->0.ordered == calling.noise_channel->0.ordered,
{
}

/// Exactly one side of a connection controls ICE, and each side's candidates are the other's.
pub proof fn law_roles_are_complementary(
    answering: RtcClient,
    calling: RtcClient,
    answer_ufrag: Seq<char>,
    call_ufrag: Seq<char>,
    remote_digest: Seq<u8>,
    caller: SocketAddr,
    listener: SocketAddr,
)
    requires
        answering.answers(answer_ufrag, answer_ufrag, caller, listener),
        calls(calling, call_ufrag, remote_digest, caller, listener),
    ensures
        answering.ice_controlling != calling.ice_controlling,
        answering.local_candidate == calling.remote_candidate,
        answering.remote_candidate == calling.local_candidate,
{
}

/// A random user name is as long as the prefix and the random part together.
pub proof fn law_ufrag_len(ufrag: Seq<char>)
    requires
        is_ufrag(ufrag),
    ensures
        ufrag.len() == 81,
        ufrag.take(17) == UFRAG_PREFIX@,
{
    reveal_strlit("libp2p+webrtc+v1/");
    let random = choose|random: Seq<char>| #[trigger]
        (UFRAG_PREFIX@ + random) == ufrag && random.len() == UFRAG_RANDOM_LEN && forall|i: int|
            0 <= i < random.len() ==> alphanumeric(#[trigger] random[i]);
    assert((UFRAG_PREFIX@ + random).take(17) =~= UFRAG_PREFIX@);
}

/// What is done while a connection is upgraded is the same whoever opened it, and is what its WebRTC
/// stack asks for: a datagram that the stack puts out is sent where the stack says, to the remote
/// with flow label and scope, and nothing else is done; ICE that is lost is reported; channels are
/// told of and data handed on as for any connection. Nothing that the connection made progress with
/// is left out or added.
pub proof fn law_upgrades_carry_outputs_out(
    direction: Direction,
    connection: Connection<Opening>,
    before: RtcStack,
    had: StackOutput,
    rtc: RtcStack,
    after: Connection<Opening>,
    progress: Option<Progress<OpeningEvent>>,
    r: (Result<UpgradeStep, Error>, Vec<Action>),
)
    requires
        before.inv(),
        before.alive(),
        connection.progresses(before, had, rtc, after, progress),
        is_upgrade_poll(direction, progress, after.stage.state, r),
    ensures
        had matches StackOutput::Transmit { destination, contents } ==> acts(r.1@) == seq![
            Act::Send(full_address(before.remote(), destination), contents@),
        ],
        had matches StackOutput::Transmit { destination, contents } ==> acts(r.1@) == seq![
            Act::Send(
                if destination.ip == before.remote().ip && destination.port
                    == before.remote().port {
                    before.remote()
                } else {
                    destination
                },
                contents@,
            ),
        ],
        had is IceDisconnected ==> acts(r.1@) == seq![Act::ReportClosed],
        had is Failed || had is Timeout || had is Connected || had is Other ==> r.1@.len() == 0,
        had matches StackOutput::ChannelOpen(id) ==> exists|n: ChannelId|
            {
                &&& n < rtc.ids().len()
                &&& #[trigger] rtc.ids()[n as int] == id
                &&& acts(r.1@) == (if connection.channel_details@.dom().contains(n) {
                    seq![
                        Act::State(n, RtcDataChannelState::Open),
                        Act::NotifyInbound(n),
                        Act::WakeOpen(n),
                    ]
                } else {
                    seq![Act::State(n, RtcDataChannelState::Open), Act::NotifyInbound(n)]
                })
            },
        had matches StackOutput::ChannelData(id, data) ==> exists|n: ChannelId|
            {
                &&& n < rtc.ids().len()
                &&& #[trigger] rtc.ids()[n as int] == id
                &&& acts(r.1@) == (if connection.channel_details@.dom().contains(n) {
                    seq![Act::Data(n, data@), Act::WakeNewData(n)]
                } else {
                    Seq::<Act>::empty()
                })
            },
        had matches StackOutput::ChannelClose(id) ==> exists|n: ChannelId|
            {
                &&& n < rtc.ids().len()
                &&& #[trigger] rtc.ids()[n as int] == id
                &&& acts(r.1@) == (if connection.channel_details@.dom().contains(n) {
                    seq![Act::State(n, RtcDataChannelState::Closed), Act::WakeOpen(n)]
                } else {
                    Seq::<Act>::empty()
                })
            },
        progress is Some ==> exists|output: RtcOutput|
            acts(r.1@) == #[trigger] required_acts(output, connection.knows(output)),
{
    crate::connection::law_outputs_are_carried_out(connection, before, had, rtc, after, progress);
    let (polled, said, now, output) = choose|
        polled: RtcStack,
        said: Polled,
        now: Instant,
        output: Option<RtcOutput>,
    | #[trigger]
        connection.steps(before, had, polled, said, now, output, rtc, after, progress);
    if progress is Some {
        let read = output->0;
        assert(acts(r.1@) == required_acts(read, connection.knows(read)));
    }
    match had {
        StackOutput::ChannelOpen(id) => {
            let n = choose|n: ChannelId|
                {
                    &&& n < rtc.ids().len()
                    &&& #[trigger] rtc.ids()[n as int] == id
                    &&& acts(progress->0.actions@) == (
                    if connection.channel_details@.dom().contains(n) {
                        seq![
                            Act::State(n, RtcDataChannelState::Open),
                            Act::NotifyInbound(n),
                            Act::WakeOpen(n),
                        ]
                    } else {
                        seq![Act::State(n, RtcDataChannelState::Open), Act::NotifyInbound(n)]
                    })
                };
            assert(rtc.ids()[n as int] == id);
        },
        _ => {},
    }
}

/// Whoever opens a connection, the same is done for it: the acts of an upgrade do not depend on its
/// direction.
pub proof fn law_acts_do_not_depend_on_the_direction(
    progress: Option<Progress<OpeningEvent>>,
    state: HandshakeState,
    inbound: (Result<UpgradeStep, Error>, Vec<Action>),
    outbound: (Result<UpgradeStep, Error>, Vec<Action>),
)
    requires
        is_upgrade_poll(Direction::Inbound, progress, state, inbound),
        is_upgrade_poll(Direction::Outbound, progress, state, outbound),
    ensures
        acts(inbound.1@) == acts(outbound.1@),
        progress matches Some(made) ==> acts(inbound.1@) == acts(made.actions@),
{
    if progress is None {
        assert(acts(inbound.1@) =~= acts(outbound.1@));
    }
}

/// How an upgrade with a working WebRTC stack goes on. It ends where the stack failed or lost ICE.
/// When ICE and DTLS come up, the Noise handshake starts with the remote whose certificate the stack
/// tells, or else had to expect; without a SHA-256 fingerprint the upgrade fails, and so it does
/// where that happens twice. A connection that has come up starts the handshake with what it knows,
/// on anything that does not end it. Before, the stack is polled again, and one that waits in an
/// inbound upgrade is handed the remote's message again.
pub proof fn law_upgrades_follow_the_stack(
    direction: Direction,
    connection: Connection<Opening>,
    before: RtcStack,
    had: StackOutput,
    rtc: RtcStack,
    after: Connection<Opening>,
    progress: Option<Progress<OpeningEvent>>,
    r: (Result<UpgradeStep, Error>, Vec<Action>),
)
    requires
        before.inv(),
        before.alive(),
        connection.progresses(before, had, rtc, after, progress),
        is_upgrade_poll(direction, progress, after.stage.state, r),
    ensures
        had is Failed || had is IceDisconnected ==> r.0 == Err::<UpgradeStep, Error>(
            Error::Disconnected,
        ),
        had is Connected ==> {
            let digest = match before.told() {
                Some((hash_func, bytes)) => if hash_func == "sha-256"@ && bytes.len() == 32 {
                    Some(bytes)
                } else {
                    None
                },
                None => Some(before.expected()),
            };
            &&& digest is None ==> r.0 == Err::<UpgradeStep, Error>(Error::DtlsCert)
            &&& digest matches Some(bytes) ==> if connection.stage.state is Closed {
                r.0 matches Ok(UpgradeStep::Handshake { remote_fingerprint })
                    && remote_fingerprint@ == bytes
            } else {
                r.0 == Err::<UpgradeStep, Error>(Error::Disconnected)
            }
        },
        had is Transmit || had is ChannelOpen || had is ChannelData || had is ChannelClose
            || had is Other ==> r.0 == Ok::<UpgradeStep, Error>(
            match connection.stage.state {
                HandshakeState::Opened { remote_fingerprint } => UpgradeStep::Handshake {
                    remote_fingerprint,
                },
                _ => UpgradeStep::Poll,
            },
        ),
        had matches StackOutput::Timeout(at) ==> exists|now: Instant|
            {
                &&& #[trigger] before.clock().shows(now)
                &&& if now.nanos < at.nanos {
                    r.0 == Ok::<UpgradeStep, Error>(
                        match connection.stage.state {
                            HandshakeState::Opened { remote_fingerprint } => UpgradeStep::Handshake {
                                remote_fingerprint,
                            },
                            _ => if direction is Inbound {
                                UpgradeStep::FeedAgain
                            } else {
                                UpgradeStep::Poll
                            },
                        },
                    )
                } else {
                    ||| r.0 == Err::<UpgradeStep, Error>(Error::Disconnected) && !rtc.alive()
                    ||| can_elapse(before.inner(), rtc.inner(), None) && r.0 == Ok::<
                        UpgradeStep,
                        Error,
                    >(
                        match connection.stage.state {
                            HandshakeState::Opened { remote_fingerprint } => UpgradeStep::Handshake {
                                remote_fingerprint,
                            },
                            _ => UpgradeStep::Poll,
                        },
                    )
                }
            },
{
    crate::connection::opening::law_opening_reports(
        connection,
        before,
        had,
        rtc,
        after,
        progress,
    );
    crate::connection::law_outputs_are_carried_out(connection, before, had, rtc, after, progress);
    if let StackOutput::Timeout(at) = had {
        let now = choose|now: Instant|
            {
                &&& #[trigger] before.clock().shows(now)
                &&& progress is Some
                &&& if now.nanos < at.nanos {
                    &&& progress->0.output == OpeningEvent::Timeout { timeout: at }
                    &&& rtc.inner() == before.inner()
                } else {
                    ||| progress->0.output == OpeningEvent::Nothing && can_elapse(
                        before.inner(),
                        rtc.inner(),
                        None,
                    )
                    ||| progress->0.output == OpeningEvent::ConnectionClosed && !rtc.alive()
                }
            };
        assert(before.clock().shows(now));
    }
}

/// The stack of an inbound upgrade is set up between this side's address and the remote's, with this
/// side's certificate and with the user name of the remote's message on both sides; it expects the
/// digest in which every bit is set, only answers, and has the channel for the Noise handshake, on
/// the stream that both sides know. Its connection is between the same endpoints, and waits to come
/// up.
pub proof fn law_inbound_upgrades_answer_the_remote(
    started: Started,
    client: RtcClient,
    digest: Seq<u8>,
    ufrag: Seq<char>,
    remote: SocketAddr,
    destination: SocketAddr,
)
    requires
        started.starts(client, digest, destination, remote),
        client.answers(ufrag, ufrag, remote, destination),
        is_noise_channel(client.noise_channel, "noise"@, ""@),
    ensures
        ({
            let with = started.rtc.setup();
            &&& with.ice_lite
            &&& with.certificate == digest
            &&& with.local_candidate == Some((destination.ip, destination.port))
            &&& with.remote_candidate == Some((remote.ip, remote.port))
            &&& with.remote_fingerprint == Some(Seq::new(32, |i: int| 0xffu8))
            &&& with.remote_credentials == Some((ufrag, ufrag))
            &&& with.local_credentials == Some((ufrag, ufrag))
            &&& with.ice_controlling == Some(false)
            &&& with.dtls_active == Some(false)
            &&& with.sctp_client == Some(false)
            &&& with.channels == seq![("noise"@, false, Some(0u16), ""@)]
        }),
        started.rtc.alive(),
        started.rtc.remote() == remote,
        started.connection.peer_address.0 == remote,
        started.connection.local_address == destination,
        started.connection.stage.state is Closed,
        started.connection.channel_details@.dom().contains(0),
        started.stream.channel_id() == 0,
{
    crate::rtc::law_stacks_are_set_up_as_asked(started.rtc, client, digest);
    assert(started.rtc.setup().channels =~= seq![("noise"@, false, Some(0u16), ""@)]);
}

/// The stack of an outbound upgrade is set up between this side's address and the one that was
/// dialled, with this side's certificate and a user name of its own, and with nothing known of the
/// remote but the certificate to expect; it is in the lead, and has the channel for the Noise
/// handshake, on the stream that both sides know. Its connection is between the same endpoints, and
/// waits to come up.
pub proof fn law_outbound_upgrades_call_the_remote(
    started: Started,
    client: RtcClient,
    digest: Seq<u8>,
    ufrag: Seq<char>,
    remote_digest: Seq<u8>,
    source: SocketAddr,
    destination: SocketAddr,
)
    requires
        started.starts(client, digest, source, destination),
        calls(client, ufrag, remote_digest, source, destination),
    ensures
        ({
            let with = started.rtc.setup();
            &&& with.ice_lite
            &&& with.certificate == digest
            &&& with.local_candidate == Some((source.ip, source.port))
            &&& with.remote_candidate == Some((destination.ip, destination.port))
            &&& with.remote_fingerprint == Some(remote_digest)
            &&& with.remote_credentials is None
            &&& with.local_credentials == Some((ufrag, ufrag))
            &&& with.ice_controlling == Some(true)
            &&& with.dtls_active == Some(false)
            &&& with.sctp_client == Some(false)
            &&& with.channels == seq![(""@, false, Some(0u16), "noise"@)]
        }),
        started.rtc.alive(),
        started.rtc.remote() == destination,
        started.rtc.expected() == remote_digest,
        started.connection.peer_address.0 == destination,
        started.connection.local_address == source,
        started.connection.stage.state is Closed,
        started.connection.channel_details@.dom().contains(0),
        started.stream.channel_id() == 0,
{
    crate::rtc::law_stacks_are_set_up_as_asked(started.rtc, client, digest);
    assert(started.rtc.setup().channels =~= seq![(""@, false, Some(0u16), "noise"@)]);
}

/// What the remote sent is handed to the WebRTC stack of its upgrade as it is, from where the remote
/// is to where it sent it; media is the present only. DTLS is left to be handed over; what the stack
/// would not survive and what cannot be multiplexed is refused and leaves the stack as it is. A stack
/// that complains works no longer, and the error says why.
pub proof fn law_remotes_are_fed_as_they_sent(
    remote: NewRemoteAddress,
    destination: SocketAddr,
    before: RtcStack,
    after: RtcStack,
    r: Result<Feeding, Error>,
)
    requires
        fed(remote, destination, before, after, r),
    ensures
        r == Ok::<Feeding, Error>(Feeding::Done) ==> if is_media(remote.contents@) {
            can_elapse(before.inner(), after.inner(), None)
        } else {
            can_receive(
                before.inner(),
                (remote.addr.ip, remote.addr.port),
                (destination.ip, destination.port),
                remote.contents@,
                after.inner(),
                None,
            )
        },
        remote.contents@.len() > 8192 ==> r == Err::<Feeding, Error>(Error::InvalidData),
        is_dtls(remote.contents@) && remote.contents@.len() <= 8192 ==> r == Ok::<Feeding, Error>(
            Feeding::HandOver,
        ),
        r == Ok::<Feeding, Error>(Feeding::HandOver) || r == Err::<Feeding, Error>(
            Error::InvalidData,
        ) || (r is Err && r->Err_0 is Net) ==> after == before,
        r matches Err(Error::WebRtc(_)) ==> !after.alive(),
        after.remote() == before.remote(),
        after.ids() == before.ids(),
        after.clock() == before.clock(),
{
    let contents = remote.contents@;
    if r == Ok::<Feeding, Error>(Feeding::Done) {
        crate::rtc::law_stacks_are_handed_what_came(
            before,
            remote.addr,
            destination,
            contents,
            after,
            None,
        );
    }
    if let Err(Error::WebRtc(text)) = r {
        crate::rtc::law_stacks_are_handed_what_came(
            before,
            remote.addr,
            destination,
            contents,
            after,
            Some(text@),
        );
    }
}

/// Whoever opened the connection is the client of the Noise handshake, and the other the server:
/// each side's own fingerprint stands for its own side.
pub proof fn law_callers_are_clients(own: Fingerprint, remote: Fingerprint)
    ensures
        handshake_fingerprints(Direction::Outbound, own, remote).client == own,
        handshake_fingerprints(Direction::Outbound, own, remote).server == remote,
        handshake_fingerprints(Direction::Inbound, own, remote).client == remote,
        handshake_fingerprints(Direction::Inbound, own, remote).server == own,
{
}

/// A random user name is made of the prefix of this transport and 64 letters and digits.
pub proof fn law_ufrag_is_random_behind_its_prefix(ufrag: Seq<char>, i: int)
    requires
        is_ufrag(ufrag),
        17 <= i < 81,
    ensures
        ufrag.len() == 81,
        'a' <= ufrag[i] <= 'z' || 'A' <= ufrag[i] <= 'Z' || '0' <= ufrag[i] <= '9',
        ufrag.take(17) == "libp2p+webrtc+v1/"@,
{
    law_ufrag_len(ufrag);
    reveal_strlit("libp2p+webrtc+v1/");
    let random = choose|random: Seq<char>| #[trigger]
        (UFRAG_PREFIX@ + random) == ufrag && random.len() == UFRAG_RANDOM_LEN && forall|i: int|
            0 <= i < random.len() ==> alphanumeric(#[trigger] random[i]);
    assert(ufrag[i] == random[i - 17]);
}

/// Going on with an upgrade over a working WebRTC stack sends what the stack puts out, whoever opened
/// the connection: a datagram goes out as it is, where the stack says, and nothing else is done. A
/// stack that no longer works ends the upgrade, and the connection is reported as closed.
pub proof fn law_polled_upgrades_send(
    direction: Direction,
    connection: &mut Connection<Opening>,
    rtc: &mut RtcStack,
    output: StackOutput,
    r: (Result<UpgradeStep, Error>, Vec<Action>),
)
    requires
        call_ensures(poll, (direction, connection, rtc, output), r),
        old(rtc).inv(),
    ensures
        old(rtc).alive() ==> (output matches StackOutput::Transmit { destination, contents }
            ==> acts(r.1@) == seq![
            Act::Send(
                if destination.ip == old(rtc).remote().ip && destination.port
                    == old(rtc).remote().port {
                    old(rtc).remote()
                } else {
                    destination
                },
                contents@,
            ),
        ] && *final(connection) == *old(connection)),
        output is IceDisconnected ==> acts(r.1@) == seq![Act::ReportClosed] && r.0 == Err::<
            UpgradeStep,
            Error,
        >(Error::Disconnected),
        output is Failed ==> r.0 == Err::<UpgradeStep, Error>(Error::Disconnected)
            && !final(rtc).alive(),
        !old(rtc).alive() ==> r.0 == Err::<UpgradeStep, Error>(Error::Disconnected),
        !old(rtc).alive() && !(output is Failed) ==> acts(r.1@) == seq![Act::ReportClosed]
            && *final(rtc) == *old(rtc),
        r.0 matches Ok(UpgradeStep::Handshake { remote_fingerprint })
            ==> final(connection).stage.state == (HandshakeState::Opened { remote_fingerprint }),
        final(connection).peer_address == old(connection).peer_address,
        final(connection).local_address == old(connection).local_address,
        final(connection).channel_details == old(connection).channel_details,
{
    let progress = choose|progress: Option<Progress<OpeningEvent>>| #[trigger]
        old(connection).progresses(*old(rtc), output, *final(rtc), *final(connection), progress)
            && is_upgrade_poll(direction, progress, final(connection).stage.state, r);
    if old(rtc).alive() {
        law_upgrades_carry_outputs_out(
            direction,
            *old(connection),
            *old(rtc),
            output,
            *final(rtc),
            *final(connection),
            progress,
            r,
        );
        law_upgrades_follow_the_stack(
            direction,
            *old(connection),
            *old(rtc),
            output,
            *final(rtc),
            *final(connection),
            progress,
            r,
        );
        crate::connection::law_outputs_are_carried_out(
            *old(connection),
            *old(rtc),
            output,
            *final(rtc),
            *final(connection),
            progress,
        );
    } else if output is Failed {
        let (polled, said, now, read) = choose|
            polled: RtcStack,
            said: Polled,
            now: Instant,
            read: Option<RtcOutput>,
        | #[trigger]
            old(connection).steps(
                *old(rtc),
                output,
                polled,
                said,
                now,
                read,
                *final(rtc),
                *final(connection),
                progress,
            );
        crate::rtc::law_outputs_are_read_as_they_are(*old(rtc), output, said, polled);
    }
}

/// A client that answers, and one that calls, are made for the addresses they are given: the local
/// candidate is this side's, and the remote one the other's; the one that answers expects any
/// certificate and has the user name on both sides, the one that calls expects the certificate that
/// it is given. Each has one channel, on stream zero, without order.
pub proof fn law_clients_are_made_for_their_addresses(
    ufrag: &str,
    pass: &str,
    remote: SocketAddr,
    local: SocketAddr,
    answering: RtcClient,
    fingerprint: Fingerprint,
    calling: RtcClient,
)
    requires
        call_ensures(make_rtc_client, (ufrag, pass, remote, local), answering),
        call_ensures(outbound_rtc_client_with, (ufrag, fingerprint, local, remote), calling),
    ensures
        answering.local_candidate == local && calling.local_candidate == local,
        answering.remote_candidate == remote && calling.remote_candidate == remote,
        !answering.ice_controlling && calling.ice_controlling,
        answering.ice_lite && calling.ice_lite,
        !answering.fingerprint_verification && !calling.fingerprint_verification,
        !answering.dtls_active && !calling.dtls_active,
        !answering.sctp_client && !calling.sctp_client,
        answering.local_credentials.ufrag@ == ufrag@ && answering.local_credentials.pass@ == pass@,
        answering.remote_credentials matches Some(creds) && creds.ufrag@ == ufrag@ && creds.pass@
            == pass@,
        calling.local_credentials.ufrag@ == ufrag@ && calling.local_credentials.pass@ == ufrag@,
        calling.remote_credentials is None,
        calling.remote_fingerprint@ == fingerprint@,
        forall|i: int| 0 <= i < 32 ==> answering.remote_fingerprint@[i] == 0xff,
        answering.noise_channel matches Some(channel) && channel.negotiated == Some(0u16)
            && !channel.ordered && channel.label@ == "noise"@,
        calling.noise_channel matches Some(channel) && channel.negotiated == Some(0u16)
            && !channel.ordered && channel.protocol@ == "noise"@,
{
}

/// An outbound upgrade, which always starts, has a stack between the two addresses that it is given:
/// this side's, as the local candidate, and the one to call, as the remote one, with this side's
/// certificate and the fingerprint to expect, and a connection between the same two.
pub proof fn law_outbound_upgrades_start(
    source: SocketAddr,
    destination: SocketAddr,
    remote_fingerprint: Fingerprint,
    cert: DtlsCert,
    clock: Clock,
    r: Result<Started, Error>,
)
    requires
        call_ensures(outbound, (source, destination, remote_fingerprint, cert, clock), r),
    ensures
        r is Ok,
        r->Ok_0.rtc.setup().local_candidate == Some((source.ip, source.port)),
        r->Ok_0.rtc.setup().remote_candidate == Some((destination.ip, destination.port)),
        r->Ok_0.rtc.setup().remote_fingerprint == Some(remote_fingerprint@),
        r->Ok_0.rtc.setup().certificate == dtls_digest(cert),
        r->Ok_0.rtc.setup().ice_controlling == Some(true),
        r->Ok_0.rtc.remote() == destination,
        r->Ok_0.rtc.expected() == remote_fingerprint@,
        r->Ok_0.rtc.clock() == clock,
        r->Ok_0.connection.local_address == source,
        r->Ok_0.connection.peer_address.0 == destination,
        r->Ok_0.stream.channel_id() == 0,
{
    let started = r->Ok_0;
    let client = choose|client: RtcClient| #[trigger]
        started.starts(client, dtls_digest(cert), source, destination) && is_ufrag(
            client.local_credentials.ufrag@,
        ) && calls(
            client,
            client.local_credentials.ufrag@,
            remote_fingerprint@,
            source,
            destination,
        );
    law_outbound_upgrades_call_the_remote(
        started,
        client,
        dtls_digest(cert),
        client.local_credentials.ufrag@,
        remote_fingerprint@,
        source,
        destination,
    );
}

/// An inbound upgrade that starts is in the manager, under the remote's address, with a stack between
/// this side's address, as the local candidate, and the remote's, as the other, with this side's
/// certificate and the remote's user name; nothing else in the manager changes. One that does not
/// start, because the remote sent what cannot be multiplexed, changes nothing.
pub proof fn law_inbound_upgrades_start<Tx>(
    manager: &mut UDPManager<Tx>,
    remote: &NewRemoteAddress,
    destination: SocketAddr,
    cert: DtlsCert,
    r: Result<Stream, Error>,
    other: SocketAddr,
)
    requires
        call_ensures(inbound, (manager, remote, destination, cert), r),
        other != remote.addr,
    ensures
        r is Ok <==> recognised(remote.contents@, stun_message(remote.contents@) is Some),
        r is Err ==> *final(manager) == *old(manager),
        r is Ok ==> {
            let opening = final(manager).opening@[remote.addr];
            let with = opening.rtc.setup();
            &&& final(manager).opening@.dom().contains(remote.addr)
            &&& with.local_candidate == Some((destination.ip, destination.port))
            &&& with.remote_candidate == Some((remote.addr.ip, remote.addr.port))
            &&& with.certificate == dtls_digest(cert)
            &&& with.local_credentials == Some((remote.ufrag@, remote.ufrag@))
            &&& with.remote_credentials == Some((remote.ufrag@, remote.ufrag@))
            &&& with.ice_controlling == Some(false)
            &&& opening.rtc.remote() == remote.addr
            &&& opening.rtc.clock() == old(manager).clock
            &&& opening.connection.peer_address.0 == remote.addr
            &&& opening.connection.local_address == destination
            &&& r->Ok_0.channel_id() == 0
        },
        final(manager).opening@.dom().contains(other) == old(manager).opening@.dom().contains(other),
        old(manager).opening@.dom().contains(other) ==> final(manager).opening@[other]
            == old(manager).opening@[other],
        final(manager).open == old(manager).open,
{
    if let Ok(stream) = r {
        let opening = final(manager).opening@[remote.addr];
        let started = Started { rtc: opening.rtc, connection: opening.connection, stream };
        let client = choose|client: RtcClient| #[trigger]
            started.starts(client, dtls_digest(cert), destination, remote.addr) && client.answers(
                remote.ufrag@,
                remote.ufrag@,
                remote.addr,
                destination,
            ) && is_noise_channel(client.noise_channel, "noise"@, ""@);
        law_inbound_upgrades_answer_the_remote(
            started,
            client,
            dtls_digest(cert),
            remote.ufrag@,
            remote.addr,
            destination,
        );
    }
}

/// An inbound upgrade whose connection is gone is disconnected, whatever is asked of it, and nothing
/// changes; one that is there goes on like any other, in the manager, and is opened with its stack,
/// its channels and its addresses, and the peer that was authenticated.
pub proof fn law_upgrades_end_with_their_connection<Tx>(
    polled: &mut UDPManager<Tx>,
    source: SocketAddr,
    output: StackOutput,
    step: (Result<UpgradeStep, Error>, Vec<Action>),
    opened: &mut UDPManager<Tx>,
    config: OpenConfig,
    open: Result<(Connection<Open>, RtcStack), Error>,
)
    requires
        call_ensures(poll_inbound, (polled, source, output), step),
        call_ensures(open_inbound, (opened, source, config), open),
    ensures
        !upgrades(*old(polled), source) ==> step.0 == Err::<UpgradeStep, Error>(Error::Disconnected)
            && step.1@.len() == 0 && *final(polled) == *old(polled),
        upgrades(*old(polled), source) && old(polled).opening@[source].rtc.inv() && old(
            polled,
        ).opening@[source].rtc.alive() ==> (output matches StackOutput::Transmit {
            destination,
            contents,
        } ==> acts(step.1@) == seq![
            Act::Send(
                full_address(old(polled).opening@[source].rtc.remote(), destination),
                contents@,
            ),
        ]),
        open is Ok <==> upgrades(*old(opened), source),
        open is Err ==> *final(opened) == *old(opened),
        open matches Ok((connection, rtc)) ==> {
            let before = old(opened).opening@[source];
            &&& rtc == before.rtc
            &&& connection.stage.peer == config.peer_id
            &&& connection.channel_details == before.connection.channel_details
            &&& connection.peer_address == before.connection.peer_address
            &&& connection.local_address == before.connection.local_address
            &&& connection.drop_listeners == before.connection.drop_listeners
            &&& !final(opened).opening@.dom().contains(source)
            &&& !final(opened).timeouts@.dom().contains(source)
        },
{
    if upgrades(*old(polled), source) && old(polled).opening@[source].rtc.inv() && old(
        polled,
    ).opening@[source].rtc.alive() {
        let before = old(polled).opening@[source];
        let after = final(polled).opening@[source];
        let progress = choose|progress: Option<Progress<OpeningEvent>>| #[trigger]
            before.connection.progresses(
                before.rtc,
                output,
                after.rtc,
                after.connection,
                progress,
            ) && is_upgrade_poll(
                Direction::Inbound,
                progress,
                after.connection.stage.state,
                step,
            );
        law_upgrades_carry_outputs_out(
            Direction::Inbound,
            before.connection,
            before.rtc,
            output,
            after.rtc,
            after.connection,
            progress,
            step,
        );
    }
}

/// Only an authenticated peer opens a connection, and it is the one that was; only with a sender is
/// the upgrade over, and then what comes from the connection's peer goes there.
pub proof fn law_only_authenticated_peers_are_opened<Tx>(
    peer: Option<PeerId>,
    config: Result<OpenConfig, Error>,
    manager: &mut UDPManager<Tx>,
    connection: &Connection<Open>,
    tx: Option<Tx>,
    ready: Result<(), Error>,
)
    requires
        call_ensures(on_handshake, (peer,), config),
        call_ensures(on_ready, (manager, connection, tx), ready),
    ensures
        config is Ok <==> peer is Some,
        config matches Ok(opened) ==> Some(opened.peer_id) == peer,
        config matches Err(e) ==> e == Error::NoiseHandshakeFailed,
        ready is Ok <==> tx is Some,
        tx matches Some(sender) ==> {
            &&& final(manager).open@.dom().contains(connection.peer_address.0)
            &&& final(manager).open@[connection.peer_address.0].tx == sender
            &&& final(manager).opening == old(manager).opening
        },
        tx is None ==> *final(manager) == *old(manager),
{
}

/// What came of handing the remote's message over is followed up: taken, it is done; DTLS is left to
/// be handed over; and a refusal or a failure says what it was told.
pub proof fn law_feeding_is_followed_up(received: Received, r: Result<Feeding, Error>)
    requires
        call_ensures(on_fed, (received,), r),
    ensures
        r == Ok::<Feeding, Error>(Feeding::Done) <==> received is Taken,
        r == Ok::<Feeding, Error>(Feeding::HandOver) <==> received is HandOver,
        received matches Received::Rejected(text) ==> r == Err::<Feeding, Error>(Error::Net(text)),
        received matches Received::Failed(text) ==> r == Err::<Feeding, Error>(Error::WebRtc(text)),
        received is Unusable ==> r == Err::<Feeding, Error>(Error::InvalidData),
{
}

/// Both sides' calls for the fingerprints of the Noise handshake, each with its own certificate's and
/// the other's, give the same two in the same places, the caller's first.
pub proof fn law_both_sides_agree_on_the_fingerprints(
    caller: Fingerprint,
    listener: Fingerprint,
    calling: NoiseFingerprints,
    listening: NoiseFingerprints,
)
    requires
        call_ensures(noise_fingerprints, (Direction::Outbound, caller, listener), calling),
        call_ensures(noise_fingerprints, (Direction::Inbound, listener, caller), listening),
    ensures
        calling == listening,
        calling.client == caller,
        calling.server == listener,
{
}

/// What the remote sent first is handed to the stack of its upgrade, in the manager, as it is and from
/// where the remote is to where it sent it; nothing but that stack changes. An upgrade whose
/// connection is gone is disconnected, and nothing changes.
pub proof fn law_fed_upgrades_get_what_was_sent<Tx>(
    manager: &mut UDPManager<Tx>,
    remote: &NewRemoteAddress,
    destination: SocketAddr,
    r: Result<Feeding, Error>,
)
    requires
        call_ensures(feed_inbound, (manager, remote, destination), r),
    ensures
        !upgrades(*old(manager), remote.addr) ==> r == Err::<Feeding, Error>(Error::Disconnected)
            && *final(manager) == *old(manager),
        upgrades(*old(manager), remote.addr) ==> {
            let before = old(manager).opening@[remote.addr];
            let after = final(manager).opening@[remote.addr];
            &&& after.connection == before.connection
            &&& r == Ok::<Feeding, Error>(Feeding::Done) && !is_media(remote.contents@)
                ==> can_receive(
                before.rtc.inner(),
                (remote.addr.ip, remote.addr.port),
                (destination.ip, destination.port),
                remote.contents@,
                after.rtc.inner(),
                None,
            )
            &&& is_dtls(remote.contents@) && remote.contents@.len() <= 8192 ==> r == Ok::<
                Feeding,
                Error,
            >(Feeding::HandOver) && after == before
            &&& remote.contents@.len() > 8192 ==> r == Err::<Feeding, Error>(Error::InvalidData)
                && after == before
        },
        final(manager).open == old(manager).open,
{
    if upgrades(*old(manager), remote.addr) {
        law_remotes_are_fed_as_they_sent(
            *remote,
            destination,
            old(manager).opening@[remote.addr].rtc,
            final(manager).opening@[remote.addr].rtc,
            r,
        );
    }
}

} // verus!
