//! The WebRTC stack of a connection.
//!
//! The stack does no I/O: it is handed datagrams and the time, and polled for what it wants done.
//!
//! The library hands it the time and STUN messages. What belongs to the layers above ICE, the DTLS
//! of the remote and what follows from it, is between the stack and whoever drives the library: that
//! one hands DTLS over and polls, and reports here what came of it.
use str0m::change::{DtlsCert, Fingerprint as StackFingerprint};
use str0m::channel::{ChannelConfig as StackChannelConfig, ChannelId as StackChannelId};
use str0m::net::{DatagramRecv, Protocol as Transport, Receive};
use str0m::{Candidate, IceCreds as StackCreds, Input, Rtc};
use vstd::prelude::*;

use crate::certificate::dtls_digest;
use crate::channel::ChannelId;
use crate::fingerprint::{Fingerprint, RtcFingerprint, SHA256};
use crate::net::{IpAddr, SocketAddr};
use crate::rtc_client::{ChannelConfig, RtcClient};
use crate::stun::{
    carries_media, decodable, is_decodable, is_dtls, is_media, is_stun_packet, looks_like_stun,
    recognised, rejection, stun_message, stun_rejection, STUN_HEADER_LEN,
};
use crate::time::{Clock, Instant};
use crate::udp_manager::RECEIVE_MTU;

verus! {

/// Declares `str0m::Rtc` as an opaque type.
#[verifier::external_type_specification]
#[verifier::external_body]
pub struct ExRtc(Rtc);

/// Declares `str0m::channel::ChannelId` as an opaque type.
#[verifier::external_type_specification]
#[verifier::external_body]
pub struct ExStackChannelId(StackChannelId);

/// What a stack was set up with, as long as it has been neither polled nor handed anything.
pub struct Setup {
    pub ice_lite: bool,
    /// The digest of this side's certificate.
    pub certificate: Seq<u8>,
    pub local_candidate: Option<(IpAddr, u16)>,
    pub remote_candidate: Option<(IpAddr, u16)>,
    /// The digest that the remote's certificate is expected to have.
    pub remote_fingerprint: Option<Seq<u8>>,
    /// The remote's user name and password.
    pub remote_credentials: Option<(Seq<char>, Seq<char>)>,
    /// This side's user name and password, where they were given.
    pub local_credentials: Option<(Seq<char>, Seq<char>)>,
    pub ice_controlling: Option<bool>,
    /// Whether this side starts the DTLS handshake, once that is decided.
    pub dtls_active: Option<bool>,
    /// Whether this side starts the SCTP association, once that is decided.
    pub sctp_client: Option<bool>,
    /// The data channels: label, order, stream and protocol of each.
    pub channels: Seq<(Seq<char>, bool, Option<u16>, Seq<char>)>,
}

/// What a stack was set up with.
pub uninterp spec fn setup(rtc: Rtc) -> Setup;

/// The stack still works.
pub uninterp spec fn alive(rtc: Rtc) -> bool;

/// The stack is one of ICE lite, which answers checks and makes none.
pub uninterp spec fn lite(rtc: Rtc) -> bool;

/// `Rtc::builder` of `str0m` and `RtcConfig::build`, with the three settings in between: a stack
/// that works and has nothing but these. It keeps nothing of the setting on the verification of
/// fingerprints.
#[verifier::external_body]
fn build(ice_lite: bool, fingerprint_verification: bool, cert: DtlsCert) -> (r: Rtc)
    requires
        ice_lite,
    ensures
        alive(r),
        lite(r),
        setup(r) == (Setup {
            ice_lite,
            certificate: dtls_digest(cert),
            local_candidate: None,
            remote_candidate: None,
            remote_fingerprint: None,
            remote_credentials: None,
            local_credentials: None,
            ice_controlling: None,
            dtls_active: None,
            sctp_client: None,
            channels: Seq::empty(),
        }),
{
    let config = Rtc::builder().set_ice_lite(ice_lite).set_dtls_cert(cert);
    config.set_fingerprint_verification(fingerprint_verification).build()
}

/// `Candidate::host` and `Rtc::add_local_candidate` of `str0m`: the first local candidate is kept
/// as it is. It has neither flow label nor scope.
#[verifier::external_body]
fn add_local_candidate(rtc: &mut Rtc, ip: IpAddr, port: u16)
    requires
        ip.candidate(),
        setup(*old(rtc)).local_candidate is None,
    ensures
        alive(*final(rtc)) == alive(*old(rtc)),
        lite(*final(rtc)) == lite(*old(rtc)),
        setup(*final(rtc)) == (Setup { local_candidate: Some((ip, port)), ..setup(*old(rtc)) }),
{
    let addr = match ip {
        IpAddr::V4(bits) => (bits.to_be_bytes(), port).into(),
        IpAddr::V6(bits) => (bits.to_be_bytes(), port).into(),
    };
    rtc.add_local_candidate(Candidate::host(addr, Transport::Udp).unwrap())
}

/// `Candidate::host` and `Rtc::add_remote_candidate` of `str0m`: the first remote candidate is kept
/// as it is.
#[verifier::external_body]
fn add_remote_candidate(rtc: &mut Rtc, ip: IpAddr, port: u16)
    requires
        ip.candidate(),
        setup(*old(rtc)).remote_candidate is None,
    ensures
        alive(*final(rtc)) == alive(*old(rtc)),
        lite(*final(rtc)) == lite(*old(rtc)),
        setup(*final(rtc)) == (Setup { remote_candidate: Some((ip, port)), ..setup(*old(rtc)) }),
{
    let addr = match ip {
        IpAddr::V4(bits) => (bits.to_be_bytes(), port).into(),
        IpAddr::V6(bits) => (bits.to_be_bytes(), port).into(),
    };
    rtc.add_remote_candidate(Candidate::host(addr, Transport::Udp).unwrap())
}

/// `DirectApi::set_remote_fingerprint` of `str0m`: the SHA-256 digest to expect.
#[verifier::external_body]
fn set_remote_fingerprint(rtc: &mut Rtc, digest: [u8; 32])
    ensures
        alive(*final(rtc)) == alive(*old(rtc)),
        lite(*final(rtc)) == lite(*old(rtc)),
        setup(*final(rtc)) == (Setup { remote_fingerprint: Some(digest@), ..setup(*old(rtc)) }),
{
    let fp = StackFingerprint { hash_func: SHA256.to_owned(), bytes: digest.to_vec() };
    rtc.direct_api().set_remote_fingerprint(fp)
}

/// `DirectApi::set_remote_ice_credentials` of `str0m`.
#[verifier::external_body]
fn set_remote_ice_credentials(rtc: &mut Rtc, ufrag: &str, pass: &str)
    ensures
        alive(*final(rtc)) == alive(*old(rtc)),
        lite(*final(rtc)) == lite(*old(rtc)),
        setup(*final(rtc)) == (Setup {
            remote_credentials: Some((ufrag@, pass@)),
            ..setup(*old(rtc))
        }),
{
    let creds = StackCreds { ufrag: ufrag.to_owned(), pass: pass.to_owned() };
    rtc.direct_api().set_remote_ice_credentials(creds)
}

/// `DirectApi::set_local_ice_credentials` of `str0m`.
#[verifier::external_body]
fn set_local_ice_credentials(rtc: &mut Rtc, ufrag: &str, pass: &str)
    ensures
        alive(*final(rtc)) == alive(*old(rtc)),
        lite(*final(rtc)) == lite(*old(rtc)),
        setup(*final(rtc)) == (Setup {
            local_credentials: Some((ufrag@, pass@)),
            ..setup(*old(rtc))
        }),
{
    let creds = StackCreds { ufrag: ufrag.to_owned(), pass: pass.to_owned() };
    rtc.direct_api().set_local_ice_credentials(creds)
}

/// `DirectApi::set_ice_controlling` of `str0m`.
#[verifier::external_body]
fn set_ice_controlling(rtc: &mut Rtc, controlling: bool)
    ensures
        alive(*final(rtc)) == alive(*old(rtc)),
        lite(*final(rtc)) == lite(*old(rtc)),
        setup(*final(rtc)) == (Setup { ice_controlling: Some(controlling), ..setup(*old(rtc)) }),
{
    rtc.direct_api().set_ice_controlling(controlling)
}

/// `DirectApi::start_dtls` of `str0m`, for a side that waits for the other to start: then nothing
/// can go wrong. The first decision stands.
#[verifier::external_body]
fn start_dtls(rtc: &mut Rtc, active: bool) -> (r: Result<(), String>)
    requires
        setup(*old(rtc)).dtls_active is None,
    ensures
        !active ==> r is Ok,
        lite(*final(rtc)) == lite(*old(rtc)),
        alive(*final(rtc)) == alive(*old(rtc)),
        setup(*final(rtc)) == (Setup { dtls_active: Some(active), ..setup(*old(rtc)) }),
{
    rtc.direct_api().start_dtls(active).map_err(|e| e.to_string())
}

/// `DirectApi::start_sctp` of `str0m`, for a side that waits for the other to start. The first
/// decision stands.
#[verifier::external_body]
fn start_sctp(rtc: &mut Rtc, client: bool)
    requires
        !client,
        setup(*old(rtc)).sctp_client is None,
    ensures
        alive(*final(rtc)) == alive(*old(rtc)),
        lite(*final(rtc)) == lite(*old(rtc)),
        setup(*final(rtc)) == (Setup { sctp_client: Some(client), ..setup(*old(rtc)) }),
{
    rtc.direct_api().start_sctp(client)
}

/// A stream that no data channel has been promised yet.
pub open spec fn stream_is_free(setup: Setup, stream: Option<u16>) -> bool {
    stream is Some ==> forall|i: int|
        0 <= i < setup.channels.len() ==> (#[trigger] setup.channels[i]).2 != stream
}

/// `DirectApi::create_data_channel` of `str0m`, with the default reliability; it panics where the
/// stream is taken.
#[verifier::external_body]
fn create_data_channel(rtc: &mut Rtc, config: &ChannelConfig) -> (r: StackChannelId)
    requires
        stream_is_free(setup(*old(rtc)), config.negotiated),
    ensures
        alive(*final(rtc)) == alive(*old(rtc)),
        lite(*final(rtc)) == lite(*old(rtc)),
        setup(*final(rtc)) == (Setup {
            channels: setup(*old(rtc)).channels.push(
                (config.label@, config.ordered, config.negotiated, config.protocol@),
            ),
            ..setup(*old(rtc))
        }),
{
    rtc.direct_api().create_data_channel(StackChannelConfig {
        label: config.label.clone(),
        ordered: config.ordered,
        reliability: Default::default(),
        negotiated: config.negotiated,
        protocol: config.protocol.clone(),
    })
}

/// `==` on `ChannelId` of `str0m`, which holds nothing but a number.
#[verifier::external_body]
fn same_channel(a: &StackChannelId, b: &StackChannelId) -> (r: bool)
    ensures
        r == (*a == *b),
{
    a == b
}

/// `Rtc::is_alive` of `str0m`.
#[verifier::external_body]
fn is_alive(rtc: &Rtc) -> (r: bool)
    ensures
        r == alive(*rtc),
{
    rtc.is_alive()
}

/// `Rtc::disconnect` of `str0m`: the stack no longer works.
#[verifier::external_body]
fn disconnect(rtc: &mut Rtc)
    ensures
        !alive(*final(rtc)),
        lite(*final(rtc)) == lite(*old(rtc)),
{
    rtc.disconnect()
}

/// The hash function and the digest that a stack tells of the remote's certificate.
pub uninterp spec fn told_fingerprint(rtc: Rtc) -> Option<(Seq<char>, Seq<u8>)>;

/// The mathematical form of an optional [`RtcFingerprint`].
pub open spec fn fingerprint_view(fp: Option<RtcFingerprint>) -> Option<(Seq<char>, Seq<u8>)> {
    match fp {
        Some(fp) => Some((fp.hash_func@, fp.bytes@)),
        None => None,
    }
}

/// `DirectApi::remote_dtls_fingerprint` of `str0m`: what the DTLS handshake told of the remote's
/// certificate, where it was this side that started it. The stack is only looked at.
#[verifier::external_body]
fn remote_dtls_fingerprint(rtc: &mut Rtc) -> (r: Option<RtcFingerprint>)
    ensures
        fingerprint_view(r) == told_fingerprint(*old(rtc)),
        *final(rtc) == *old(rtc),
{
    let fp = rtc.direct_api().remote_dtls_fingerprint()?;
    Some(RtcFingerprint { hash_func: fp.hash_func, bytes: fp.bytes })
}

/// What a stack says of something that it was handed; nothing where it took it.
pub open spec fn complaint(r: Result<(), String>) -> Option<Seq<char>> {
    match r {
        Ok(()) => None,
        Err(text) => Some(text@),
    }
}

/// A stack that is handed the present can become `after`, and say this of it. What it does become
/// rests with chance and with the time.
pub uninterp spec fn can_elapse(before: Rtc, after: Rtc, said: Option<Seq<char>>) -> bool;

/// `Rtc::handle_input` of `str0m` with the present, of a stack of ICE lite; another can panic on it,
/// where the user names are long. A stack that no longer works takes it without effect, and never
/// works again. What else the stack makes of it is something that it can, and is not stated: it rests
/// with chance and with the time.
#[verifier::external_body]
fn handle_timeout(rtc: &mut Rtc) -> (r: Result<(), String>)
    requires
        lite(*old(rtc)),
    ensures
        can_elapse(*old(rtc), *final(rtc), complaint(r)),
        lite(*final(rtc)),
        !alive(*old(rtc)) ==> r is Ok && !alive(*final(rtc)),
{
    rtc.handle_input(Input::Timeout(std::time::Instant::now())).map_err(|e| e.to_string())
}

/// A STUN binding indication without a user name.
pub open spec fn nameless_indication(
    datagram: Seq<u8>,
    message: Option<Option<(Seq<char>, Seq<char>)>>,
) -> bool {
    datagram.len() >= STUN_HEADER_LEN && datagram[0] == 0 && datagram[1] == 0x11 && message == Some(
        None::<(Seq<char>, Seq<char>)>,
    )
}

/// A stack that is handed a STUN message from one endpoint to another can become `after`, and say
/// this of it. What it does become rests with chance and with the time.
pub uninterp spec fn can_receive(
    before: Rtc,
    from: (IpAddr, u16),
    to: (IpAddr, u16),
    datagram: Seq<u8>,
    after: Rtc,
    said: Option<Seq<char>>,
) -> bool;

/// `DatagramRecv::try_from` and `Rtc::handle_input` of `str0m` with a STUN message that came over UDP
/// just now, of a stack of ICE lite. It panics on a binding indication without a user name. A stack
/// that no longer works takes everything without effect, and never works again. What else the stack
/// makes of it is something that it can, and is not stated: it rests with chance and with the time.
#[verifier::external_body]
fn handle_stun(rtc: &mut Rtc, from: (IpAddr, u16), to: (IpAddr, u16), datagram: &[u8]) -> (r:
    Result<(), String>)
    requires
        lite(*old(rtc)),
        looks_like_stun(datagram@),
        decodable(datagram@),
        stun_message(datagram@) is Some,
        !nameless_indication(datagram@, stun_message(datagram@)),
    ensures
        can_receive(*old(rtc), from, to, datagram@, *final(rtc), complaint(r)),
        lite(*final(rtc)),
        !alive(*old(rtc)) ==> r is Ok && !alive(*final(rtc)),
{
    let source = match from.0 {
        IpAddr::V4(bits) => (bits.to_be_bytes(), from.1).into(),
        IpAddr::V6(bits) => (bits.to_be_bytes(), from.1).into(),
    };
    let destination = match to.0 {
        IpAddr::V4(bits) => (bits.to_be_bytes(), to.1).into(),
        IpAddr::V6(bits) => (bits.to_be_bytes(), to.1).into(),
    };
    let contents = DatagramRecv::try_from(datagram).map_err(|e| e.to_string())?;
    let input = Receive { proto: Transport::Udp, source, destination, contents };
    rtc.handle_input(Input::Receive(std::time::Instant::now(), input)).map_err(|e| e.to_string())
}

/// Whether a stack takes a datagram from one endpoint to another for its own.
pub uninterp spec fn accepted(
    rtc: Rtc,
    from: (IpAddr, u16),
    to: (IpAddr, u16),
    datagram: Seq<u8>,
) -> bool;

/// `DatagramRecv::try_from` and `Rtc::accepts` of `str0m`: whether a datagram that came over UDP is
/// meant for this stack, which depends on nothing but these.
#[verifier::external_body]
fn accepts(rtc: &Rtc, from: (IpAddr, u16), to: (IpAddr, u16), datagram: &[u8]) -> (r: bool)
    requires
        looks_like_stun(datagram@) ==> decodable(datagram@),
        recognised(datagram@, stun_message(datagram@) is Some),
        !nameless_indication(datagram@, stun_message(datagram@)),
    ensures
        r == accepted(*rtc, from, to, datagram@),
{
    let source = match from.0 {
        IpAddr::V4(bits) => (bits.to_be_bytes(), from.1).into(),
        IpAddr::V6(bits) => (bits.to_be_bytes(), from.1).into(),
    };
    let destination = match to.0 {
        IpAddr::V4(bits) => (bits.to_be_bytes(), to.1).into(),
        IpAddr::V6(bits) => (bits.to_be_bytes(), to.1).into(),
    };
    let Ok(contents) = DatagramRecv::try_from(datagram) else { return false };
    let input = Receive { proto: Transport::Udp, source, destination, contents };
    rtc.accepts(&Input::Receive(std::time::Instant::now(), input))
}

/// An output of the stack, as far as this transport reads it.
pub enum StackOutput {
    /// The stack failed.
    Failed,
    /// A datagram to send.
    Transmit { destination: SocketAddr, contents: Vec<u8> },
    /// When the stack wants to be handed the time.
    Timeout(Instant),
    /// The ICE connection is lost.
    IceDisconnected,
    /// ICE and DTLS are up.
    Connected,
    /// A data channel has opened.
    ChannelOpen(StackChannelId),
    /// Data arrived on a channel.
    ChannelData(StackChannelId, Vec<u8>),
    /// A data channel has closed.
    ChannelClose(StackChannelId),
    /// Anything else.
    Other,
}

/// What came of writing to a data channel.
#[derive(Debug, PartialEq, Eq)]
pub enum Written {
    /// There is no such channel, or it is not open.
    NoChannel,
    /// So many bytes were taken.
    Taken(usize),
    /// The stack failed, with what it said.
    Failed(String),
}

/// The mathematical form of [`Written`].
pub enum WriteOutcome {
    NoChannel,
    Taken(nat),
    Failed(Seq<char>),
}

impl View for Written {
    type V = WriteOutcome;

    open spec fn view(&self) -> WriteOutcome {
        match *self {
            Written::NoChannel => WriteOutcome::NoChannel,
            Written::Taken(len) => WriteOutcome::Taken(len as nat),
            Written::Failed(text) => WriteOutcome::Failed(text@),
        }
    }
}

/// A stack on a data channel of which this was written, once, can become `after`.
pub uninterp spec fn can_write(
    before: Rtc,
    id: StackChannelId,
    data: Seq<u8>,
    after: Rtc,
) -> bool;

/// What comes of writing to a data channel of a stack.
pub uninterp spec fn write_outcome(
    rtc: Rtc,
    id: StackChannelId,
    data: Seq<u8>,
) -> WriteOutcome;

/// `Rtc::channel` of `str0m` and `Channel::write`, of binary data: what comes of it depends on
/// nothing but these. A stack that no longer works has no channels.
#[verifier::external_body]
fn write_channel(rtc: &mut Rtc, id: &StackChannelId, data: &[u8]) -> (r: Written)
    ensures
        r@ == write_outcome(*old(rtc), *id, data@),
        can_write(*old(rtc), *id, data@, *final(rtc)),
        alive(*final(rtc)) == alive(*old(rtc)),
        lite(*final(rtc)) == lite(*old(rtc)),
        !alive(*old(rtc)) ==> r is NoChannel,
{
    match rtc.channel(*id).map(|mut channel| channel.write(true, data)) {
        None => Written::NoChannel,
        Some(Ok(len)) => Written::Taken(len),
        Some(Err(e)) => Written::Failed(e.to_string()),
    }
}

/// What a stack becomes when it is told to close a data channel.
pub uninterp spec fn closing(rtc: Rtc, id: StackChannelId) -> Rtc;

/// `DirectApi::close_data_channel` of `str0m`: the channel is closed when the stack is polled next,
/// where there is one. What the stack becomes depends on nothing but these.
#[verifier::external_body]
fn close_data_channel(rtc: &mut Rtc, id: &StackChannelId)
    ensures
        *final(rtc) == closing(*old(rtc), *id),
        alive(*final(rtc)) == alive(*old(rtc)),
        lite(*final(rtc)) == lite(*old(rtc)),
{
    rtc.direct_api().close_data_channel(*id)
}

/// What a stack for `client` is set up with, when the digest of this side's certificate is `digest`.
pub open spec fn expected_setup(client: RtcClient, digest: Seq<u8>) -> Setup {
    Setup {
        ice_lite: client.ice_lite,
        certificate: digest,
        local_candidate: Some((client.local_candidate.ip, client.local_candidate.port)),
        remote_candidate: Some((client.remote_candidate.ip, client.remote_candidate.port)),
        remote_fingerprint: Some(client.remote_fingerprint@),
        remote_credentials: match client.remote_credentials {
            Some(creds) => Some((creds.ufrag@, creds.pass@)),
            None => None,
        },
        local_credentials: Some(
            (client.local_credentials.ufrag@, client.local_credentials.pass@),
        ),
        ice_controlling: Some(client.ice_controlling),
        dtls_active: Some(client.dtls_active),
        sctp_client: Some(client.sctp_client),
        channels: match client.noise_channel {
            Some(c) => seq![(c.label@, c.ordered, c.negotiated, c.protocol@)],
            None => seq![],
        },
    }
}

/// The numbers of data channels: each has that of its place in the order in which they were seen.
pub open spec fn number_of(ids: Seq<StackChannelId>, id: StackChannelId) -> int {
    if ids.contains(id) {
        ids.index_of(id)
    } else {
        ids.len() as int
    }
}

/// The channels once `id` was seen.
pub open spec fn seen(ids: Seq<StackChannelId>, id: StackChannelId) -> Seq<StackChannelId> {
    if ids.contains(id) {
        ids
    } else {
        ids.push(id)
    }
}

/// The endpoint `addr`; that of the remote with flow label and scope.
pub open spec fn full_address(remote: SocketAddr, addr: SocketAddr) -> SocketAddr {
    if remote.ip == addr.ip && remote.port == addr.port {
        remote
    } else {
        addr
    }
}

/// An output of the stack, with numbers for its channels.
#[derive(Debug, PartialEq, Eq)]
pub enum Polled {
    /// The stack failed.
    Failed,
    /// A datagram to send.
    Transmit { destination: SocketAddr, contents: Vec<u8> },
    /// When the stack wants to be handed the time.
    Timeout(Instant),
    /// The ICE connection is lost.
    IceDisconnected,
    /// ICE and DTLS are up.
    Connected,
    /// A data channel has opened.
    ChannelOpen(ChannelId),
    /// Data arrived on a channel.
    ChannelData { id: ChannelId, data: Vec<u8> },
    /// A data channel has closed.
    ChannelClose(ChannelId),
    /// Anything else.
    Other,
}

/// The channel that an output of the stack is about.
pub open spec fn stack_channel(output: StackOutput) -> Option<StackChannelId> {
    match output {
        StackOutput::ChannelOpen(id) => Some(id),
        StackOutput::ChannelData(id, _) => Some(id),
        StackOutput::ChannelClose(id) => Some(id),
        _ => None,
    }
}

/// What an output of the stack is, when the channels are these and the remote is there.
pub open spec fn is_polled(
    ids: Seq<StackChannelId>,
    remote: SocketAddr,
    output: StackOutput,
    r: Polled,
) -> bool {
    match output {
        StackOutput::Failed => r == Polled::Failed,
        StackOutput::Transmit { destination, contents } => r == (Polled::Transmit {
            destination: full_address(remote, destination),
            contents,
        }),
        StackOutput::Timeout(at) => r == Polled::Timeout(at),
        StackOutput::IceDisconnected => r == Polled::IceDisconnected,
        StackOutput::Connected => r == Polled::Connected,
        StackOutput::ChannelOpen(id) => r matches Polled::ChannelOpen(n) && n == number_of(
            ids,
            id,
        ),
        StackOutput::ChannelData(id, received) => r matches Polled::ChannelData { id: n, data }
            && n == number_of(ids, id) && data == received,
        StackOutput::ChannelClose(id) => r matches Polled::ChannelClose(n) && n == number_of(
            ids,
            id,
        ),
        StackOutput::Other => r == Polled::Other,
    }
}

/// The channels once this output was read.
pub open spec fn ids_after(ids: Seq<StackChannelId>, output: StackOutput) -> Seq<StackChannelId> {
    match stack_channel(output) {
        Some(id) => seen(ids, id),
        None => ids,
    }
}

/// A stack that is handed a datagram can become `after`, and say this of it. One of media is of no
/// use to a stack without media, which is handed the present in its place.
pub open spec fn can_take(
    before: Rtc,
    source: SocketAddr,
    destination: SocketAddr,
    datagram: Seq<u8>,
    after: Rtc,
    said: Option<Seq<char>>,
) -> bool {
    if is_media(datagram) {
        can_elapse(before, after, said)
    } else {
        can_receive(
            before,
            (source.ip, source.port),
            (destination.ip, destination.port),
            datagram,
            after,
            said,
        )
    }
}

/// What came of handing a datagram to the stack.
#[derive(Debug, PartialEq, Eq)]
pub enum Received {
    /// The stack took it.
    Taken,
    /// It is DTLS: hand it to the stack, and report what came of it to [`RtcStack::handed_over`].
    HandOver,
    /// It is not one that can be multiplexed, for this reason.
    Rejected(String),
    /// It is one that the stack would not survive: one that is too long, STUN that cannot be read to
    /// its end, or a binding indication without a user name.
    Unusable,
    /// The stack failed on it, with what it said.
    Failed(String),
}

/// The stack would not survive the datagram.
pub open spec fn unusable(datagram: Seq<u8>) -> bool {
    if datagram.len() > RECEIVE_MTU {
        true
    } else if looks_like_stun(datagram) && !decodable(datagram) {
        true
    } else {
        recognised(datagram, stun_message(datagram) is Some) && nameless_indication(
            datagram,
            stun_message(datagram),
        )
    }
}

/// The WebRTC stack of a connection.
pub struct RtcStack {
    rtc: Rtc,
    clock: Clock,
    remote: SocketAddr,
    expected: Fingerprint,
    ids: Vec<StackChannelId>,
}

impl RtcStack {
    /// What the stack was set up with.
    pub closed spec fn setup(&self) -> Setup {
        setup(self.rtc)
    }

    /// The stack itself.
    pub closed spec fn inner(&self) -> Rtc {
        self.rtc
    }

    /// The stack still works.
    pub closed spec fn alive(&self) -> bool {
        alive(self.rtc)
    }

    /// The data channels that were seen.
    pub closed spec fn ids(&self) -> Seq<StackChannelId> {
        self.ids@
    }

    /// Where the remote is.
    pub closed spec fn remote(&self) -> SocketAddr {
        self.remote
    }

    /// The clock on which the stack's times are.
    pub closed spec fn clock(&self) -> Clock {
        self.clock
    }

    /// The digest that the remote's certificate has to have.
    pub closed spec fn expected(&self) -> Seq<u8> {
        self.expected@
    }

    /// The stack takes a datagram from one endpoint to another for its own.
    pub closed spec fn takes(
        &self,
        source: SocketAddr,
        destination: SocketAddr,
        datagram: Seq<u8>,
    ) -> bool {
        accepted(
            self.rtc,
            (source.ip, source.port),
            (destination.ip, destination.port),
            datagram,
        )
    }

    /// What the stack tells of the remote's certificate.
    pub closed spec fn told(&self) -> Option<(Seq<char>, Seq<u8>)> {
        told_fingerprint(self.rtc)
    }

    /// What comes of writing to the data channel with this number.
    pub closed spec fn outcome(&self, id: ChannelId, data: Seq<u8>) -> WriteOutcome {
        if id < self.ids@.len() {
            write_outcome(self.rtc, self.ids@[id as int], data)
        } else {
            WriteOutcome::NoChannel
        }
    }

    /// Nothing but the numbers of channels may differ.
    pub closed spec fn same_stack(&self, other: &RtcStack) -> bool {
        &&& self.rtc == other.rtc
        &&& self.clock == other.clock
        &&& self.remote == other.remote
        &&& self.expected == other.expected
    }

    /// Handed a datagram, the stack can become `after` and say this of it. One that complains is
    /// disconnected.
    pub closed spec fn receives(
        &self,
        source: SocketAddr,
        destination: SocketAddr,
        datagram: Seq<u8>,
        after: &RtcStack,
        said: Option<Seq<char>>,
    ) -> bool {
        &&& *after == (RtcStack { rtc: after.rtc, ..*self })
        &&& if said is None {
            can_take(self.rtc, source, destination, datagram, after.rtc, said)
        } else {
            &&& !alive(after.rtc)
            &&& exists|failed: Rtc| #[trigger]
                can_take(self.rtc, source, destination, datagram, failed, said)
        }
    }

    /// Handed the present, the stack can become `after` and say this of it.
    pub closed spec fn elapses(&self, after: &RtcStack, said: Option<Seq<char>>) -> bool {
        &&& *after == (RtcStack { rtc: after.rtc, ..*self })
        &&& can_elapse(self.rtc, after.rtc, said)
    }

    /// An output of the stack reads like this, and leaves the stack as `after`: one that failed is
    /// disconnected.
    pub open spec fn reads(&self, output: StackOutput, r: Polled, after: &RtcStack) -> bool {
        &&& is_polled(self.ids(), self.remote(), output, r)
        &&& after.ids() == ids_after(self.ids(), output)
        &&& if output is Failed {
            !after.alive() && after.same_numbers(self)
        } else {
            after.same_stack(self)
        }
    }

    /// What came of handing DTLS over leaves the stack as `after`: one that failed on it is
    /// disconnected.
    pub open spec fn took_over(&self, result: Result<(), String>, after: &RtcStack) -> bool {
        if result is Ok {
            *after == *self
        } else {
            !after.alive() && after.same_numbers(self)
        }
    }

    /// The stack was handed the present, and is `after` now: one that failed on it (not `taken`) was
    /// disconnected.
    pub open spec fn fed_time(&self, taken: bool, after: &RtcStack) -> bool {
        if taken {
            self.elapses(after, None)
        } else {
            &&& !after.alive()
            &&& after.same_numbers(self)
            &&& exists|failed: RtcStack, text: Seq<char>| #[trigger]
                self.elapses(&failed, Some(text))
        }
    }

    /// A datagram that the stack can be handed and that it takes for its own.
    pub open spec fn wants(
        &self,
        source: SocketAddr,
        destination: SocketAddr,
        datagram: Seq<u8>,
    ) -> bool {
        &&& !unusable(datagram)
        &&& recognised(datagram, stun_message(datagram) is Some)
        &&& self.takes(source, destination, datagram)
    }

    /// The stack works, was just set up for `client`, with a certificate of this digest, and knows
    /// no channel but the one for the Noise handshake, where there is one.
    pub open spec fn serves(&self, client: RtcClient, digest: Seq<u8>) -> bool {
        &&& self.inv()
        &&& self.alive()
        &&& self.setup() == expected_setup(client, digest)
        &&& self.remote() == client.remote_candidate
        &&& self.expected() == client.remote_fingerprint@
        &&& self.ids().len() == expected_setup(client, digest).channels.len()
    }

    /// The stack with these bytes written, once, to the data channel with this number can be
    /// `after`; one without such a channel stays as it is.
    pub closed spec fn writes(&self, id: ChannelId, data: Seq<u8>, after: &RtcStack) -> bool {
        &&& *after == (RtcStack { rtc: after.rtc, ..*self })
        &&& if id < self.ids@.len() {
            can_write(self.rtc, self.ids@[id as int], data, after.rtc)
        } else {
            after.rtc == self.rtc
        }
    }

    /// What the stack becomes when it is told to close the data channel with this number.
    pub closed spec fn closes(&self, id: ChannelId, after: &RtcStack) -> bool {
        &&& *after == (RtcStack { rtc: after.rtc, ..*self })
        &&& after.rtc == (if id < self.ids@.len() {
            closing(self.rtc, self.ids@[id as int])
        } else {
            self.rtc
        })
    }

    /// The stack is one of ICE lite.
    pub closed spec fn lite(&self) -> bool {
        lite(self.rtc)
    }

    /// No data channel has two numbers, and the stack is one of ICE lite.
    pub open spec fn inv(&self) -> bool {
        &&& self.ids().no_duplicates()
        &&& self.lite()
    }

    /// The stack is one of the same connection, with the same numbers.
    pub open spec fn same_numbers(&self, other: &RtcStack) -> bool {
        &&& self.ids() == other.ids()
        &&& self.remote() == other.remote()
        &&& self.expected() == other.expected()
        &&& self.clock() == other.clock()
    }

    /// Sets a stack up for a connection, with this certificate; returns it with the number of its
    /// channel for the Noise handshake, where it has one.
    pub fn set_up(client: &RtcClient, cert: DtlsCert, clock: Clock) -> (r: (
        RtcStack,
        Option<ChannelId>,
    ))
        requires
            client.ice_lite,
            client.local_candidate.ip.candidate(),
            client.remote_candidate.ip.candidate(),
            !client.dtls_active,
            !client.sctp_client,
        ensures
            r.0.serves(*client, dtls_digest(cert)),
            r.0.clock() == clock,
            r.1 == (if client.noise_channel is Some {
                Some(0u64)
            } else {
                None
            }),
    {
        let mut rtc = build(client.ice_lite, client.fingerprint_verification, cert);
        add_local_candidate(&mut rtc, client.local_candidate.ip, client.local_candidate.port);
        add_remote_candidate(&mut rtc, client.remote_candidate.ip, client.remote_candidate.port);
        set_remote_fingerprint(&mut rtc, client.remote_fingerprint.to_bytes());
        if let Some(creds) = &client.remote_credentials {
            set_remote_ice_credentials(&mut rtc, creds.ufrag.as_str(), creds.pass.as_str());
        }
        set_local_ice_credentials(
            &mut rtc,
            client.local_credentials.ufrag.as_str(),
            client.local_credentials.pass.as_str(),
        );
        set_ice_controlling(&mut rtc, client.ice_controlling);
        let _ = start_dtls(&mut rtc, client.dtls_active);
        start_sctp(&mut rtc, client.sctp_client);
        let mut ids: Vec<StackChannelId> = Vec::new();
        let channel: Option<ChannelId> = match &client.noise_channel {
            Some(config) => {
                ids.push(create_data_channel(&mut rtc, config));
                Some(0)
            },
            None => None,
        };
        proof {
            let expected = expected_setup(*client, dtls_digest(cert));
            assert(setup(rtc).channels =~= expected.channels);
        }
        let remote = client.remote_candidate;
        let expected = client.remote_fingerprint;
        (RtcStack { rtc, clock, remote, expected, ids }, channel)
    }

    /// The number of a data channel; one that was not seen yet gets the next.
    fn number(&mut self, id: StackChannelId) -> (r: ChannelId)
        requires
            old(self).inv(),
        ensures
            final(self).inv(),
            r == number_of(old(self).ids(), id),
            final(self).ids() == seen(old(self).ids(), id),
            final(self).same_stack(old(self)),
    {
        let mut i: usize = 0;
        while i < self.ids.len()
            invariant
                *self == *old(self),
                old(self).inv(),
                i <= self.ids@.len(),
                forall|j: int| 0 <= j < i ==> self.ids@[j] != id,
            decreases self.ids@.len() - i,
        {
            if same_channel(&self.ids[i], &id) {
                assert(self.ids().index_of(id) == i) by {
                    assert(self.ids@[i as int] == id);
                }
                return i as u64;
            }
            i += 1;
        }
        self.ids.push(id);
        i as u64
    }

    /// The stack itself, to poll it and to hand DTLS over. Nothing that its methods do makes it
    /// another than one of ICE lite.
    pub fn stack(&mut self) -> (r: &mut Rtc)
        ensures
            *r == old(self).inner(),
            *final(r) == final(self).inner(),
            alive(*final(r)) == final(self).alive(),
            final(self).same_numbers(old(self)),
            old(self).inv() && lite(*final(r)) ==> final(self).inv(),
    {
        &mut self.rtc
    }

    /// Reads an output of the stack. One that fails is disconnected.
    pub fn on_output(&mut self, output: StackOutput) -> (r: Polled)
        requires
            old(self).inv(),
        ensures
            final(self).inv(),
            old(self).reads(output, r, final(self)),
            final(self).alive() == (old(self).alive() && !(output is Failed)),
            final(self).remote() == old(self).remote(),
            final(self).expected() == old(self).expected(),
            final(self).clock() == old(self).clock(),
            old(self).ids().is_prefix_of(final(self).ids()),
    {
        match output {
            StackOutput::Failed => {
                disconnect(&mut self.rtc);
                Polled::Failed
            },
            StackOutput::Transmit { destination, contents } => {
                let remote = self.remote;
                let destination = if remote.ip == destination.ip && remote.port == destination.port {
                    remote
                } else {
                    destination
                };
                Polled::Transmit { destination, contents }
            },
            StackOutput::Timeout(at) => Polled::Timeout(at),
            StackOutput::IceDisconnected => Polled::IceDisconnected,
            StackOutput::Connected => Polled::Connected,
            StackOutput::ChannelOpen(id) => Polled::ChannelOpen(self.number(id)),
            StackOutput::ChannelData(id, data) => {
                let id: ChannelId = self.number(id);
                Polled::ChannelData { id, data }
            },
            StackOutput::ChannelClose(id) => Polled::ChannelClose(self.number(id)),
            StackOutput::Other => Polled::Other,
        }
    }

    /// Takes what came of handing DTLS to the stack; an error holds what the stack said. One that
    /// failed on it is disconnected.
    pub fn handed_over(&mut self, result: Result<(), String>) -> (r: Received)
        ensures
            old(self).took_over(result, final(self)),
            old(self).inv() ==> final(self).inv(),
            r == (match result {
                Ok(()) => Received::Taken,
                Err(text) => Received::Failed(text),
            }),
    {
        match result {
            Ok(()) => Received::Taken,
            Err(text) => {
                disconnect(&mut self.rtc);
                Received::Failed(text)
            },
        }
    }

    /// What the clock of the stack shows now.
    pub fn now(&self) -> (r: Instant)
        ensures
            self.clock().shows(r),
    {
        self.clock.now()
    }

    /// What the clock of the stack shows at an instant of the system's.
    pub fn at(&self, instant: &std::time::Instant) -> (r: Instant)
        ensures
            r == self.clock().showing(*instant),
    {
        self.clock.at(instant)
    }

    /// Whether the stack still works.
    pub fn is_alive(&self) -> (r: bool)
        ensures
            r == self.alive(),
    {
        is_alive(&self.rtc)
    }

    /// Disconnects the stack.
    pub fn disconnect(&mut self)
        ensures
            !final(self).alive(),
            final(self).same_numbers(old(self)),
            old(self).inv() ==> final(self).inv(),
    {
        disconnect(&mut self.rtc)
    }

    /// Hands the present to the stack; an error holds what it said.
    pub fn handle_timeout(&mut self) -> (r: Result<(), String>)
        requires
            old(self).inv(),
        ensures
            final(self).inv(),
            old(self).elapses(final(self), complaint(r)),
            final(self).same_numbers(old(self)),
            !old(self).alive() ==> r is Ok && !final(self).alive(),
    {
        handle_timeout(&mut self.rtc)
    }

    /// Hands the present to the stack, and disconnects a stack that fails on it; returns whether it
    /// did not.
    pub fn feed_timeout(&mut self) -> (taken: bool)
        requires
            old(self).inv(),
        ensures
            final(self).inv(),
            old(self).fed_time(taken, final(self)),
            final(self).same_numbers(old(self)),
            !old(self).alive() ==> taken && !final(self).alive(),
    {
        match self.handle_timeout() {
            Ok(()) => true,
            Err(text) => {
                let ghost failed = *self;
                assert(old(self).elapses(&failed, Some(text@)));
                self.disconnect();
                false
            },
        }
    }

    /// Whether the stack can be handed the datagram; if not, what to say.
    fn usable(datagram: &[u8]) -> (r: Option<Received>)
        ensures
            match r {
                None => {
                    &&& looks_like_stun(datagram@) ==> decodable(datagram@)
                    &&& !unusable(datagram@)
                    &&& recognised(datagram@, stun_message(datagram@) is Some)
                },
                Some(Received::Unusable) => unusable(datagram@),
                Some(Received::Rejected(text)) => {
                    &&& !unusable(datagram@)
                    &&& !recognised(datagram@, stun_message(datagram@) is Some)
                    &&& text@ == rejection(datagram@, stun_rejection(datagram@))
                },
                Some(_) => false,
            },
    {
        if datagram.len() > RECEIVE_MTU {
            return Some(Received::Unusable);
        }
        if is_stun_packet(datagram) && !is_decodable(datagram) {
            return Some(Received::Unusable);
        }
        match crate::stun::take_datagram(datagram) {
            Err(text) => Some(Received::Rejected(text)),
            Ok(()) => {
                if is_stun_packet(datagram) && datagram[0] == 0 && datagram[1] == 0x11 {
                    if let Some(stun) = crate::stun::parse_stun(datagram) {
                        if stun.username.is_none() {
                            return Some(Received::Unusable);
                        }
                    }
                }
                None
            },
        }
    }

    /// Hands a datagram to the stack, unless that is one that the stack cannot be handed, or DTLS,
    /// which is to be handed over. A stack that fails on it is disconnected. Of one of media only the
    /// time of its arrival matters.
    pub fn receive(&mut self, source: SocketAddr, destination: SocketAddr, datagram: &[u8]) -> (r:
        Received)
        requires
            old(self).inv(),
        ensures
            final(self).inv(),
            final(self).same_numbers(old(self)),
            !old(self).alive() ==> !final(self).alive(),
            match r {
                Received::Unusable => unusable(datagram@),
                Received::Rejected(text) => {
                    &&& !unusable(datagram@)
                    &&& !recognised(datagram@, stun_message(datagram@) is Some)
                    &&& text@ == rejection(datagram@, stun_rejection(datagram@))
                },
                Received::HandOver => !unusable(datagram@) && is_dtls(datagram@),
                Received::Taken => {
                    &&& !unusable(datagram@)
                    &&& recognised(datagram@, stun_message(datagram@) is Some)
                    &&& !is_dtls(datagram@)
                    &&& old(self).receives(source, destination, datagram@, final(self), None)
                },
                Received::Failed(text) => {
                    &&& !unusable(datagram@)
                    &&& recognised(datagram@, stun_message(datagram@) is Some)
                    &&& !is_dtls(datagram@)
                    &&& old(self).receives(
                        source,
                        destination,
                        datagram@,
                        final(self),
                        Some(text@),
                    )
                },
            },
            r is Unusable || r is Rejected || r is HandOver ==> *final(self) == *old(self),
            r is Failed ==> old(self).alive() && !final(self).alive(),
    {
        if let Some(refusal) = RtcStack::usable(datagram) {
            return refusal;
        }
        let from = (source.ip, source.port);
        let to = (destination.ip, destination.port);
        let fed = if is_stun_packet(datagram) {
            handle_stun(&mut self.rtc, from, to, datagram)
        } else if carries_media(datagram) {
            handle_timeout(&mut self.rtc)
        } else {
            return Received::HandOver;
        };
        match fed {
            Ok(()) => Received::Taken,
            Err(text) => {
                let ghost failed = self.rtc;
                let ghost said = Some(text@);
                assert(can_take(old(self).rtc, source, destination, datagram@, failed, said));
                disconnect(&mut self.rtc);
                Received::Failed(text)
            },
        }
    }

    /// Whether a datagram is meant for this stack: none that it cannot be handed is.
    pub fn accepts(&self, source: SocketAddr, destination: SocketAddr, datagram: &[u8]) -> (r: bool)
        ensures
            r == self.wants(source, destination, datagram@),
    {
        if let Some(_) = RtcStack::usable(datagram) {
            return false;
        }
        let from = (source.ip, source.port);
        let to = (destination.ip, destination.port);
        accepts(&self.rtc, from, to, datagram)
    }

    /// The fingerprint of the certificate of a remote with which the DTLS handshake is over: what
    /// the stack tells of it, or else the one that it had to have.
    pub fn certified(&self, told: Option<RtcFingerprint>) -> (r: Option<Fingerprint>)
        ensures
            match told {
                Some(fp) => if fp.is_sha256() {
                    r matches Some(f) && f@ == fp.bytes@
                } else {
                    r is None
                },
                None => r matches Some(f) && f@ == self.expected(),
            },
    {
        match told {
            Some(fp) => Fingerprint::try_from_rtc_dtls(&fp),
            None => Some(self.expected),
        }
    }

    /// The fingerprint of the certificate of a remote with which the DTLS handshake is over, where
    /// it is a SHA-256 digest.
    pub fn remote_fingerprint(&mut self) -> (r: Option<Fingerprint>)
        ensures
            *final(self) == *old(self),
            match old(self).told() {
                Some((hash_func, bytes)) => if hash_func == "sha-256"@ && bytes.len() == 32 {
                    r matches Some(f) && f@ == bytes
                } else {
                    r is None
                },
                None => r matches Some(f) && f@ == old(self).expected(),
            },
    {
        let told = remote_dtls_fingerprint(&mut self.rtc);
        self.certified(told)
    }

    /// Writes to a data channel. A channel that was never seen is none, and a stack that no longer
    /// works has none.
    pub fn write(&mut self, id: ChannelId, data: &[u8]) -> (r: Written)
        ensures
            old(self).writes(id, data@, final(self)),
            final(self).same_numbers(old(self)),
            final(self).alive() == old(self).alive(),
            old(self).inv() ==> final(self).inv(),
            r@ == old(self).outcome(id, data@),
            id >= old(self).ids().len() || !old(self).alive() ==> r is NoChannel,
    {
        if id >= self.ids.len() as u64 {
            return Written::NoChannel;
        }
        write_channel(&mut self.rtc, &self.ids[id as usize], data)
    }

    /// Closes a data channel, where there is one.
    pub fn close_channel(&mut self, id: ChannelId)
        ensures
            old(self).closes(id, final(self)),
            final(self).same_numbers(old(self)),
            final(self).alive() == old(self).alive(),
            old(self).inv() ==> final(self).inv(),
            id >= old(self).ids().len() ==> *final(self) == *old(self),
    {
        if id < self.ids.len() as u64 {
            close_data_channel(&mut self.rtc, &self.ids[id as usize]);
        }
    }
}

/// A channel keeps its number, whatever else is seen: the same channel gives the same number again,
/// and two channels never have the same.
pub proof fn law_channel_numbers_are_stable(
    ids: Seq<StackChannelId>,
    a: StackChannelId,
    b: StackChannelId,
)
    requires
        ids.no_duplicates(),
    ensures
        seen(ids, a).no_duplicates(),
        number_of(seen(seen(ids, a), b), a) == number_of(ids, a),
        number_of(seen(ids, a), b) == number_of(ids, a) ==> a == b,
{
    let once = seen(ids, a);
    let twice = seen(once, b);
    let n = number_of(ids, a);
    assert(once[n] == a);
    assert(twice[n] == a);
    assert(once.no_duplicates());
    assert(twice.no_duplicates());
    assert(twice.contains(a));
    let m = number_of(once, b);
    if m == n {
        assert(once.contains(b));
        assert(once[m] == b);
    }
}

/// A stack that was handed a message from `source` to `destination` can be `after`, and say this of
/// it.
pub open spec fn was_handed(
    before: Rtc,
    source: SocketAddr,
    destination: SocketAddr,
    datagram: Seq<u8>,
    after: Rtc,
    said: Option<Seq<char>>,
) -> bool {
    can_receive(
        before,
        (source.ip, source.port),
        (destination.ip, destination.port),
        datagram,
        after,
        said,
    )
}

/// What a stack is handed is the datagram as it is, from where it came to where it went; one of
/// media is the present only. The stack keeps its remote, its clock, the certificate that it expects
/// and the numbers of its channels, and one that complains works no longer.
pub proof fn law_stacks_are_handed_what_came(
    before: RtcStack,
    source: SocketAddr,
    destination: SocketAddr,
    datagram: Seq<u8>,
    after: RtcStack,
    said: Option<Seq<char>>,
)
    requires
        before.receives(source, destination, datagram, &after, said),
    ensures
        after.remote() == before.remote(),
        after.clock() == before.clock(),
        after.expected() == before.expected(),
        after.ids() == before.ids(),
        said is Some ==> !after.alive(),
        ({
            let media = datagram.len() > 2 && 128 <= datagram[0] < 192;
            if said is None {
                if media {
                    can_elapse(before.inner(), after.inner(), None)
                } else {
                    was_handed(before.inner(), source, destination, datagram, after.inner(), None)
                }
            } else if media {
                exists|failed: Rtc| #[trigger] can_elapse(before.inner(), failed, said)
            } else {
                exists|failed: Rtc| #[trigger]
                    was_handed(before.inner(), source, destination, datagram, failed, said)
            }
        }),
{
    if said is Some {
        let failed = choose|failed: Rtc| #[trigger]
            can_take(before.rtc, source, destination, datagram, failed, said);
        if is_media(datagram) {
            assert(can_elapse(before.inner(), failed, said));
        } else {
            assert(was_handed(before.inner(), source, destination, datagram, failed, said));
        }
    }
}

/// Whether a stack takes a datagram for its own is asked of the datagram as it is, from where it
/// came to where it went; one that it would not survive, or that cannot be multiplexed, is none of
/// its.
pub proof fn law_stacks_are_asked_of_what_came(
    stack: RtcStack,
    source: SocketAddr,
    destination: SocketAddr,
    datagram: Seq<u8>,
)
    ensures
        stack.wants(source, destination, datagram) ==> {
            &&& accepted(
                stack.inner(),
                (source.ip, source.port),
                (destination.ip, destination.port),
                datagram,
            )
            &&& 0 < datagram.len() <= 8192
            &&& datagram[0] < 2 || 20 <= datagram[0] < 64 || 128 <= datagram[0] < 192
        },
        is_dtls(datagram) && datagram.len() <= 8192 ==> stack.wants(source, destination, datagram)
            == accepted(
            stack.inner(),
            (source.ip, source.port),
            (destination.ip, destination.port),
            datagram,
        ),
{
}

/// The stack would not survive what is longer than 8192 bytes, what starts as STUN does and cannot
/// be read to its end, and a binding indication without a user name; it survives anything else.
pub proof fn law_what_a_stack_would_not_survive(datagram: Seq<u8>)
    ensures
        datagram.len() > 8192 ==> unusable(datagram),
        datagram.len() >= 20 && datagram[0] < 2 && !decodable(datagram) ==> unusable(datagram),
        datagram.len() >= 20 && datagram[0] == 0 && datagram[1] == 0x11 && stun_message(datagram)
            == Some(None::<(Seq<char>, Seq<char>)>) ==> unusable(datagram),
        unusable(datagram) ==> datagram.len() > 8192 || datagram.len() >= 20 && datagram[0] < 2 && (
        !decodable(datagram) || datagram[0] == 0 && datagram[1] == 0x11 && stun_message(datagram)
            == Some(None::<(Seq<char>, Seq<char>)>)),
{
}

/// A stack is set up with exactly what it was asked for, and with this certificate: its own address
/// as the local candidate and the remote's as the other, the fingerprint to expect, the credentials
/// of either side, the roles and the channel for the Noise handshake. It works, and knows as many
/// channels as it has.
pub proof fn law_stacks_are_set_up_as_asked(stack: RtcStack, client: RtcClient, digest: Seq<u8>)
    requires
        stack.serves(client, digest),
    ensures
        stack.alive(),
        stack.remote() == client.remote_candidate,
        stack.expected() == client.remote_fingerprint@,
        ({
            let with = stack.setup();
            &&& with.ice_lite == client.ice_lite
            &&& with.certificate == digest
            &&& with.local_candidate == Some(
                (client.local_candidate.ip, client.local_candidate.port),
            )
            &&& with.remote_candidate == Some(
                (client.remote_candidate.ip, client.remote_candidate.port),
            )
            &&& with.remote_fingerprint == Some(client.remote_fingerprint@)
            &&& with.remote_credentials is Some <==> client.remote_credentials is Some
            &&& client.remote_credentials matches Some(creds) ==> with.remote_credentials == Some(
                (creds.ufrag@, creds.pass@),
            )
            &&& with.local_credentials == Some(
                (client.local_credentials.ufrag@, client.local_credentials.pass@),
            )
            &&& with.ice_controlling == Some(client.ice_controlling)
            &&& with.dtls_active == Some(client.dtls_active)
            &&& with.sctp_client == Some(client.sctp_client)
            &&& client.noise_channel is None ==> with.channels.len() == 0
            &&& client.noise_channel matches Some(channel) ==> {
                &&& with.channels.len() == 1
                &&& with.channels[0] == (
                    channel.label@,
                    channel.ordered,
                    channel.negotiated,
                    channel.protocol@,
                )
            }
            &&& stack.ids().len() == with.channels.len()
        }),
{
}

/// An output of the stack is read as it is. A datagram goes where the stack says, with its bytes;
/// only to the remote it goes with flow label and scope. What is told of a channel is told of the
/// number under which the channel is known from then on. Nothing but a failure changes the stack,
/// which then works no longer.
pub proof fn law_outputs_are_read_as_they_are(
    before: RtcStack,
    output: StackOutput,
    r: Polled,
    after: RtcStack,
)
    requires
        before.inv(),
        before.reads(output, r, &after),
    ensures
        after.remote() == before.remote(),
        after.clock() == before.clock(),
        after.expected() == before.expected(),
        before.ids().is_prefix_of(after.ids()),
        output is Failed ==> r is Failed && !after.alive(),
        !(output is Failed) ==> after.inner() == before.inner() && after.alive() == before.alive(),
        output is IceDisconnected <==> r is IceDisconnected,
        output is Connected <==> r is Connected,
        output is Other <==> r is Other,
        output is Failed <==> r is Failed,
        output matches StackOutput::Timeout(at) ==> r == Polled::Timeout(at),
        output matches StackOutput::Transmit { destination, contents } ==> r == (Polled::Transmit {
            destination: if destination.ip == before.remote().ip && destination.port
                == before.remote().port {
                before.remote()
            } else {
                destination
            },
            contents,
        }),
        output matches StackOutput::ChannelOpen(id) ==> (r matches Polled::ChannelOpen(n) && n
            < after.ids().len() && after.ids()[n as int] == id),
        output matches StackOutput::ChannelData(id, received) ==> (r matches Polled::ChannelData {
            id: n,
            data,
        } && n < after.ids().len() && after.ids()[n as int] == id && data == received),
        output matches StackOutput::ChannelClose(id) ==> (r matches Polled::ChannelClose(n) && n
            < after.ids().len() && after.ids()[n as int] == id),
        !(output is ChannelOpen || output is ChannelData || output is ChannelClose) ==> after.ids()
            == before.ids(),
{
    match stack_channel(output) {
        Some(id) => {
            let n = number_of(before.ids(), id);
            assert(after.ids()[n] == id);
        },
        None => {},
    }
}

/// What is written, or closed, is the channel with the number, and with the bytes given; what comes
/// of it is what the stack makes of that. Where there is no such channel the stack is left alone.
pub proof fn law_channels_are_told_by_their_numbers(
    before: RtcStack,
    id: ChannelId,
    data: Seq<u8>,
    written: RtcStack,
    closed: RtcStack,
)
    requires
        before.writes(id, data, &written),
        before.closes(id, &closed),
    ensures
        written.ids() == before.ids() && closed.ids() == before.ids(),
        written.remote() == before.remote() && closed.remote() == before.remote(),
        if id < before.ids().len() {
            &&& can_write(before.inner(), before.ids()[id as int], data, written.inner())
            &&& before.outcome(id, data) == write_outcome(
                before.inner(),
                before.ids()[id as int],
                data,
            )
            &&& closed.inner() == closing(before.inner(), before.ids()[id as int])
        } else {
            &&& written == before
            &&& before.outcome(id, data) is NoChannel
            &&& closed == before
        },
{
}

/// A stack that takes the present becomes what a stack can that was handed it; one that fails on it,
/// or on what was handed over to it, works no longer. Whatever comes of it the stack keeps its remote,
/// its clock, the certificate that it expects and the numbers of its channels.
pub proof fn law_failures_disconnect(
    before: RtcStack,
    taken: bool,
    fed: RtcStack,
    result: Result<(), String>,
    handed: RtcStack,
)
    requires
        before.fed_time(taken, &fed),
        before.took_over(result, &handed),
    ensures
        taken ==> can_elapse(before.inner(), fed.inner(), None),
        !taken ==> !fed.alive() && exists|failed: Rtc, text: Seq<char>| #[trigger]
            can_elapse(before.inner(), failed, Some(text)),
        result is Ok ==> handed == before,
        result is Err ==> !handed.alive(),
        fed.same_numbers(&before),
        handed.same_numbers(&before),
{
    if !taken {
        let (failed, text) = choose|failed: RtcStack, text: Seq<char>| #[trigger]
            before.elapses(&failed, Some(text));
        assert(can_elapse(before.inner(), failed.inner(), Some(text)));
    }
}

/// Stacks that are the same inside tell the same of the remote's certificate.
pub proof fn lemma_same_stack_tells_the_same(a: RtcStack, b: RtcStack)
    requires
        a.inner() == b.inner(),
    ensures
        a.told() == b.told(),
{
}

/// Setting a stack up for a client gives one that has the client's addresses, certificate, fingerprint
/// and channel, as asked, on this clock; its channel for the Noise handshake, where it has one, has
/// the number zero.
pub proof fn law_set_up_stacks_are_as_asked(
    client: &RtcClient,
    cert: DtlsCert,
    clock: Clock,
    r: (RtcStack, Option<ChannelId>),
)
    requires
        call_ensures(RtcStack::set_up, (client, cert, clock), r),
    ensures
        r.0.alive(),
        r.0.clock() == clock,
        r.0.remote() == client.remote_candidate,
        r.0.expected() == client.remote_fingerprint@,
        r.0.setup().certificate == dtls_digest(cert),
        r.0.setup().local_candidate == Some(
            (client.local_candidate.ip, client.local_candidate.port),
        ),
        r.0.setup().remote_candidate == Some(
            (client.remote_candidate.ip, client.remote_candidate.port),
        ),
        r.0.setup().ice_controlling == Some(client.ice_controlling),
        r.1 is Some <==> client.noise_channel is Some,
        r.1 is Some ==> r.1 == Some(0u64) && r.0.setup().channels.len() == 1,
{
    law_stacks_are_set_up_as_asked(r.0, *client, dtls_digest(cert));
}

/// A datagram that is taken was handed to the stack as it is, from where it came to where it went;
/// media is the present only. What is too long is refused, DTLS is left to be handed over, and neither
/// changes the stack; one that fails on a datagram works no longer.
pub proof fn law_received_datagrams_are_handed_on(
    stack: &mut RtcStack,
    source: SocketAddr,
    destination: SocketAddr,
    datagram: &[u8],
    r: Received,
)
    requires
        call_ensures(RtcStack::receive, (stack, source, destination, datagram), r),
    ensures
        r is Taken ==> if datagram@.len() > 2 && 128 <= datagram@[0] < 192 {
            can_elapse(old(stack).inner(), final(stack).inner(), None)
        } else {
            can_receive(
                old(stack).inner(),
                (source.ip, source.port),
                (destination.ip, destination.port),
                datagram@,
                final(stack).inner(),
                None,
            )
        },
        r is Failed ==> !final(stack).alive(),
        r is Unusable || r is Rejected || r is HandOver ==> *final(stack) == *old(stack),
        datagram@.len() > 8192 ==> r is Unusable,
        0 < datagram@.len() <= 8192 && 20 <= datagram@[0] < 64 ==> r is HandOver,
        datagram@.len() == 0 ==> (r matches Received::Rejected(text) && text@ == "Empty datagram"@),
        final(stack).remote() == old(stack).remote(),
        final(stack).ids() == old(stack).ids(),
{
    if r is Taken {
        law_stacks_are_handed_what_came(
            *old(stack),
            source,
            destination,
            datagram@,
            *final(stack),
            None,
        );
    }
}

/// Reading an output: a datagram is sent where the stack says, with its bytes, and to the remote with
/// flow label and scope; only a failure stops the stack.
pub proof fn law_read_outputs_are_as_they_are(
    stack: &mut RtcStack,
    output: StackOutput,
    r: Polled,
)
    requires
        old(stack).inv(),
        call_ensures(RtcStack::on_output, (stack, output), r),
    ensures
        output matches StackOutput::Transmit { destination, contents } ==> r == (Polled::Transmit {
            destination: if destination.ip == old(stack).remote().ip && destination.port
                == old(stack).remote().port {
                old(stack).remote()
            } else {
                destination
            },
            contents,
        }),
        output matches StackOutput::ChannelData(id, received) ==> (r matches Polled::ChannelData {
            id: n,
            data,
        } && data == received && final(stack).ids()[n as int] == id),
        output matches StackOutput::ChannelOpen(id) ==> (r matches Polled::ChannelOpen(n) && final(stack).ids()[n as int] == id),
        output matches StackOutput::ChannelClose(id) ==> (r matches Polled::ChannelClose(n) && final(stack).ids()[n as int] == id),
        final(stack).alive() == (old(stack).alive() && !(output is Failed)),
        old(stack).ids().is_prefix_of(final(stack).ids()),
{
    law_outputs_are_read_as_they_are(*old(stack), output, r, *final(stack));
}

/// The remote's fingerprint is what the stack tells, where that is a SHA-256 digest of 32 bytes, and
/// the one that was expected where it tells none; looking changes nothing. What is written goes to
/// the channel with that number, and what is closed is that channel.
pub proof fn law_remotes_and_channels_are_looked_up(
    stack: &mut RtcStack,
    fingerprint: Option<Fingerprint>,
    writer: &mut RtcStack,
    id: ChannelId,
    data: &[u8],
    written: Written,
)
    requires
        call_ensures(RtcStack::remote_fingerprint, (stack,), fingerprint),
        call_ensures(RtcStack::write, (writer, id, data), written),
    ensures
        *final(stack) == *old(stack),
        old(stack).told() is None ==> (fingerprint matches Some(f) && f@ == old(stack).expected()),
        old(stack).told() matches Some((hash_func, bytes)) ==> {
            &&& fingerprint is Some <==> hash_func == "sha-256"@ && bytes.len() == 32
            &&& fingerprint matches Some(f) ==> f@ == bytes
        },
        id < old(writer).ids().len() ==> written@ == write_outcome(
            old(writer).inner(),
            old(writer).ids()[id as int],
            data@,
        ) && can_write(
            old(writer).inner(),
            old(writer).ids()[id as int],
            data@,
            final(writer).inner(),
        ),
        id >= old(writer).ids().len() ==> written is NoChannel && *final(writer) == *old(writer),
{
}

/// What is closed is the channel with that number.
pub proof fn lemma_closes(before: RtcStack, id: ChannelId, after: RtcStack)
    requires
        before.closes(id, &after),
    ensures
        id < before.ids().len() ==> after.inner() == closing(before.inner(), before.ids()[id as int]),
        id >= before.ids().len() ==> after == before,
{
}

/// What is written goes to the channel with that number.
pub proof fn lemma_writes(before: RtcStack, id: ChannelId, data: Seq<u8>, after: RtcStack)
    ensures
        before.writes(id, data, &after) && id < before.ids().len() ==> can_write(
            before.inner(),
            before.ids()[id as int],
            data,
            after.inner(),
        ),
        before.writes(id, data, &after) && id >= before.ids().len() ==> after == before,
        id < before.ids().len() ==> before.outcome(id, data) == write_outcome(
            before.inner(),
            before.ids()[id as int],
            data,
        ),
{
}

} // verus!
