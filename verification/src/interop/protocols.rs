//! The protocols that a test can be run with.
use vstd::prelude::*;

use crate::text::equal;

verus! {

/// Supported transports by rust-libp2p.
#[derive(Clone, Copy, Debug, PartialEq, Eq, Structural)]
pub enum Transport {
    Tcp,
    QuicV1,
    WebRtcDirect,
    Ws,
    Webtransport,
}

/// Supported stream multiplexers by rust-libp2p.
#[derive(Clone, Copy, Debug, PartialEq, Eq, Structural)]
pub enum Muxer {
    Mplex,
    Yamux,
}

/// Supported security protocols by rust-libp2p.
#[derive(Clone, Copy, Debug, PartialEq, Eq, Structural)]
pub enum SecProtocol {
    Noise,
    Tls,
}

/// What is said of a name that is not known.
fn unknown(what: &str, name: &str) -> (r: String)
    ensures
        r@ == what@ + name@,
{
    let mut text = what.to_owned();
    text.append(name);
    text
}

impl Transport {
    /// The name of the transport.
    pub open spec fn name(self) -> Seq<char> {
        match self {
            Transport::Tcp => "tcp"@,
            Transport::QuicV1 => "quic-v1"@,
            Transport::WebRtcDirect => "webrtc-direct"@,
            Transport::Ws => "ws"@,
            Transport::Webtransport => "webtransport"@,
        }
    }

    /// The transport of that name, or what is said of an unknown one.
    pub fn from_str(s: &str) -> (r: Result<Transport, String>)
        ensures
            match r {
                Ok(transport) => transport.name() == s@,
                Err(text) => {
                    &&& forall|transport: Transport| #[trigger] transport.name() != s@
                    &&& text@ == "unknown transport "@ + s@
                },
            },
    {
        if equal(s, "tcp") {
            Ok(Transport::Tcp)
        } else if equal(s, "quic-v1") {
            Ok(Transport::QuicV1)
        } else if equal(s, "webrtc-direct") {
            Ok(Transport::WebRtcDirect)
        } else if equal(s, "ws") {
            Ok(Transport::Ws)
        } else if equal(s, "webtransport") {
            Ok(Transport::Webtransport)
        } else {
            Err(unknown("unknown transport ", s))
        }
    }
}

impl Muxer {
    /// The name of the multiplexer.
    pub open spec fn name(self) -> Seq<char> {
        match self {
            Muxer::Mplex => "mplex"@,
            Muxer::Yamux => "yamux"@,
        }
    }

    /// The multiplexer of that name, or what is said of an unknown one.
    pub fn from_str(s: &str) -> (r: Result<Muxer, String>)
        ensures
            match r {
                Ok(muxer) => muxer.name() == s@,
                Err(text) => {
                    &&& forall|muxer: Muxer| #[trigger] muxer.name() != s@
                    &&& text@ == "unknown muxer "@ + s@
                },
            },
    {
        if equal(s, "mplex") {
            Ok(Muxer::Mplex)
        } else if equal(s, "yamux") {
            Ok(Muxer::Yamux)
        } else {
            Err(unknown("unknown muxer ", s))
        }
    }
}

impl SecProtocol {
    /// The name of the security protocol.
    pub open spec fn name(self) -> Seq<char> {
        match self {
            SecProtocol::Noise => "noise"@,
            SecProtocol::Tls => "tls"@,
        }
    }

    /// The security protocol of that name, or what is said of an unknown one.
    pub fn from_str(s: &str) -> (r: Result<SecProtocol, String>)
        ensures
            match r {
                Ok(protocol) => protocol.name() == s@,
                Err(text) => {
                    &&& forall|protocol: SecProtocol| #[trigger] protocol.name() != s@
                    &&& text@ == "unknown security protocol "@ + s@
                },
            },
    {
        if equal(s, "noise") {
            Ok(SecProtocol::Noise)
        } else if equal(s, "tls") {
            Ok(SecProtocol::Tls)
        } else {
            Err(unknown("unknown security protocol ", s))
        }
    }
}

/// A name belongs to one transport, one multiplexer and one security protocol at most.
pub proof fn law_names_are_distinct()
    ensures
        forall|a: Transport, b: Transport| #[trigger] a.name() == #[trigger] b.name() ==> a == b,
        forall|a: Muxer, b: Muxer| #[trigger] a.name() == #[trigger] b.name() ==> a == b,
        forall|a: SecProtocol, b: SecProtocol| #[trigger] a.name() == #[trigger] b.name() ==> a
            == b,
{
    reveal_strlit("tcp");
    reveal_strlit("quic-v1");
    reveal_strlit("webrtc-direct");
    reveal_strlit("ws");
    reveal_strlit("webtransport");
    reveal_strlit("mplex");
    reveal_strlit("yamux");
    reveal_strlit("noise");
    reveal_strlit("tls");
    assert("tcp"@.len() == 3 && "quic-v1"@.len() == 7 && "webrtc-direct"@.len() == 13);
    assert("ws"@.len() == 2 && "webtransport"@.len() == 12);
    assert("mplex"@[0] != "yamux"@[0]);
    assert("noise"@.len() == 5 && "tls"@.len() == 3);
}

} // verus!
