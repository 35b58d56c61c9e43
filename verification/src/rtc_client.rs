//! How the WebRTC stack of a connection is to be set up.
use vstd::prelude::*;

use crate::fingerprint::Fingerprint;
use crate::net::SocketAddr;

verus! {

/// ICE credentials.
#[derive(Debug, PartialEq, Eq)]
pub struct IceCreds {
    pub ufrag: String,
    pub pass: String,
}

impl IceCreds {
    /// These are the credentials `ufrag` and `pass`.
    pub open spec fn are(self, ufrag: Seq<char>, pass: Seq<char>) -> bool {
        self.ufrag@ == ufrag && self.pass@ == pass
    }

    /// The credentials `ufrag` and `pass`.
    pub fn new(ufrag: &str, pass: &str) -> (r: IceCreds)
        ensures
            r.are(ufrag@, pass@),
    {
        IceCreds { ufrag: ufrag.to_owned(), pass: pass.to_owned() }
    }
}

/// A data channel that is to be created.
#[derive(Debug, PartialEq, Eq)]
pub struct ChannelConfig {
    /// The label of the channel.
    pub label: String,
    /// Whether messages arrive in order.
    pub ordered: bool,
    /// The SCTP stream, if both sides know it beforehand.
    pub negotiated: Option<u16>,
    /// The protocol spoken on the channel.
    pub protocol: String,
}

/// A WebRTC stack that is to be set up for a connection over UDP.
#[derive(Debug, PartialEq, Eq)]
pub struct RtcClient {
    /// Whether this side only answers connectivity checks.
    pub ice_lite: bool,
    /// Whether the stack checks the fingerprint of the remote certificate itself.
    pub fingerprint_verification: bool,
    /// This side's host candidate.
    pub local_candidate: SocketAddr,
    /// The remote's host candidate.
    pub remote_candidate: SocketAddr,
    /// The fingerprint to expect of the remote certificate.
    pub remote_fingerprint: Fingerprint,
    /// The remote's ICE credentials, where they are known.
    pub remote_credentials: Option<IceCreds>,
    /// This side's ICE credentials.
    pub local_credentials: IceCreds,
    /// Whether this side controls ICE.
    pub ice_controlling: bool,
    /// Whether this side starts the DTLS handshake.
    pub dtls_active: bool,
    /// Whether this side starts the SCTP association.
    pub sctp_client: bool,
    /// The channel for the Noise handshake, if it is created at once.
    pub noise_channel: Option<ChannelConfig>,
}

impl RtcClient {
    /// A stack that answers `source` at `destination`: it does not know the remote's certificate yet
    /// and expects the digest in which every bit is set, both sides have the same credentials, and
    /// the other side is in the lead.
    pub open spec fn answers(
        self,
        ufrag: Seq<char>,
        pass: Seq<char>,
        source: SocketAddr,
        destination: SocketAddr,
    ) -> bool {
        &&& self.ice_lite
        &&& !self.fingerprint_verification
        &&& self.local_candidate == destination
        &&& self.remote_candidate == source
        &&& self.remote_fingerprint@ == Seq::new(32, |i: int| 0xffu8)
        &&& self.remote_credentials matches Some(creds) && creds.are(ufrag, pass)
        &&& self.local_credentials.are(ufrag, pass)
        &&& !self.ice_controlling
        &&& !self.dtls_active
        &&& !self.sctp_client
    }

    /// A stack that answers `source` at `destination`.
    pub(crate) fn answering(
        ufrag: &str,
        pass: &str,
        source: SocketAddr,
        destination: SocketAddr,
        noise_channel: Option<ChannelConfig>,
    ) -> (r: RtcClient)
        ensures
            r.answers(ufrag@, pass@, source, destination),
            r.noise_channel == noise_channel,
    {
        RtcClient {
            ice_lite: true,
            fingerprint_verification: false,
            local_candidate: destination,
            remote_candidate: source,
            remote_fingerprint: Fingerprint::ff(),
            remote_credentials: Some(IceCreds::new(ufrag, pass)),
            local_credentials: IceCreds::new(ufrag, pass),
            ice_controlling: false,
            dtls_active: false,
            sctp_client: false,
            noise_channel,
        }
    }
}

} // verus!
