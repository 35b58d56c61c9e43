//! Certificate fingerprints.
use vstd::prelude::*;
use vstd::string::*;

use crate::multiaddr::Multihash;

verus! {

/// The name of the hash algorithm behind every fingerprint.
pub const SHA256: &'static str = "sha-256";

/// The multihash code of SHA-256.
pub const MULTIHASH_SHA256_CODE: u64 = 0x12;

/// The length of a SHA-256 digest.
pub const DIGEST_LEN: usize = 32;

/// A certificate fingerprint that is assumed to be created using the SHA256 hash algorithm.
#[derive(Clone, Copy, Debug, PartialEq, Eq)]
pub struct Fingerprint {
    digest: [u8; 32],
}

/// A certificate fingerprint as the DTLS layer reports it.
#[derive(Debug, PartialEq, Eq)]
pub struct RtcFingerprint {
    /// Hash function used to produce the `bytes`.
    pub hash_func: String,
    /// Digest of the certificate by the algorithm in `hash_func`.
    pub bytes: Vec<u8>,
}

impl RtcFingerprint {
    /// A SHA-256 digest of the right length.
    pub open spec fn is_sha256(self) -> bool {
        self.hash_func@ == "sha-256"@ && self.bytes@.len() == DIGEST_LEN
    }
}

/// The digest of an optional fingerprint.
pub open spec fn digest_of(fp: Option<Fingerprint>) -> Option<Seq<u8>> {
    match fp {
        Some(f) => Some(f@),
        None => None,
    }
}

/// The digest in a multihash, where it is one of SHA-256.
pub open spec fn sha256_digest(hash: (u64, Seq<u8>)) -> Option<Seq<u8>> {
    if hash.0 == MULTIHASH_SHA256_CODE && hash.1.len() == DIGEST_LEN {
        Some(hash.1)
    } else {
        None
    }
}

/// What `Fingerprint::from_certificate` of `libp2p_webrtc_utils` makes of a certificate: its
/// SHA-256 digest.
pub uninterp spec fn certificate_digest(certificate: Seq<u8>) -> Seq<u8>;

/// `Fingerprint::from_certificate` of `libp2p_webrtc_utils`: the SHA-256 digest of `bytes`, which
/// depends on nothing but them.
#[verifier::external_body]
fn hash_certificate(bytes: &[u8]) -> (r: [u8; 32])
    ensures
        r@ == certificate_digest(bytes@),
{
    let fp = libp2p_webrtc_utils::Fingerprint::from_certificate(bytes);
    fp.to_multihash().digest().try_into().unwrap()
}

/// `Fingerprint::try_from_multihash` of `libp2p_webrtc_utils`: the digest, where the code is that
/// of SHA-256 and the length fits. A multihash of the outside crate holds at most 64 bytes.
#[verifier::external_body]
fn multihash_digest(code: u64, digest: &[u8]) -> (r: Option<[u8; 32]>)
    requires
        digest@.len() <= 64,
    ensures
        match r {
            Some(d) => sha256_digest((code, digest@)) == Some(d@),
            None => sha256_digest((code, digest@)) is None,
        },
{
    let hash = multihash::Multihash::<64>::wrap(code, digest).unwrap();
    let fp = libp2p_webrtc_utils::Fingerprint::try_from_multihash(hash)?;
    fp.to_multihash().digest().try_into().ok()
}

/// `Fingerprint::to_multihash` of `libp2p_webrtc_utils`: the code of SHA-256 beside the digest.
#[verifier::external_body]
fn digest_multihash(digest: [u8; 32]) -> (r: (u64, Vec<u8>))
    ensures
        r.0 == MULTIHASH_SHA256_CODE,
        r.1@ == digest@,
{
    let hash = libp2p_webrtc_utils::Fingerprint::raw(digest).to_multihash();
    (hash.code(), hash.digest().to_vec())
}

/// The digit for `value`, in upper case.
pub open spec fn hex_digit(value: int) -> char {
    if value < 10 {
        (('0' as int) + value) as char
    } else {
        (('A' as int) + value - 10) as char
    }
}

/// Two upper case digits for each byte, a colon between bytes.
pub open spec fn sdp_format(digest: Seq<u8>) -> Seq<char> {
    Seq::new(
        (3 * digest.len() - 1) as nat,
        |i: int|
            if i % 3 == 0 {
                hex_digit(digest[i / 3] as int / 16)
            } else if i % 3 == 1 {
                hex_digit(digest[i / 3] as int % 16)
            } else {
                ':'
            },
    )
}

/// `Fingerprint::to_sdp_format` of `libp2p_webrtc_utils`: upper case hex with colons between bytes.
#[verifier::external_body]
fn digest_text(digest: [u8; 32]) -> (r: String)
    ensures
        r@ == sdp_format(digest@),
{
    libp2p_webrtc_utils::Fingerprint::raw(digest).to_sdp_format()
}

/// `Fingerprint::algorithm` of `libp2p_webrtc_utils`: the name of SHA-256, for every digest.
#[verifier::external_body]
fn digest_algorithm(digest: [u8; 32]) -> (r: String)
    ensures
        r@ == "sha-256"@,
{
    libp2p_webrtc_utils::Fingerprint::raw(digest).algorithm()
}

/// The 32 bytes of `bytes`, where it holds that many.
pub(crate) fn to_digest(bytes: &[u8]) -> (r: Option<[u8; 32]>)
    ensures
        match r {
            Some(d) => bytes@.len() == DIGEST_LEN && d@ == bytes@,
            None => bytes@.len() != DIGEST_LEN,
        },
{
    if bytes.len() != DIGEST_LEN {
        return None;
    }
    let mut digest: [u8; 32] = [0u8; 32];
    let mut i: usize = 0;
    while i < 32
        invariant
            bytes@.len() == 32,
            i <= 32,
            digest@.len() == 32,
            forall|j: int| 0 <= j < i ==> digest@[j] == bytes@[j],
        decreases 32 - i,
    {
        digest[i] = bytes[i];
        i += 1;
    }
    proof {
        assert(digest@ =~= bytes@);
    }
    Some(digest)
}

impl View for Fingerprint {
    type V = Seq<u8>;

    closed spec fn view(&self) -> Seq<u8> {
        self.digest@
    }
}

impl Fingerprint {
    /// The fingerprint with this digest.
    pub fn raw(bytes: [u8; 32]) -> (r: Fingerprint)
        ensures
            r@ == bytes@,
    {
        Fingerprint { digest: bytes }
    }

    /// The fingerprint whose digest is all ones; it stands for a remote that is not known yet.
    pub fn ff() -> (r: Fingerprint)
        ensures
            r@ == Seq::new(32, |i: int| 0xffu8),
    {
        let r = Fingerprint { digest: [0xffu8; 32] };
        assert(r@ =~= Seq::new(32, |i: int| 0xffu8));
        r
    }

    /// The digest.
    pub fn to_bytes(self) -> (r: [u8; 32])
        ensures
            r@ == self@,
    {
        self.digest
    }

    /// Creates a fingerprint from a raw certificate.
    pub fn from_certificate(bytes: &[u8]) -> (r: Fingerprint)
        ensures
            r@ == certificate_digest(bytes@),
    {
        Fingerprint { digest: hash_certificate(bytes) }
    }

    /// Converts a fingerprint of the DTLS layer, where it is a SHA-256 digest.
    pub fn try_from_rtc_dtls(fp: &RtcFingerprint) -> (r: Option<Fingerprint>)
        ensures
            match r {
                Some(f) => fp.is_sha256() && f@ == fp.bytes@,
                None => !fp.is_sha256(),
            },
    {
        if fp.hash_func != SHA256.to_owned() {
            return None;
        }
        match to_digest(fp.bytes.as_slice()) {
            Some(digest) => Some(Fingerprint { digest }),
            None => None,
        }
    }

    /// Converts a multihash, where it is a SHA-256 digest.
    pub fn try_from_multihash(hash: &Multihash) -> (r: Option<Fingerprint>)
        ensures
            digest_of(r) == sha256_digest(hash@),
    {
        match multihash_digest(hash.code(), hash.digest()) {
            Some(digest) => Some(Fingerprint { digest }),
            None => None,
        }
    }

    /// Converts this fingerprint to a multihash.
    pub fn to_multihash(self) -> (r: Multihash)
        ensures
            r@ == (MULTIHASH_SHA256_CODE, self@),
    {
        let (code, digest) = digest_multihash(self.digest);
        Multihash::new(code, digest)
    }

    /// Formats this fingerprint as uppercase hex, separated by colons (`:`).
    ///
    /// This is the format described in <https://www.rfc-editor.org/rfc/rfc4572#section-5>.
    pub fn to_sdp_format(self) -> (r: String)
        ensures
            r@ == sdp_format(self@),
    {
        digest_text(self.digest)
    }

    /// Returns the algorithm used (e.g. "sha-256").
    /// See <https://datatracker.ietf.org/doc/html/rfc8122#section-5>
    pub fn algorithm(&self) -> (r: String)
        ensures
            r@ == "sha-256"@,
    {
        digest_algorithm(self.digest)
    }

    /// Every fingerprint has 32 bytes.
    pub proof fn lemma_len(self)
        ensures
            self@.len() == DIGEST_LEN,
    {
    }
}

/// Turning a fingerprint into a multihash and back gives the same digest.
pub proof fn law_multihash_round_trip(fp: Fingerprint)
    ensures
        sha256_digest((MULTIHASH_SHA256_CODE, fp@)) == Some(fp@),
{
    fp.lemma_len();
}

/// The text of a digest has two digits for each byte and a colon between bytes, and nothing else:
/// each pair of digits, in base sixteen, is its byte.
pub proof fn law_text_spells_the_digest(digest: Seq<u8>, i: int)
    requires
        0 <= i < digest.len(),
    ensures
        sdp_format(digest).len() == 3 * digest.len() - 1,
        ({
            let (high, low) = (sdp_format(digest)[3 * i], sdp_format(digest)[3 * i + 1]);
            let value = |c: char|
                if '0' <= c <= '9' {
                    c as int - '0' as int
                } else {
                    c as int - 'A' as int + 10
                };
            &&& '0' <= high <= '9' || 'A' <= high <= 'F'
            &&& '0' <= low <= '9' || 'A' <= low <= 'F'
            &&& 16 * value(high) + value(low) == digest[i]
        }),
        i + 1 < digest.len() ==> sdp_format(digest)[3 * i + 2] == ':',
{
    assert((3 * i) % 3 == 0 && (3 * i) / 3 == i);
    assert((3 * i + 1) % 3 == 1 && (3 * i + 1) / 3 == i);
    assert((3 * i + 2) % 3 == 2);
    let byte = digest[i] as int;
    assert(0 <= byte / 16 < 16 && 0 <= byte % 16 < 16);
    assert(16 * (byte / 16) + byte % 16 == byte);
}

/// A multihash holds a digest exactly where its code is that of SHA-256 and it is 32 bytes long, and
/// then the digest is what it holds; the same goes for what the DTLS layer reports under the name of
/// the algorithm.
pub proof fn law_only_sha256_is_a_digest(
    code: u64,
    bytes: Seq<u8>,
    digest: Seq<u8>,
    fp: RtcFingerprint,
)
    ensures
        sha256_digest((code, bytes)) == Some(digest) <==> code == 0x12 && bytes.len() == 32 && digest
            == bytes,
        fp.is_sha256() <==> fp.hash_func@ == "sha-256"@ && fp.bytes@.len() == 32,
{
}

/// A fingerprint comes back from its multihash, and from what the DTLS layer reports, with the same
/// digest; its bytes are the digest, and it is made from the digest that it is given.
pub proof fn law_fingerprints_come_back(
    fp: Fingerprint,
    hash: Multihash,
    back: Option<Fingerprint>,
    reported: &RtcFingerprint,
    known: Option<Fingerprint>,
    bytes: [u8; 32],
    raw: Fingerprint,
)
    requires
        call_ensures(Fingerprint::to_multihash, (fp,), hash),
        call_ensures(Fingerprint::try_from_multihash, (&hash,), back),
        call_ensures(Fingerprint::try_from_rtc_dtls, (reported,), known),
        call_ensures(Fingerprint::to_bytes, (fp,), bytes),
        call_ensures(Fingerprint::raw, (bytes,), raw),
    ensures
        hash@ == (0x12u64, fp@),
        back matches Some(f) && f@ == fp@,
        known is Some <==> reported.hash_func@ == "sha-256"@ && reported.bytes@.len() == 32,
        known matches Some(f) ==> f@ == reported.bytes@,
        raw@ == fp@,
{
    fp.lemma_len();
}

/// The fingerprint that stands for a remote which is not known yet has every bit set.
pub proof fn law_unknown_remotes_have_every_bit_set(r: Fingerprint, i: int)
    requires
        call_ensures(Fingerprint::ff, (), r),
        0 <= i < 32,
    ensures
        r@.len() == 32,
        r@[i] == 0xff,
{
}

} // verus!
