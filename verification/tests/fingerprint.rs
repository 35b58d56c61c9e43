use std::collections::hash_map::RandomState;
use std::hash::{BuildHasher, Hasher};

use webrtc_direct::certificate::Certificate;
use webrtc_direct::fingerprint::{Fingerprint, RtcFingerprint, SHA256};
use webrtc_direct::multiaddr::Multihash;

const SDP: &str = "7D:E3:D8:3F:81:A6:80:59:2A:47:1E:6B:6A:BB:07:47:AB:D3:53:85:A8:09:3F:DF:E1:12:C1:EE:BB:6C:C6:AC";

const DIGEST: [u8; 32] = [
    0x7d, 0xe3, 0xd8, 0x3f, 0x81, 0xa6, 0x80, 0x59, 0x2a, 0x47, 0x1e, 0x6b, 0x6a, 0xbb, 0x07, 0x47,
    0xab, 0xd3, 0x53, 0x85, 0xa8, 0x09, 0x3f, 0xdf, 0xe1, 0x12, 0xc1, 0xee, 0xbb, 0x6c, 0xc6, 0xac,
];

fn random_bytes() -> [u8; 32] {
    let mut bytes = [0u8; 32];
    for chunk in bytes.chunks_mut(8) {
        let word = RandomState::new().build_hasher().finish();
        chunk.copy_from_slice(&word.to_le_bytes());
    }
    bytes
}

#[test]
fn test_try_from_rtc_dtls() {
    let bytes = random_bytes();
    let fp = RtcFingerprint { hash_func: SHA256.to_string(), bytes: bytes.to_vec() };
    let fingerprint = Fingerprint::try_from_rtc_dtls(&fp).unwrap();
    assert_eq!(
        libp2p_webrtc_utils::Fingerprint::raw(fingerprint.to_bytes()),
        libp2p_webrtc_utils::Fingerprint::raw(bytes)
    );
}

#[test]
fn raw_bytes() {
    assert_eq!(Fingerprint::raw([7; 32]).to_bytes(), [7; 32]);
    assert_eq!(Fingerprint::ff().to_bytes(), [0xff; 32]);
}

#[test]
fn other_hash_functions_are_not_taken() {
    let fp = RtcFingerprint { hash_func: "sha-1".to_string(), bytes: vec![1; 32] };
    assert!(Fingerprint::try_from_rtc_dtls(&fp).is_none());
}

#[test]
fn other_lengths_are_not_taken() {
    for len in [0usize, 31, 33, 64] {
        let fp = RtcFingerprint { hash_func: SHA256.to_string(), bytes: vec![1; len] };
        assert!(Fingerprint::try_from_rtc_dtls(&fp).is_none());
    }
}

#[test]
fn certificate_bytes_are_hashed() {
    let expected = [
        0xba, 0x78, 0x16, 0xbf, 0x8f, 0x01, 0xcf, 0xea, 0x41, 0x41, 0x40, 0xde, 0x5d, 0xae, 0x22,
        0x23, 0xb0, 0x03, 0x61, 0xa3, 0x96, 0x17, 0x7a, 0x9c, 0xb4, 0x10, 0xff, 0x61, 0xf2, 0x00,
        0x15, 0xad,
    ];
    assert_eq!(Fingerprint::from_certificate(b"abc").to_bytes(), expected);
}

#[test]
fn sdp_format_is_upper_case_with_colons() {
    let fp = Fingerprint::raw(DIGEST);
    assert_eq!(fp.to_sdp_format(), SDP);
    assert_eq!(fp.algorithm(), "sha-256");
}

#[test]
fn multihash_round_trip() {
    let hash = Fingerprint::raw(DIGEST).to_multihash();
    assert_eq!(hash.code(), 0x12);
    assert_eq!(hash.digest(), &DIGEST[..]);
    let back = Fingerprint::try_from_multihash(&hash).unwrap();
    assert_eq!(back.to_bytes(), DIGEST);
}

#[test]
fn other_multihashes_are_not_taken() {
    assert!(Fingerprint::try_from_multihash(&Multihash::new(0x13, DIGEST.to_vec())).is_none());
    assert!(Fingerprint::try_from_multihash(&Multihash::new(0x12, vec![1; 31])).is_none());
}

#[test]
fn generated_certificates_have_their_own_fingerprints() {
    let a = Certificate::generate();
    let b = Certificate::generate();
    let fp = a.fingerprint().unwrap();
    assert_ne!(fp.to_bytes(), b.fingerprint().unwrap().to_bytes());
    assert_eq!(a.extract().fingerprint().bytes, fp.to_bytes().to_vec());
    assert_eq!(a.extract().fingerprint().hash_func, "sha-256");
}
