use webrtc_direct::fingerprint::Fingerprint;
use webrtc_direct::websys::connection::local_fingerprint;
use webrtc_direct::websys::error::Error;
use webrtc_direct::websys::sdp::{find_fingerprint, parse_fingerprint, SdpFingerprint};

#[test]
fn test_fingerprint() {
    let sdp = "v=0\r\no=- 0 0 IN IP6 ::1\r\ns=-\r\nc=IN IP6 ::1\r\nt=0 0\r\na=ice-lite\r\nm=application 61885 UDP/DTLS/SCTP webrtc-datachannel\r\na=mid:0\r\na=setup:passive\r\na=ice-ufrag:libp2p+webrtc+v1/YwapWySn6fE6L9i47PhlB6X4gzNXcgFs\r\na=ice-pwd:libp2p+webrtc+v1/YwapWySn6fE6L9i47PhlB6X4gzNXcgFs\r\na=fingerprint:sha-256 A8:17:77:1E:02:7E:D1:2B:53:92:70:A6:8E:F9:02:CC:21:72:3A:92:5D:F4:97:5F:27:C4:5E:75:D4:F4:31:89\r\na=sctp-port:5000\r\na=max-message-size:16384\r\na=candidate:1467250027 1 UDP 1467250027 ::1 61885 typ host\r\n";

    let fingerprint = parse_fingerprint(sdp).unwrap();

    assert_eq!(fingerprint.algorithm(), "sha-256");
    assert_eq!(fingerprint.to_sdp_format(), "A8:17:77:1E:02:7E:D1:2B:53:92:70:A6:8E:F9:02:CC:21:72:3A:92:5D:F4:97:5F:27:C4:5E:75:D4:F4:31:89");
}

fn found(sdp: &str) -> Option<[u8; 32]> {
    match find_fingerprint(sdp) {
        SdpFingerprint::Found(fp) => Some(fp.to_bytes()),
        _ => None,
    }
}

#[test]
fn a_written_fingerprint_is_read_back() {
    let fp = Fingerprint::raw([0xa5; 32]);
    let sdp = format!("v=0\r\na=fingerprint:sha-256 {}\r\ns=-", fp.to_sdp_format());
    assert_eq!(found(&sdp), Some([0xa5; 32]));
}

#[test]
fn digits_may_be_lower_case_and_without_colons() {
    let sdp = format!("a=fingerprint:sha-256 {}", "0f".repeat(32));
    assert_eq!(found(&sdp), Some([0x0f; 32]));
}

#[test]
fn the_first_fingerprint_counts() {
    let sdp = format!(
        "a=fingerprint:x {}\r\na=fingerprint:x {}\r\n",
        "01".repeat(32),
        "02".repeat(32)
    );
    assert_eq!(found(&sdp), Some([1; 32]));
}

#[test]
fn what_follows_the_value_is_passed_over() {
    let sdp = format!("a=fingerprint:sha-256 {} more words", "07".repeat(32));
    assert_eq!(found(&sdp), Some([7; 32]));
}

#[test]
fn single_carriage_returns_and_newlines_end_no_line() {
    let value = "07".repeat(32);
    assert_eq!(find_fingerprint(&format!("v=0\na=fingerprint:sha-256 {value}")), SdpFingerprint::Missing);
    assert_eq!(find_fingerprint(&format!("v=0\ra=fingerprint:sha-256 {value}")), SdpFingerprint::Missing);
    assert_eq!(found(&format!("v=0\r\r\na=fingerprint:sha-256 {value}")), Some([7; 32]));
}

#[test]
fn no_fingerprint() {
    assert!(parse_fingerprint("").is_none());
    assert!(parse_fingerprint("v=0\r\ns=-\r\n").is_none());
    assert!(parse_fingerprint("xa=fingerprint:sha-256 00").is_none());
}

#[test]
fn malformed_fingerprints() {
    assert_eq!(find_fingerprint("a=fingerprint:sha-256"), SdpFingerprint::Malformed);
    assert_eq!(find_fingerprint("a=fingerprint:sha-256 zz"), SdpFingerprint::Malformed);
    assert_eq!(find_fingerprint("a=fingerprint:sha-256 123"), SdpFingerprint::Malformed);
    assert_eq!(
        find_fingerprint(&format!("a=fingerprint:sha-256 {}", "00".repeat(31))),
        SdpFingerprint::Malformed
    );
}

#[test]
fn the_local_description_tells_the_fingerprint() {
    assert_eq!(
        local_fingerprint(None),
        Err(Error::Js("No local description".to_string()))
    );
    assert_eq!(
        local_fingerprint(Some("v=0\r\n")),
        Err(Error::Js("No fingerprint in SDP".to_string()))
    );
    let sdp = format!("a=fingerprint:sha-256 {}", "11".repeat(32));
    assert_eq!(local_fingerprint(Some(&sdp)).unwrap().to_bytes(), [0x11; 32]);
}
