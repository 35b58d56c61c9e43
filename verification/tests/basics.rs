use std::io;
use std::time::{Duration, Instant as SystemInstant};

use webrtc_direct::addr_map::AddrMap;
use webrtc_direct::diagnostics::{
    log_sctp_snapshot, log_upgrade_step, sctp_error, state_change, Change, States, TARGET,
};
use webrtc_direct::error::{Error, ErrorKind, IoError};
use webrtc_direct::interop::host_log::Level;
use webrtc_direct::net::{IpAddr, SocketAddr};
use webrtc_direct::opening::OpeningWebRtcConnection;
use webrtc_direct::text;
use webrtc_direct::time::{Clock, Instant};

fn v4(a: u8, b: u8, c: u8, d: u8) -> IpAddr {
    IpAddr::V4(u32::from_be_bytes([a, b, c, d]))
}

fn v6(segments: [u16; 8]) -> IpAddr {
    IpAddr::V6(segments.iter().fold(0, |bits, s| bits << 16 | *s as u128))
}

fn host_candidate(ip: IpAddr) -> bool {
    let addr = match ip {
        IpAddr::V4(bits) => (bits.to_be_bytes(), 1).into(),
        IpAddr::V6(bits) => (bits.to_be_bytes(), 1).into(),
    };
    str0m::Candidate::host(addr, str0m::net::Protocol::Udp).is_ok()
}

/// Unspecified, loopback, link-local and multicast.
fn kinds(ip: IpAddr) -> [bool; 4] {
    [ip.is_unspecified(), ip.is_loopback(), ip.is_link_local(), ip.is_multicast()]
}

#[test]
fn kinds_of_addresses() {
    let (t, f) = (true, false);
    for (ip, expected) in [
        (v4(0, 0, 0, 0), [t, f, f, f]),
        (v4(127, 0, 0, 1), [f, t, f, f]),
        (v4(127, 9, 9, 9), [f, t, f, f]),
        (v4(128, 0, 0, 1), [f, f, f, f]),
        (v4(169, 254, 7, 7), [f, f, t, f]),
        (v4(169, 255, 7, 7), [f, f, f, f]),
        (v4(224, 0, 0, 1), [f, f, f, t]),
        (v4(239, 255, 2, 3), [f, f, f, t]),
        (v4(240, 0, 0, 1), [f, f, f, f]),
        (v4(255, 255, 255, 255), [f, f, f, f]),
        (v4(10, 0, 0, 1), [f, f, f, f]),
    ] {
        assert!(ip.is_ipv4() && !ip.is_ipv6());
        assert_eq!(kinds(ip), expected, "{ip:?}");
        assert_eq!(ip.is_candidate(), host_candidate(ip), "{ip:?}");
    }
    for (ip, expected) in [
        (v6([0; 8]), [t, f, f, f]),
        (v6([0, 0, 0, 0, 0, 0, 0, 1]), [f, t, f, f]),
        (v6([0, 0, 0, 0, 0, 0, 0, 2]), [f, f, f, f]),
        (v6([0xfe80, 0, 0, 0, 0, 0, 0, 1]), [f, f, t, f]),
        (v6([0xfebf, 0, 0, 0, 0, 0, 0, 1]), [f, f, t, f]),
        (v6([0xfec0, 0, 0, 0, 0, 0, 0, 1]), [f, f, f, f]),
        (v6([0xff02, 0, 0, 0, 0, 0, 0, 1]), [f, f, f, t]),
        (v6([0x2001, 0xdb8, 0, 0, 0, 0, 0, 1]), [f, f, f, f]),
    ] {
        assert!(ip.is_ipv6() && !ip.is_ipv4());
        assert_eq!(kinds(ip), expected, "{ip:?}");
        assert_eq!(ip.is_candidate(), host_candidate(ip), "{ip:?}");
    }
}

#[test]
fn time_that_remains() {
    let at = Instant { nanos: 100 };
    assert_eq!(at.remaining_from(Instant { nanos: 40 }), 60);
    assert_eq!(at.remaining_from(Instant { nanos: 100 }), 0);
    assert_eq!(at.remaining_from(Instant { nanos: 500 }), 0);
    let clock = Clock::start();
    let first = clock.now();
    let second = clock.now();
    assert_eq!(first.remaining_from(second), 0);
    assert!(second.nanos < 10_000_000_000);
}

#[test]
fn clocks_count_from_their_origin() {
    let origin = SystemInstant::now();
    let clock = Clock::starting_at(origin);
    assert_eq!(clock.at(&origin), Instant { nanos: 0 });
    assert_eq!(clock.at(&(origin + Duration::from_nanos(7))), Instant { nanos: 7 });
    assert_eq!(clock.at(&(origin + Duration::from_secs(3))), Instant { nanos: 3_000_000_000 });
    let later = Clock::starting_at(origin + Duration::from_nanos(7));
    assert_eq!(later.at(&origin), Instant { nanos: 0 });
}

#[test]
fn maps_by_address() {
    let a = SocketAddr::new(v4(1, 2, 3, 4), 5);
    let b = SocketAddr::new(v4(1, 2, 3, 4), 6);
    let mut map: AddrMap<&str> = AddrMap::new();
    assert!(map.keys().is_empty());
    assert_eq!(map.insert(a, "one"), None);
    assert_eq!(map.insert(b, "two"), None);
    assert_eq!(map.insert(a, "three"), Some("one"));
    assert_eq!(map.get(a), Some(&"three"));
    assert!(map.contains_key(b));
    *map.get_mut(b).unwrap() = "four";
    assert_eq!(map.get(b), Some(&"four"));
    let mut keys = map.keys();
    keys.sort_by_key(|k| k.port);
    assert_eq!(keys, vec![a, b]);
    assert_eq!(map.remove(a), Some("three"));
    assert_eq!(map.remove(a), None);
    assert_eq!(map.get(a), None);
    assert!(map.get_mut(a).is_none());
    assert_eq!(map.keys(), vec![b]);
}

#[test]
fn messages_of_errors() {
    let s = |text: &str| text.to_string();
    let cases = vec![
        (Error::WebRtc(s("x")), "`str0m` error: `x`"),
        (Error::Io(IoError::new(ErrorKind::Other, "x")), "IO error"),
        (Error::IoErr(ErrorKind::BrokenPipe), "I/O error: `broken pipe`"),
        (Error::Authentication, "failed to authenticate peer"),
        (
            Error::InvalidPeerID { expected: s("a"), got: s("b") },
            "invalid peer ID (expected a, got b)",
        ),
        (Error::NoListeners, "no active listeners, can not dial without a previous listen"),
        (Error::Internal(s("x")), "internal error: x (see debug logs)"),
        (Error::InvalidData, "Invalid data"),
        (Error::Send(s("x")), "send error: `x`"),
        (Error::DtlsCert, "DTLS certificate error, it is missing or invalid"),
        (Error::Net(s("x")), "WebRTC Network error: `x`"),
        (Error::Disconnected, "disconnected while opening"),
        (Error::ChannelDoesntExist, "channel doesn't exist"),
        (Error::LockPoisoned, "lock poisoned"),
        (Error::StreamCreationFailed, "channel creation failed"),
        (Error::NoiseHandshakeFailed, "Noise handshake failed"),
        (Error::OneshotCanceled, "oneshot canceled"),
    ];
    for (error, text) in cases {
        assert_eq!(error.message(), text);
    }
    assert_eq!(
        Error::new(ErrorKind::TimedOut, "late"),
        Error::Io(IoError { kind: ErrorKind::TimedOut, message: s("late") })
    );
}

#[test]
fn descriptions_of_kinds() {
    for (kind, std_kind) in [
        (ErrorKind::NotFound, io::ErrorKind::NotFound),
        (ErrorKind::PermissionDenied, io::ErrorKind::PermissionDenied),
        (ErrorKind::ConnectionRefused, io::ErrorKind::ConnectionRefused),
        (ErrorKind::ConnectionReset, io::ErrorKind::ConnectionReset),
        (ErrorKind::ConnectionAborted, io::ErrorKind::ConnectionAborted),
        (ErrorKind::NotConnected, io::ErrorKind::NotConnected),
        (ErrorKind::AddrInUse, io::ErrorKind::AddrInUse),
        (ErrorKind::AddrNotAvailable, io::ErrorKind::AddrNotAvailable),
        (ErrorKind::BrokenPipe, io::ErrorKind::BrokenPipe),
        (ErrorKind::AlreadyExists, io::ErrorKind::AlreadyExists),
        (ErrorKind::WouldBlock, io::ErrorKind::WouldBlock),
        (ErrorKind::InvalidInput, io::ErrorKind::InvalidInput),
        (ErrorKind::InvalidData, io::ErrorKind::InvalidData),
        (ErrorKind::TimedOut, io::ErrorKind::TimedOut),
        (ErrorKind::WriteZero, io::ErrorKind::WriteZero),
        (ErrorKind::Interrupted, io::ErrorKind::Interrupted),
        (ErrorKind::Unsupported, io::ErrorKind::Unsupported),
        (ErrorKind::UnexpectedEof, io::ErrorKind::UnexpectedEof),
        (ErrorKind::OutOfMemory, io::ErrorKind::OutOfMemory),
        (ErrorKind::HostUnreachable, io::ErrorKind::HostUnreachable),
        (ErrorKind::NetworkUnreachable, io::ErrorKind::NetworkUnreachable),
        (ErrorKind::NetworkDown, io::ErrorKind::NetworkDown),
        (ErrorKind::NotADirectory, io::ErrorKind::NotADirectory),
        (ErrorKind::IsADirectory, io::ErrorKind::IsADirectory),
        (ErrorKind::DirectoryNotEmpty, io::ErrorKind::DirectoryNotEmpty),
        (ErrorKind::ReadOnlyFilesystem, io::ErrorKind::ReadOnlyFilesystem),
        (ErrorKind::StaleNetworkFileHandle, io::ErrorKind::StaleNetworkFileHandle),
        (ErrorKind::StorageFull, io::ErrorKind::StorageFull),
        (ErrorKind::NotSeekable, io::ErrorKind::NotSeekable),
        (ErrorKind::QuotaExceeded, io::ErrorKind::QuotaExceeded),
        (ErrorKind::FileTooLarge, io::ErrorKind::FileTooLarge),
        (ErrorKind::ResourceBusy, io::ErrorKind::ResourceBusy),
        (ErrorKind::ExecutableFileBusy, io::ErrorKind::ExecutableFileBusy),
        (ErrorKind::Deadlock, io::ErrorKind::Deadlock),
        (ErrorKind::CrossesDevices, io::ErrorKind::CrossesDevices),
        (ErrorKind::TooManyLinks, io::ErrorKind::TooManyLinks),
        (ErrorKind::InvalidFilename, io::ErrorKind::InvalidFilename),
        (ErrorKind::ArgumentListTooLong, io::ErrorKind::ArgumentListTooLong),
        (ErrorKind::Other, io::ErrorKind::Other),
    ] {
        assert_eq!(kind.description(), std_kind.to_string());
    }
}

#[test]
fn text_is_cut_and_compared() {
    assert!(text::contains("abcabd", "abd"));
    assert!(text::contains("abc", ""));
    assert!(!text::contains("ab", "abc"));
    assert!(!text::contains("aabb", "ba"));
    assert!(text::starts_with("abc", "ab"));
    assert!(!text::starts_with("a", "ab"));
    assert!(text::equal("p\u{e4}r", "p\u{e4}r"));
    assert!(!text::equal("par", "p\u{e4}r"));
    assert_eq!(text::trim_start("//a/b", "/"), "a/b");
    assert_eq!(text::trim_start("abab", "ab"), "");
    assert_eq!(text::trim_start("ab", ""), "ab");
    assert_eq!(text::trim_end("a//", '/'), "a");
    assert_eq!(text::trim_end("//", '/'), "");
    for n in [0u64, 9, 10, 1234567890, u64::MAX] {
        assert_eq!(text::to_decimal(n), n.to_string());
    }
    assert_eq!(text::chars_of("h\u{e9}!"), vec!['h', '\u{e9}', '!']);
    assert_eq!(text::string_of(&['h', '\u{e9}']), "h\u{e9}");
    assert_eq!(text::find(&['a', 'b', 'a'], 'a', 1), 2);
    assert_eq!(text::find(&['a', 'b', 'a'], 'x', 1), 3);
}

#[test]
fn diagnostics_tell_the_states() {
    assert_eq!(TARGET, "libp2p_webrtc_mux");
    let states = States {
        signaling_state: "stable".to_string(),
        ice_connection_state: "checking".to_string(),
        connection_state: "new".to_string(),
        sctp_state: "connected".to_string(),
    };
    let record = log_upgrade_step("server", "noise", &states);
    assert_eq!(record.level, Level::Debug);
    assert_eq!(record.message, "upgrade milestone");
    assert_eq!(
        record.fields,
        "role=server step=noise signaling_state=stable ice_connection_state=checking connection_state=new sctp_state=connected"
    );
    let record = log_sctp_snapshot("poll", Some(&states));
    assert_eq!(record.level, Level::Trace);
    assert_eq!(record.message, "SCTP snapshot");
    assert_eq!(
        record.fields,
        "context=poll sctp_state=connected connection_state=new ice_connection_state=checking"
    );
    let record = log_sctp_snapshot("poll", None);
    assert_eq!(record.message, "SCTP snapshot skipped (peer_conn locked)");
    assert_eq!(record.fields, "context=poll");
    let record = sctp_error("client", "gone");
    assert_eq!(record.level, Level::Error);
    assert_eq!(record.fields, "role=client error=gone");
    for (change, message) in [
        (Change::Signaling, "PeerConnection signaling state"),
        (Change::IceConnection, "PeerConnection ICE connection state"),
        (Change::Connection, "PeerConnection connection state"),
    ] {
        let record = state_change("client", change, "up");
        assert_eq!(record.message, message);
        assert_eq!(record.level, Level::Debug);
        assert_eq!(record.fields, "role=client state=up");
    }
}

#[test]
fn opening_connections_can_be_tracked() {
    let _opening = OpeningWebRtcConnection {};
}
