//! The ways in which the transport fails.
use vstd::prelude::*;
use vstd::string::*;

use crate::text::{law_what_occurs_is_there, occurs_in};

verus! {

/// The kind of an I/O failure.
#[derive(Clone, Copy, Debug, PartialEq, Eq, Structural)]
pub enum ErrorKind {
    NotFound,
    PermissionDenied,
    ConnectionRefused,
    ConnectionReset,
    ConnectionAborted,
    NotConnected,
    AddrInUse,
    AddrNotAvailable,
    BrokenPipe,
    AlreadyExists,
    WouldBlock,
    InvalidInput,
    InvalidData,
    TimedOut,
    WriteZero,
    Interrupted,
    Unsupported,
    UnexpectedEof,
    OutOfMemory,
    HostUnreachable,
    NetworkUnreachable,
    NetworkDown,
    NotADirectory,
    IsADirectory,
    DirectoryNotEmpty,
    ReadOnlyFilesystem,
    StaleNetworkFileHandle,
    StorageFull,
    NotSeekable,
    QuotaExceeded,
    FileTooLarge,
    ResourceBusy,
    ExecutableFileBusy,
    Deadlock,
    CrossesDevices,
    TooManyLinks,
    InvalidFilename,
    ArgumentListTooLong,
    Other,
}

impl ErrorKind {
    /// The words for this kind.
    pub open spec fn text(self) -> Seq<char> {
        match self {
            ErrorKind::NotFound => "entity not found"@,
            ErrorKind::PermissionDenied => "permission denied"@,
            ErrorKind::ConnectionRefused => "connection refused"@,
            ErrorKind::ConnectionReset => "connection reset"@,
            ErrorKind::ConnectionAborted => "connection aborted"@,
            ErrorKind::NotConnected => "not connected"@,
            ErrorKind::AddrInUse => "address in use"@,
            ErrorKind::AddrNotAvailable => "address not available"@,
            ErrorKind::BrokenPipe => "broken pipe"@,
            ErrorKind::AlreadyExists => "entity already exists"@,
            ErrorKind::WouldBlock => "operation would block"@,
            ErrorKind::InvalidInput => "invalid input parameter"@,
            ErrorKind::InvalidData => "invalid data"@,
            ErrorKind::TimedOut => "timed out"@,
            ErrorKind::WriteZero => "write zero"@,
            ErrorKind::Interrupted => "operation interrupted"@,
            ErrorKind::Unsupported => "unsupported"@,
            ErrorKind::UnexpectedEof => "unexpected end of file"@,
            ErrorKind::OutOfMemory => "out of memory"@,
            ErrorKind::HostUnreachable => "host unreachable"@,
            ErrorKind::NetworkUnreachable => "network unreachable"@,
            ErrorKind::NetworkDown => "network down"@,
            ErrorKind::NotADirectory => "not a directory"@,
            ErrorKind::IsADirectory => "is a directory"@,
            ErrorKind::DirectoryNotEmpty => "directory not empty"@,
            ErrorKind::ReadOnlyFilesystem => "read-only filesystem or storage medium"@,
            ErrorKind::StaleNetworkFileHandle => "stale network file handle"@,
            ErrorKind::StorageFull => "no storage space"@,
            ErrorKind::NotSeekable => "seek on unseekable file"@,
            ErrorKind::QuotaExceeded => "quota exceeded"@,
            ErrorKind::FileTooLarge => "file too large"@,
            ErrorKind::ResourceBusy => "resource busy"@,
            ErrorKind::ExecutableFileBusy => "executable file busy"@,
            ErrorKind::Deadlock => "deadlock"@,
            ErrorKind::CrossesDevices => "cross-device link or rename"@,
            ErrorKind::TooManyLinks => "too many links"@,
            ErrorKind::InvalidFilename => "invalid filename"@,
            ErrorKind::ArgumentListTooLong => "argument list too long"@,
            ErrorKind::Other => "other error"@,
        }
    }

    /// The words for this kind.
    pub fn description(self) -> (r: &'static str)
        ensures
            r@ == self.text(),
    {
        match self {
            ErrorKind::NotFound => "entity not found",
            ErrorKind::PermissionDenied => "permission denied",
            ErrorKind::ConnectionRefused => "connection refused",
            ErrorKind::ConnectionReset => "connection reset",
            ErrorKind::ConnectionAborted => "connection aborted",
            ErrorKind::NotConnected => "not connected",
            ErrorKind::AddrInUse => "address in use",
            ErrorKind::AddrNotAvailable => "address not available",
            ErrorKind::BrokenPipe => "broken pipe",
            ErrorKind::AlreadyExists => "entity already exists",
            ErrorKind::WouldBlock => "operation would block",
            ErrorKind::InvalidInput => "invalid input parameter",
            ErrorKind::InvalidData => "invalid data",
            ErrorKind::TimedOut => "timed out",
            ErrorKind::WriteZero => "write zero",
            ErrorKind::Interrupted => "operation interrupted",
            ErrorKind::Unsupported => "unsupported",
            ErrorKind::UnexpectedEof => "unexpected end of file",
            ErrorKind::OutOfMemory => "out of memory",
            ErrorKind::HostUnreachable => "host unreachable",
            ErrorKind::NetworkUnreachable => "network unreachable",
            ErrorKind::NetworkDown => "network down",
            ErrorKind::NotADirectory => "not a directory",
            ErrorKind::IsADirectory => "is a directory",
            ErrorKind::DirectoryNotEmpty => "directory not empty",
            ErrorKind::ReadOnlyFilesystem => "read-only filesystem or storage medium",
            ErrorKind::StaleNetworkFileHandle => "stale network file handle",
            ErrorKind::StorageFull => "no storage space",
            ErrorKind::NotSeekable => "seek on unseekable file",
            ErrorKind::QuotaExceeded => "quota exceeded",
            ErrorKind::FileTooLarge => "file too large",
            ErrorKind::ResourceBusy => "resource busy",
            ErrorKind::ExecutableFileBusy => "executable file busy",
            ErrorKind::Deadlock => "deadlock",
            ErrorKind::CrossesDevices => "cross-device link or rename",
            ErrorKind::TooManyLinks => "too many links",
            ErrorKind::InvalidFilename => "invalid filename",
            ErrorKind::ArgumentListTooLong => "argument list too long",
            ErrorKind::Other => "other error",
        }
    }
}

/// An I/O failure: its kind and what it says.
#[derive(Debug, PartialEq, Eq)]
pub struct IoError {
    pub kind: ErrorKind,
    pub message: String,
}

impl IoError {
    /// This failure is of `kind` and says `message`.
    pub open spec fn says(self, kind: ErrorKind, message: Seq<char>) -> bool {
        self.kind == kind && self.message@ == message
    }

    /// A failure of `kind` that says `msg`.
    pub fn new(kind: ErrorKind, msg: &str) -> (r: IoError)
        ensures
            r.says(kind, msg@),
    {
        IoError { kind, message: msg.to_owned() }
    }
}

/// Error in WebRTC.
#[derive(Debug, PartialEq, Eq)]
pub enum Error {
    /// Error in the WebRTC stack, with what it said.
    WebRtc(String),
    /// I/O error.
    Io(IoError),
    /// I/O error of which only the kind is known.
    IoErr(ErrorKind),
    /// The peer could not be authenticated.
    Authentication,
    /// The peer is another one than expected; both in their textual form.
    InvalidPeerID { expected: String, got: String },
    /// Dialing needs a previous listen.
    NoListeners,
    /// A bug in this crate.
    Internal(String),
    /// A datagram that is of no use.
    InvalidData,
    /// A datagram could not be handed to its connection, with what was said.
    Send(String),
    /// The DTLS certificate is missing or invalid.
    DtlsCert,
    /// Network data could not be parsed, with what was said.
    Net(String),
    /// Disconnected while opening.
    Disconnected,
    /// No such channel.
    ChannelDoesntExist,
    /// A lock is poisoned.
    LockPoisoned,
    /// No stream could be made.
    StreamCreationFailed,
    /// The Noise handshake failed.
    NoiseHandshakeFailed,
    /// A reply was cancelled.
    OneshotCanceled,
    /// The WebRTC stack did not take a datagram.
    InputRejected,
    /// The sender of an opened connection was not handed over.
    Receive,
}

impl Error {
    /// What this error says.
    pub open spec fn text(self) -> Seq<char> {
        match self {
            Error::WebRtc(e) => "`str0m` error: `"@ + e@ + "`"@,
            Error::Io(_) => "IO error"@,
            Error::IoErr(kind) => "I/O error: `"@ + kind.text() + "`"@,
            Error::Authentication => "failed to authenticate peer"@,
            Error::InvalidPeerID { expected, got } => "invalid peer ID (expected "@ + expected@
                + ", got "@ + got@ + ")"@,
            Error::NoListeners => "no active listeners, can not dial without a previous listen"@,
            Error::Internal(e) => "internal error: "@ + e@ + " (see debug logs)"@,
            Error::InvalidData => "Invalid data"@,
            Error::Send(e) => "send error: `"@ + e@ + "`"@,
            Error::DtlsCert => "DTLS certificate error, it is missing or invalid"@,
            Error::Net(e) => "WebRTC Network error: `"@ + e@ + "`"@,
            Error::Disconnected => "disconnected while opening"@,
            Error::ChannelDoesntExist => "channel doesn't exist"@,
            Error::LockPoisoned => "lock poisoned"@,
            Error::StreamCreationFailed => "channel creation failed"@,
            Error::NoiseHandshakeFailed => "Noise handshake failed"@,
            Error::OneshotCanceled => "oneshot canceled"@,
            Error::InputRejected => "input rejected"@,
            Error::Receive => "failed to receive the connection's sender"@,
        }
    }

    /// Create a new `Error` from an I/O error kind and a string.
    pub fn new(kind: ErrorKind, msg: &str) -> (r: Error)
        ensures
            r matches Error::Io(e) && e.says(kind, msg@),
    {
        Error::Io(IoError::new(kind, msg))
    }

    /// What this error says.
    pub fn message(&self) -> (r: String)
        ensures
            r@ == self.text(),
    {
        match self {
            Error::WebRtc(e) => quoted("`str0m` error: `", e.as_str(), "`"),
            Error::Io(_) => "IO error".to_owned(),
            Error::IoErr(kind) => quoted("I/O error: `", kind.description(), "`"),
            Error::Authentication => "failed to authenticate peer".to_owned(),
            Error::InvalidPeerID { expected, got } => {
                let mut s = quoted("invalid peer ID (expected ", expected.as_str(), ", got ");
                s.append(got.as_str());
                s.append(")");
                s
            },
            Error::NoListeners =>
                "no active listeners, can not dial without a previous listen".to_owned(),
            Error::Internal(e) => quoted("internal error: ", e.as_str(), " (see debug logs)"),
            Error::InvalidData => "Invalid data".to_owned(),
            Error::Send(e) => quoted("send error: `", e.as_str(), "`"),
            Error::DtlsCert => "DTLS certificate error, it is missing or invalid".to_owned(),
            Error::Net(e) => quoted("WebRTC Network error: `", e.as_str(), "`"),
            Error::Disconnected => "disconnected while opening".to_owned(),
            Error::ChannelDoesntExist => "channel doesn't exist".to_owned(),
            Error::LockPoisoned => "lock poisoned".to_owned(),
            Error::StreamCreationFailed => "channel creation failed".to_owned(),
            Error::NoiseHandshakeFailed => "Noise handshake failed".to_owned(),
            Error::OneshotCanceled => "oneshot canceled".to_owned(),
            Error::InputRejected => "input rejected".to_owned(),
            Error::Receive => "failed to receive the connection's sender".to_owned(),
        }
    }
}

fn quoted(before: &str, inner: &str, after: &str) -> (r: String)
    ensures
        r@ == before@ + inner@ + after@,
{
    let mut s = before.to_owned();
    s.append(inner);
    s.append(after);
    s
}

/// What an error says holds what it was told, word for word: the text of what failed below, the
/// words for the kind of an I/O failure, and the peers in question, the expected one first.
pub proof fn law_errors_say_what_they_were_told(error: Error)
    ensures
        error matches Error::WebRtc(e) ==> occurs_in(error.text(), e@),
        error matches Error::Internal(e) ==> occurs_in(error.text(), e@),
        error matches Error::Send(e) ==> occurs_in(error.text(), e@),
        error matches Error::Net(e) ==> occurs_in(error.text(), e@),
        error matches Error::IoErr(kind) ==> occurs_in(error.text(), kind.text()),
        error matches Error::InvalidPeerID { expected, got } ==> error.text()
            == "invalid peer ID (expected "@ + expected@ + ", got "@ + got@ + ")"@,
{
    match error {
        Error::WebRtc(e) => {
            law_what_occurs_is_there("`str0m` error: `"@, e@, "`"@);
        },
        Error::Internal(e) => {
            law_what_occurs_is_there("internal error: "@, e@, " (see debug logs)"@);
        },
        Error::Send(e) => {
            law_what_occurs_is_there("send error: `"@, e@, "`"@);
        },
        Error::Net(e) => {
            law_what_occurs_is_there("WebRTC Network error: `"@, e@, "`"@);
        },
        Error::IoErr(kind) => {
            law_what_occurs_is_there("I/O error: `"@, kind.text(), "`"@);
        },
        _ => {},
    }
}

} // verus!
