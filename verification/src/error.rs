//! The failures that the client's steps receive and report, as plain values.

use vstd::prelude::*;

verus! {

/// What kind of failure an I/O operation met.
#[derive(Clone, Copy, Debug, PartialEq, Eq, Structural)]
pub enum ErrorKind {
    NotFound,
    PermissionDenied,
    ConnectionRefused,
    ConnectionReset,
    HostUnreachable,
    NetworkUnreachable,
    ConnectionAborted,
    NotConnected,
    AddrInUse,
    AddrNotAvailable,
    NetworkDown,
    BrokenPipe,
    AlreadyExists,
    WouldBlock,
    NotADirectory,
    IsADirectory,
    DirectoryNotEmpty,
    ReadOnlyFilesystem,
    StaleNetworkFileHandle,
    InvalidInput,
    InvalidData,
    TimedOut,
    WriteZero,
    StorageFull,
    NotSeekable,
    QuotaExceeded,
    FileTooLarge,
    ResourceBusy,
    ExecutableFileBusy,
    Deadlock,
    CrossesDevices,
    TooManyLinks,
    InvalidFilename,
    ArgumentListTooLong,
    Interrupted,
    Unsupported,
    UnexpectedEof,
    OutOfMemory,
    /// A failure that is reported by its text alone.
    Other,
    /// A failure of a kind that has no stable name.
    Uncategorized,
}

/// A failed I/O operation: its kind and its text.
#[derive(Debug, PartialEq, Eq)]
pub struct IoError {
    pub kind: ErrorKind,
    pub message: String,
}

/// A failed I/O operation, with its text as characters.
pub struct IoErrorView {
    pub kind: ErrorKind,
    pub message: Seq<char>,
}

impl View for IoError {
    type V = IoErrorView;

    open spec fn view(&self) -> IoErrorView {
        IoErrorView { kind: self.kind, message: self.message@ }
    }
}

impl IoError {
    /// A failure of the given kind with the given text.
    pub fn new(kind: ErrorKind, message: String) -> (error: IoError)
        ensures
            error == (IoError { kind, message }),
    {
        IoError { kind, message }
    }

    /// The kind of the failure.
    pub fn kind(&self) -> (kind: ErrorKind)
        ensures
            kind == self.kind,
    {
        self.kind
    }
}

/// A frame that could not be read or written. Every variant carries the text under which it
/// is reported.
#[derive(Debug, PartialEq, Eq)]
pub enum FramingError {
    /// The peer closed the stream between two frames or within one.
    UnexpectedEof { text: String },
    /// The stream itself failed.
    Io { error: IoError, text: String },
    /// The frame broke the protocol's rules.
    Malformed { text: String },
}

impl FramingError {
    /// The text under which the failure is reported.
    pub open spec fn spec_text(self) -> Seq<char> {
        match self {
            FramingError::UnexpectedEof { text } => text@,
            FramingError::Io { text, .. } => text@,
            FramingError::Malformed { text } => text@,
        }
    }

    /// The text under which the failure is reported.
    pub fn text(&self) -> (text: &String)
        ensures
            text@ == self.spec_text(),
    {
        match self {
            FramingError::UnexpectedEof { text } => text,
            FramingError::Io { text, .. } => text,
            FramingError::Malformed { text } => text,
        }
    }

    /// The text under which the failure is reported.
    pub fn into_text(self) -> (text: String)
        ensures
            text@ == self.spec_text(),
    {
        match self {
            FramingError::UnexpectedEof { text } => text,
            FramingError::Io { text, .. } => text,
            FramingError::Malformed { text } => text,
        }
    }
}

/// Why a client could not start or keep a session with its server.
#[derive(Debug, PartialEq, Eq)]
pub enum ClientError {
    /// No connection could be made.
    ConnectionFailed(IoError),
    /// The connection broke.
    ConnectionLost(IoError),
    /// The server refused the handshake.
    HandshakeRejected { version: u32, error: String },
    /// A frame could not be read or written.
    Protocol(FramingError),
    /// The server went down.
    ServerShutdown { reason: Option<String> },
}

/// A failed frame is reported by its own text, whatever went wrong, and an I/O failure is what it
/// was made of.
pub proof fn failures_speak_for_themselves(
    kind: ErrorKind,
    error: IoError,
    text: String,
    told: String,
    made: IoError,
)
    ensures
        call_ensures(FramingError::into_text, (FramingError::UnexpectedEof { text },), told)
            ==> told@ == text@,
        call_ensures(FramingError::into_text, (FramingError::Io { error, text },), told) ==> told@
            == text@,
        call_ensures(FramingError::into_text, (FramingError::Malformed { text },), told) ==> told@
            == text@,
        call_ensures(FramingError::text, (&FramingError::UnexpectedEof { text },), &told) ==> told@
            == text@,
        call_ensures(FramingError::text, (&FramingError::Io { error, text },), &told) ==> told@
            == text@,
        call_ensures(FramingError::text, (&FramingError::Malformed { text },), &told) ==> told@
            == text@,
        call_ensures(IoError::new, (kind, text), made) ==> made.kind == kind && made.message@
            == text@,
        call_ensures(IoError::kind, (&error,), kind) ==> kind == error.kind,
        error@.kind == error.kind,
        error@.message == error.message@,
{
}

} // verus!
