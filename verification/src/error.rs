//! Errors talking to the ScrollWM control socket.
use vstd::prelude::*;

verus! {

/// `std::io::Error` carried through unchanged inside [`ScrollWmError::Io`].
#[verifier::external_type_specification]
#[verifier::external_body]
pub struct ExIoError(std::io::Error);

/// Errors talking to the ScrollWM control socket.
#[derive(Debug)]
pub enum ScrollWmError {
    /// No socket file (`ENOENT`) or a stale socket (`ECONNREFUSED`): ScrollWM is
    /// not running. This is the expected "absent" case, not a hard error.
    NotRunning,
    /// A lower-level I/O failure (connect/write/read/timeout) other than the
    /// not-running case above.
    Io(std::io::Error),
    /// The server replied with an `error:`-prefixed line (command-level failure).
    Protocol(String),
    /// A reply that should have been JSON (`status`, `version`) could not be parsed.
    Parse(String),
    /// This platform has no Unix-domain ScrollWM socket (non-unix targets).
    Unsupported,
}

/// How a failed connect attempt ended, as far as the client tells failures apart.
#[derive(Debug, Clone, Copy, PartialEq, Eq, Structural)]
pub enum ConnectFailure {
    /// `ENOENT`: no socket file.
    NotFound,
    /// `ECONNREFUSED`: a socket file nobody listens on.
    ConnectionRefused,
    /// Any other failure.
    Other,
}

/// The error a failed connect becomes: the two "absent" kinds mean ScrollWM is
/// not running, anything else is an I/O error carrying the error itself.
pub open spec fn connect_error_for(kind: ConnectFailure, err: std::io::Error) -> ScrollWmError {
    match kind {
        ConnectFailure::NotFound => ScrollWmError::NotRunning,
        ConnectFailure::ConnectionRefused => ScrollWmError::NotRunning,
        ConnectFailure::Other => ScrollWmError::Io(err),
    }
}

/// How `std::io::Error::kind` classifies `err`: its `NotFound` and
/// `ConnectionRefused` kinds, or any other.
pub uninterp spec fn spec_connect_failure_kind(err: std::io::Error) -> ConnectFailure;

/// Calls `std::io::Error::kind` and tells its `NotFound` and
/// `ConnectionRefused` variants apart from all others. The kind is a function
/// of the error value alone, so it is trusted to be
/// `spec_connect_failure_kind(*err)`.
#[verifier::external_body]
fn connect_failure_kind(err: &std::io::Error) -> (k: ConnectFailure)
    ensures
        k == spec_connect_failure_kind(*err),
{
    match err.kind() {
        std::io::ErrorKind::NotFound => ConnectFailure::NotFound,
        std::io::ErrorKind::ConnectionRefused => ConnectFailure::ConnectionRefused,
        _ => ConnectFailure::Other,
    }
}

/// Calls `Display::fmt` of `std::io::Error`. The text comes from the operating
/// system, so nothing is stated of it.
#[verifier::external_body]
fn describe_io_error(err: &std::io::Error) -> String {
    format!("{}", err)
}

/// The error that a connect failure of the given kind becomes.
pub fn classify_connect_error(kind: ConnectFailure, err: std::io::Error) -> (e: ScrollWmError)
    ensures
        e == connect_error_for(kind, err),
{
    match kind {
        ConnectFailure::NotFound => ScrollWmError::NotRunning,
        ConnectFailure::ConnectionRefused => ScrollWmError::NotRunning,
        ConnectFailure::Other => ScrollWmError::Io(err),
    }
}

/// The error that a failed connect becomes (`ENOENT`/`ECONNREFUSED` map to
/// [`ScrollWmError::NotRunning`], anything else to [`ScrollWmError::Io`]).
pub fn connect_error(err: std::io::Error) -> (e: ScrollWmError)
    ensures
        e == connect_error_for(spec_connect_failure_kind(err), err),
        e is NotRunning || e == ScrollWmError::Io(err),
{
    let kind = connect_failure_kind(&err);
    classify_connect_error(kind, err)
}

impl ScrollWmError {
    /// The human-readable description of the error.
    pub fn to_string(&self) -> (s: String)
        ensures
            match self {
                ScrollWmError::NotRunning => s@ == "ScrollWM is not running"@,
                ScrollWmError::Io(_) => exists|d: Seq<char>|
                    s@ == "ScrollWM I/O error: "@ + d,
                ScrollWmError::Protocol(m) => s@ == "ScrollWM error: "@ + m@,
                ScrollWmError::Parse(m) => s@ == "ScrollWM reply parse error: "@ + m@,
                ScrollWmError::Unsupported => s@ == "ScrollWM is not supported on this platform"@,
            },
    {
        match self {
            ScrollWmError::NotRunning => "ScrollWM is not running".to_string(),
            ScrollWmError::Io(e) => {
                let mut s = "ScrollWM I/O error: ".to_string();
                let d = describe_io_error(e);
                s.append(d.as_str());
                s
            },
            ScrollWmError::Protocol(m) => {
                let mut s = "ScrollWM error: ".to_string();
                s.append(m.as_str());
                s
            },
            ScrollWmError::Parse(m) => {
                let mut s = "ScrollWM reply parse error: ".to_string();
                s.append(m.as_str());
                s
            },
            ScrollWmError::Unsupported => "ScrollWM is not supported on this platform".to_string(),
        }
    }
}

} // verus!
