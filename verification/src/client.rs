//! The ScrollWM control client, written without I/O: each operation says which
//! request lines to send and what the replies mean. A transport performs the
//! round trips (one connect/write/read on the Unix socket each) and feeds the
//! replies back.
use vstd::prelude::*;
use std::time::Duration;

use crate::error::ScrollWmError;
use crate::model::{column_for_title, legacy_info, spec_column_for_title, ScrollWmInfo, StripStatus};
use crate::path::{control_socket_path_for, opt_bytes, resolved_socket_path};
use vstd::utf8::{decode_utf8, valid_utf8};
use crate::text::{
    chars_of, decimal, decimal_digits, decimal_value, lemma_decimal_round_trip, string_from_chars,
    trimmed,
};
use crate::wire::{
    frame_line, framed, reply_text, round_trip_outcome, round_trip_result, Request,
};

verus! {

broadcast use vstd::string::group_string_axioms;

/// Default per-call timeout for connect/read, in milliseconds. Local socket
/// round-trips are sub-millisecond; this only guards against a wedged app.
pub const DEFAULT_TIMEOUT_MS: u64 = 750;

/// What `Duration::from_millis` gives for `ms`.
pub uninterp spec fn spec_duration_from_millis(ms: u64) -> Duration;

/// Calls `Duration::from_millis`; trusted to give `spec_duration_from_millis(ms)`.
#[verifier::external_body]
fn duration_from_millis(ms: u64) -> (d: Duration)
    ensures
        d == spec_duration_from_millis(ms),
{
    Duration::from_millis(ms)
}

/// The default per-call timeout (750 ms).
pub fn default_timeout() -> (d: Duration)
    ensures
        d == spec_duration_from_millis(DEFAULT_TIMEOUT_MS),
{
    duration_from_millis(DEFAULT_TIMEOUT_MS)
}

/// The abstract state of a client: the socket it talks to and its timeout.
pub struct ClientView {
    pub socket: Seq<u8>,
    pub timeout: Duration,
}

/// A handle to the ScrollWM control socket. Cheap to construct and clone; each
/// operation is a fresh short-lived connection per round trip.
#[derive(Debug)]
pub struct ScrollWm {
    socket: Vec<u8>,
    timeout: Duration,
}

impl View for ScrollWm {
    type V = ClientView;

    closed spec fn view(&self) -> ClientView {
        ClientView { socket: self.socket@, timeout: self.timeout }
    }
}

/// `req` is the round trip that sends `line` for `client`: to its socket, with
/// its timeout, the line newline-terminated.
pub open spec fn request_for(client: ClientView, line: Seq<char>, req: Request) -> bool {
    &&& req.socket@ == client.socket
    &&& req.line@ == framed(line)
    &&& req.timeout == client.timeout
}

/// The request line that focuses the column with 1-based index `n`.
pub open spec fn focus_line(n: nat) -> Seq<char> {
    "focus "@ + decimal_digits(n)
}

/// Law: a focus request names the column it was made for: the digits after
/// `focus ` denote the 1-based index, nothing lost in formatting.
pub proof fn lemma_focus_line_names_index(n: nat)
    ensures
        decimal_value(focus_line(n).subrange(6, focus_line(n).len() as int)) == n,
{
    reveal_strlit("focus ");
    assert(focus_line(n).subrange(6, focus_line(n).len() as int) =~= decimal_digits(n));
    lemma_decimal_round_trip(n);
}

/// The reply text of a live ScrollWM to `ping`.
pub open spec fn pong() -> Seq<char> {
    seq!['p', 'o', 'n', 'g']
}

/// The failure reported when no column title contains `needle`.
pub open spec fn no_title_message(needle: Seq<char>) -> Seq<char> {
    "no managed column title contains \""@ + needle + "\""@
}

/// One round trip whose reply is a text line.
#[derive(Debug)]
pub struct Exchange {
    /// What to send.
    pub request: Request,
}

impl Exchange {
    /// What the round trip means, given how it ended: the transport's error, or
    /// the bytes read back (decoded, trimmed, and an `error:` line surfaced as
    /// [`ScrollWmError::Protocol`]).
    pub fn finish(&self, raw: Result<Vec<u8>, ScrollWmError>) -> (r: Result<String, ScrollWmError>)
        ensures
            round_trip_outcome(raw, r),
            raw matches Ok(bytes) ==> (valid_utf8(bytes@) ==> reply_text(bytes@) == trimmed(
                decode_utf8(bytes@),
            )),
    {
        round_trip_result(raw)
    }
}

/// The liveness probe: `ping`, expecting `pong`.
#[derive(Debug)]
pub struct Liveness {
    /// The `ping` round trip.
    pub exchange: Exchange,
}

impl Liveness {
    /// Whether ScrollWM answered `pong`; false on any error (not running, I/O,
    /// timeout, `error:` reply), so callers can branch without matching.
    pub fn finish(&self, raw: Result<Vec<u8>, ScrollWmError>) -> (b: bool)
        ensures
            b == (raw matches Ok(bytes) && reply_text(bytes@) == pong()),
            raw matches Ok(bytes) ==> (valid_utf8(bytes@) ==> b == (trimmed(decode_utf8(bytes@))
                == pong())),
    {
        let r = self.exchange.finish(raw);
        match r {
            Ok(t) => {
                let expected = "pong".to_string();
                proof {
                    reveal_strlit("pong");
                }
                assert(expected@ =~= pong());
                t == expected
            },
            Err(_) => false,
        }
    }
}

/// Focusing a column by title: a `status` round trip, then a `focus` one.
#[derive(Debug)]
pub struct TitleFocus {
    /// The client the operation runs for.
    pub client: ScrollWm,
    /// The text to look for in the column titles.
    pub needle: String,
    /// The `status` round trip to make first.
    pub status: Exchange,
}

impl TitleFocus {
    /// The second step, given the strip status that the first one read: the
    /// `focus <index>` round trip for the leftmost column whose title contains
    /// the needle (ignoring ASCII case), or a [`ScrollWmError::Protocol`] error
    /// when none does. A failed status read is passed on unchanged.
    pub fn resume(&self, status: Result<StripStatus, ScrollWmError>) -> (r: Result<
        Exchange,
        ScrollWmError,
    >)
        ensures
            match status {
                Err(e) => r == Err::<Exchange, ScrollWmError>(e),
                Ok(st) => match spec_column_for_title(st, self.needle@) {
                    Some(i) => r matches Ok(x) && request_for(
                        self.client@,
                        focus_line(i as nat),
                        x.request,
                    ),
                    None => r matches Err(ScrollWmError::Protocol(m)) && m@ == no_title_message(
                        self.needle@,
                    ),
                },
            },
    {
        match status {
            Err(e) => Err(e),
            Ok(st) => match column_for_title(&st, self.needle.as_str()) {
                Some(index) => Ok(self.client.focus_index(index)),
                None => {
                    let mut m = "no managed column title contains \"".to_string();
                    m.append(self.needle.as_str());
                    m.append("\"");
                    Err(ScrollWmError::Protocol(m))
                },
            },
        }
    }
}

/// The capability handshake: `version`, falling back to `status` on a
/// ScrollWM too old to know that verb.
#[derive(Debug)]
pub struct Handshake {
    /// The client the operation runs for.
    pub client: ScrollWm,
    /// The `version` round trip to make first.
    pub version: Exchange,
}

/// What the handshake does after the `version` round trip.
#[derive(Debug)]
pub enum HandshakeStep {
    /// Decode this `version` reply (a JSON object) as the capabilities.
    Decode(String),
    /// The verb is unknown: read the strip status with this round trip; when
    /// it succeeds, the capabilities are the protocol-0 ones
    /// ([`crate::model::legacy_info`]).
    Fallback(Exchange),
    /// The handshake failed with this error.
    Failed(ScrollWmError),
}

impl Handshake {
    /// The next step after the `version` round trip ended with `reply`: decode
    /// a success, fall back to `status` on an `error:` reply, fail on anything
    /// else.
    pub fn resume(&self, reply: Result<String, ScrollWmError>) -> (s: HandshakeStep)
        ensures
            match reply {
                Ok(t) => s matches HandshakeStep::Decode(d) && d@ == t@,
                Err(ScrollWmError::Protocol(_)) => s matches HandshakeStep::Fallback(x)
                    && request_for(self.client@, "status"@, x.request),
                Err(e) => s == HandshakeStep::Failed(e),
            },
    {
        match reply {
            Ok(t) => HandshakeStep::Decode(t),
            Err(ScrollWmError::Protocol(_)) => HandshakeStep::Fallback(self.client.status()),
            Err(e) => HandshakeStep::Failed(e),
        }
    }

    /// The end of the fallback, given how the `status` read went: a ScrollWM
    /// that answers `status` gets the protocol-0 capabilities (name
    /// "ScrollWM", empty version, protocol 0, no verbs); a failed status read
    /// (transport, `error:` reply or undecodable JSON) is the handshake's
    /// error, unchanged.
    pub fn finish_fallback(&self, status: Result<StripStatus, ScrollWmError>) -> (r: Result<
        ScrollWmInfo,
        ScrollWmError,
    >)
        ensures
            match status {
                Ok(_) => r matches Ok(info) && info.name@ == "ScrollWM"@ && info.version@
                    == Seq::<char>::empty() && info.protocol == 0 && info.verbs@.len() == 0,
                Err(e) => r == Err::<ScrollWmInfo, ScrollWmError>(e),
            },
    {
        match status {
            Ok(_) => Ok(legacy_info()),
            Err(e) => Err(e),
        }
    }
}

/// A copy of the bytes `b`.
fn copy_bytes(b: &[u8]) -> (r: Vec<u8>)
    ensures
        r@ == b@,
{
    let mut r: Vec<u8> = Vec::new();
    for k in 0..b.len()
        invariant
            r@ == b@.subrange(0, k as int),
    {
        r.push(b[k]);
        assert(r@ =~= b@.subrange(0, k + 1));
    }
    assert(b@.subrange(0, b@.len() as int) =~= b@);
    r
}

impl Clone for ScrollWm {
    /// A copy of this client: same socket, same timeout.
    fn clone(&self) -> (c: ScrollWm)
        ensures
            c@ == self@,
    {
        ScrollWm { socket: copy_bytes(self.socket.as_slice()), timeout: self.timeout }
    }
}

impl ScrollWm {
    /// A client for `socket` with the given timeout.
    fn at(socket: Vec<u8>, timeout: Duration) -> (c: ScrollWm)
        ensures
            c@.socket == socket@,
            c@.timeout == timeout,
    {
        ScrollWm { socket, timeout }
    }

    /// Construct using the default socket path and timeout, given the value of
    /// `SCROLLWM_CONTROL_SOCK` when it is set: a non-empty value is the socket
    /// path, otherwise it is `ScrollWM/control.sock` under the platform's data
    /// directory.
    pub fn discover(env_override: Option<Vec<u8>>) -> (c: ScrollWm)
        ensures
            c@.timeout == spec_duration_from_millis(DEFAULT_TIMEOUT_MS),
            env_override is Some && env_override->0@.len() > 0 ==> c@.socket
                == env_override->0@,
            !(env_override is Some && env_override->0@.len() > 0) ==> exists|
                data: Option<Seq<u8>>,
                home: Option<Seq<u8>>,
            | c@.socket == resolved_socket_path(opt_bytes(env_override), data, home),
    {
        let socket = control_socket_path_for(env_override);
        ScrollWm::at(socket, default_timeout())
    }

    /// Construct against an explicit socket path (sandbox / tests).
    pub fn with_socket(socket: &[u8]) -> (c: ScrollWm)
        ensures
            c@.socket == socket@,
            c@.timeout == spec_duration_from_millis(DEFAULT_TIMEOUT_MS),
    {
        ScrollWm::at(copy_bytes(socket), default_timeout())
    }

    /// Override the per-call timeout.
    pub fn with_timeout(self, timeout: Duration) -> (c: ScrollWm)
        ensures
            c@.socket == self@.socket,
            c@.timeout == timeout,
    {
        ScrollWm { socket: self.socket, timeout }
    }

    /// The resolved socket path this client talks to.
    pub fn socket_path(&self) -> (p: &[u8])
        ensures
            p@ == self@.socket,
    {
        self.socket.as_slice()
    }

    /// The round trip that sends one verb line. Its reply is trimmed; an
    /// `error:`-prefixed reply is surfaced as [`ScrollWmError::Protocol`]
    /// (see [`Exchange::finish`]).
    pub fn send(&self, line: &str) -> (x: Exchange)
        ensures
            request_for(self@, line@, x.request),
    {
        Exchange {
            request: Request {
                socket: copy_bytes(self.socket.as_slice()),
                line: frame_line(line),
                timeout: self.timeout,
            },
        }
    }

    /// Liveness probe: `ping` -> `pong` (see [`Liveness::finish`]).
    pub fn is_running(&self) -> (l: Liveness)
        ensures
            request_for(self@, "ping"@, l.exchange.request),
    {
        Liveness { exchange: self.send("ping") }
    }

    /// Capability handshake (see [`Handshake::resume`]).
    pub fn hello(&self) -> (h: Handshake)
        ensures
            h.client@ == self@,
            request_for(self@, "version"@, h.version.request),
    {
        Handshake { client: self.clone(), version: self.send("version") }
    }

    /// The round trip that reads the live strip status (a JSON object).
    pub fn status(&self) -> (x: Exchange)
        ensures
            request_for(self@, "status"@, x.request),
    {
        self.send("status")
    }

    /// Adopt the current Space's windows into the strip (idempotent: also
    /// re-syncs when already managing). This affects every manageable window
    /// on the Space, so callers should only invoke it intentionally.
    pub fn arrange(&self) -> (x: Exchange)
        ensures
            request_for(self@, "arrange"@, x.request),
    {
        self.send("arrange")
    }

    /// Focus a column by 1-based index (the CLI is 1-based).
    pub fn focus_index(&self, one_based: usize) -> (x: Exchange)
        ensures
            request_for(self@, focus_line(one_based as nat), x.request),
    {
        let mut v = chars_of("focus ");
        let digits = decimal(one_based);
        let ghost start = v@;
        for k in 0..digits.len()
            invariant
                v@ == start + digits@.subrange(0, k as int),
        {
            v.push(digits[k]);
            assert(v@ =~= start + digits@.subrange(0, k + 1));
        }
        assert(digits@.subrange(0, digits@.len() as int) =~= digits@);
        let line = string_from_chars(&v);
        self.send(line.as_str())
    }

    /// Focus the next column.
    pub fn focus_next(&self) -> (x: Exchange)
        ensures
            request_for(self@, "focus next"@, x.request),
    {
        self.send("focus next")
    }

    /// Focus the previous column.
    pub fn focus_prev(&self) -> (x: Exchange)
        ensures
            request_for(self@, "focus prev"@, x.request),
    {
        self.send("focus prev")
    }

    /// Focus the managed column whose window title contains `needle`
    /// (case-insensitive), resolved from a fresh `status` read (see
    /// [`TitleFocus::resume`]).
    pub fn focus_title(&self, needle: &str) -> (t: TitleFocus)
        ensures
            t.client@ == self@,
            t.needle@ == needle@,
            request_for(self@, "status"@, t.status.request),
    {
        TitleFocus { client: self.clone(), needle: needle.to_string(), status: self.status() }
    }
}

} // verus!
