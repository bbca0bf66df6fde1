//! The wire contract of the control socket: one newline-terminated request
//! line out, one reply line back; replies beginning with `error:` are
//! command-level failures.
use vstd::prelude::*;
use std::time::Duration;

use crate::error::ScrollWmError;
use crate::text::{chars_of, has_prefix, string_from_chars, trim, trim_chars, trimmed};

verus! {

broadcast use vstd::string::group_string_axioms;

/// One round trip to make on the control socket.
#[derive(Debug)]
pub struct Request {
    /// Path of the Unix-domain control socket to connect to (its bytes).
    pub socket: Vec<u8>,
    /// The request line to write, newline-terminated.
    pub line: String,
    /// Per-call timeout for connect, write and read.
    pub timeout: Duration,
}

/// The request line for `line`: itself when it already ends with a newline,
/// else `line` followed by one.
pub open spec fn framed(line: Seq<char>) -> Seq<char> {
    if line.len() > 0 && line.last() == '\n' {
        line
    } else {
        line.push('\n')
    }
}

/// The prefix that marks a command-level failure in a reply.
pub open spec fn error_prefix() -> Seq<char> {
    seq!['e', 'r', 'r', 'o', 'r', ':']
}

/// What `String::from_utf8_lossy` makes of `bytes`.
pub uninterp spec fn spec_utf8_lossy(bytes: Seq<u8>) -> Seq<char>;

/// The reply text that the bytes read back from the socket carry: decoded
/// with replacement of invalid UTF-8, then trimmed.
pub open spec fn reply_text(bytes: Seq<u8>) -> Seq<char> {
    trimmed(spec_utf8_lossy(bytes))
}

/// `r` is what a reply with text `text` means: an `error:` line is a
/// [`ScrollWmError::Protocol`] carrying the trimmed rest, any other line is
/// the reply itself.
pub open spec fn reply_outcome(text: Seq<char>, r: Result<String, ScrollWmError>) -> bool {
    if has_prefix(text, error_prefix()) {
        r matches Err(ScrollWmError::Protocol(m)) && m@ == trimmed(
            text.subrange(error_prefix().len() as int, text.len() as int),
        )
    } else {
        r matches Ok(t) && t@ == text
    }
}

/// `r` is what a round trip that ended with `raw` means: a transport error
/// passes through unchanged, received bytes are read as a reply line.
pub open spec fn round_trip_outcome(
    raw: Result<Vec<u8>, ScrollWmError>,
    r: Result<String, ScrollWmError>,
) -> bool {
    match raw {
        Err(e) => r == Err::<String, ScrollWmError>(e),
        Ok(bytes) => reply_outcome(reply_text(bytes@), r),
    }
}

/// Calls `String::from_utf8_lossy` (and takes ownership of its result).
/// Trusted to give `spec_utf8_lossy(bytes)`, and, as std documents, the
/// decoded characters themselves when `bytes` is valid UTF-8.
#[verifier::external_body]
fn utf8_lossy(bytes: &[u8]) -> (s: String)
    ensures
        s@ == spec_utf8_lossy(bytes@),
        vstd::utf8::valid_utf8(bytes@) ==> s@ == vstd::utf8::decode_utf8(bytes@),
{
    String::from_utf8_lossy(bytes).into_owned()
}

/// The request line for `line`, newline-terminated (a trailing newline is added
/// only when absent).
pub fn frame_line(line: &str) -> (r: String)
    ensures
        r@ == framed(line@),
{
    let mut v = chars_of(line);
    let n = v.len();
    if !(n > 0 && v[n - 1] == '\n') {
        v.push('\n');
    }
    string_from_chars(&v)
}

/// Law: a request line ends with a newline, and framing a framed line leaves it
/// unchanged.
pub proof fn lemma_framing_idempotent(line: Seq<char>)
    ensures
        framed(line).len() > 0,
        framed(line).last() == '\n',
        framed(framed(line)) == framed(line),
{
}

/// The reply text carried by the bytes read back from the socket.
pub fn decode_reply(bytes: &[u8]) -> (s: String)
    ensures
        s@ == reply_text(bytes@),
        vstd::utf8::valid_utf8(bytes@) ==> s@ == trimmed(vstd::utf8::decode_utf8(bytes@)),
{
    let raw = utf8_lossy(bytes);
    trim(raw.as_str())
}

/// What a reply line means: an `error:` line is a [`ScrollWmError::Protocol`]
/// with the trimmed rest of the line, any other line is returned as it is.
pub fn interpret_reply(text: String) -> (r: Result<String, ScrollWmError>)
    ensures
        reply_outcome(text@, r),
{
    let v = chars_of(text.as_str());
    let p: Vec<char> = vec!['e', 'r', 'r', 'o', 'r', ':'];
    assert(p@ =~= error_prefix());
    let n = v.len();
    let m = p.len();
    let mut prefixed = m <= n;
    let mut k: usize = 0;
    while prefixed && k < m
        invariant
            m == p.len() == 6,
            n == v.len(),
            k <= m,
            prefixed ==> m <= n,
            prefixed ==> forall|q: int| 0 <= q < k ==> v@[q] == p@[q],
            !prefixed ==> !has_prefix(v@, p@),
        decreases m - k + (if prefixed { 1int } else { 0int }),
    {
        if v[k] != p[k] {
            assert(v@.subrange(0, m as int)[k as int] != p@[k as int]);
            prefixed = false;
        } else {
            k += 1;
        }
    }
    if prefixed {
        assert(v@.subrange(0, m as int) =~= p@);
        let mut rest: Vec<char> = Vec::new();
        let mut j: usize = m;
        while j < n
            invariant
                m <= j <= n == v.len(),
                rest@ == v@.subrange(m as int, j as int),
            decreases n - j,
        {
            rest.push(v[j]);
            j += 1;
            assert(rest@ =~= v@.subrange(m as int, j as int));
        }
        let t = trim_chars(&rest);
        Err(ScrollWmError::Protocol(string_from_chars(&t)))
    } else {
        Ok(text)
    }
}

/// What a round trip that ended with `raw` means for the caller: transport
/// errors pass through, received bytes are decoded and interpreted (a reply in
/// valid UTF-8 reads as its trimmed characters).
pub fn round_trip_result(raw: Result<Vec<u8>, ScrollWmError>) -> (r: Result<String, ScrollWmError>)
    ensures
        round_trip_outcome(raw, r),
        raw matches Ok(bytes) ==> (vstd::utf8::valid_utf8(bytes@) ==> reply_text(bytes@) == trimmed(
            vstd::utf8::decode_utf8(bytes@),
        )),
{
    match raw {
        Err(e) => Err(e),
        Ok(bytes) => {
            let text = decode_reply(bytes.as_slice());
            interpret_reply(text)
        },
    }
}

/// Law: a reply is never handed back as a success when it is an `error:` line,
/// and a success is always the reply text itself.
pub proof fn lemma_error_lines_never_succeed(text: Seq<char>, r: Result<String, ScrollWmError>)
    requires
        reply_outcome(text, r),
    ensures
        r is Ok ==> !has_prefix(r->Ok_0@, error_prefix()) && r->Ok_0@ == text,
        has_prefix(text, error_prefix()) <==> r is Err,
{
}

/// The first six characters of `text` spell `error:`.
pub open spec fn starts_with_error_marker(text: Seq<char>) -> bool {
    &&& text.len() >= 6
    &&& text[0] == 'e'
    &&& text[1] == 'r'
    &&& text[2] == 'r'
    &&& text[3] == 'o'
    &&& text[4] == 'r'
    &&& text[5] == ':'
}

/// Law: a reply is a command-level failure exactly when its first six
/// characters are `error:` (an `error:` further inside the line does not
/// count), and a reply that does not begin with `e`, such as a JSON object,
/// comes back unchanged.
pub proof fn lemma_protocol_error_exactly_on_error_prefix(
    text: Seq<char>,
    r: Result<String, ScrollWmError>,
)
    requires
        reply_outcome(text, r),
    ensures
        r is Err <==> starts_with_error_marker(text),
        (text.len() == 0 || text[0] != 'e') ==> (r matches Ok(t) && t@ == text),
        r matches Err(ScrollWmError::Protocol(m)) ==> m@ == trimmed(text.subrange(6, text.len() as int)),
{
    if has_prefix(text, error_prefix()) {
        let head = text.subrange(0, 6);
        assert(head[0] == 'e' && head[1] == 'r' && head[2] == 'r' && head[3] == 'o' && head[4]
            == 'r' && head[5] == ':');
    } else if starts_with_error_marker(text) {
        assert(text.subrange(0, 6) =~= error_prefix());
    }
}

} // verus!
