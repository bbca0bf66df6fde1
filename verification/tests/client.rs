use std::time::Duration;

use jcode_scrollwm::{
    default_timeout, Column, HandshakeStep, ScrollWm, ScrollWmError, StripStatus,
    DEFAULT_TIMEOUT_MS,
};

fn client() -> ScrollWm {
    ScrollWm::with_socket(b"/tmp/jcode-scrollwm-test.sock")
}

fn status_with_titles(titles: &[&str]) -> StripStatus {
    StripStatus {
        managing: true,
        columns: titles
            .iter()
            .enumerate()
            .map(|(i, t)| Column { index: (i + 1) as u32, title: t.to_string(), ..Default::default() })
            .collect(),
        ..Default::default()
    }
}

#[test]
fn with_socket_uses_default_timeout() {
    let c = client();
    assert_eq!(c.socket_path(), b"/tmp/jcode-scrollwm-test.sock");
    let x = c.send("ping");
    assert_eq!(x.request.timeout, Duration::from_millis(750));
    assert_eq!(default_timeout(), Duration::from_millis(DEFAULT_TIMEOUT_MS));
    assert_eq!(x.request.socket, b"/tmp/jcode-scrollwm-test.sock");
}

#[test]
fn with_timeout_overrides_only_the_timeout() {
    let c = client().with_timeout(Duration::from_secs(3));
    assert_eq!(c.socket_path(), b"/tmp/jcode-scrollwm-test.sock");
    assert_eq!(c.arrange().request.timeout, Duration::from_secs(3));
}

#[test]
fn discover_honors_env_override() {
    let c = ScrollWm::discover(Some(b"/tmp/scrollwm-test.sock".to_vec()));
    assert_eq!(c.socket_path(), b"/tmp/scrollwm-test.sock");
    assert_eq!(c.status().request.timeout, Duration::from_millis(750));
}

#[test]
fn discover_without_override_ends_with_control_sock() {
    let c = ScrollWm::discover(None);
    assert!(c.socket_path().ends_with(b"ScrollWM/control.sock"), "{:?}", String::from_utf8_lossy(c.socket_path()));
    let c = ScrollWm::discover(Some(Vec::new()));
    assert!(c.socket_path().ends_with(b"ScrollWM/control.sock"), "{:?}", String::from_utf8_lossy(c.socket_path()));
}

#[test]
fn verbs_send_their_lines() {
    let c = client();
    assert_eq!(c.send("ping").request.line, "ping\n");
    assert_eq!(c.send("focus 1\n").request.line, "focus 1\n");
    assert_eq!(c.is_running().exchange.request.line, "ping\n");
    assert_eq!(c.hello().version.request.line, "version\n");
    assert_eq!(c.status().request.line, "status\n");
    assert_eq!(c.arrange().request.line, "arrange\n");
    assert_eq!(c.focus_next().request.line, "focus next\n");
    assert_eq!(c.focus_prev().request.line, "focus prev\n");
    assert_eq!(c.focus_title("aqua").status.request.line, "status\n");
}

#[test]
fn focus_index_formats_decimal() {
    let c = client();
    assert_eq!(c.focus_index(1).request.line, "focus 1\n");
    assert_eq!(c.focus_index(0).request.line, "focus 0\n");
    assert_eq!(c.focus_index(10).request.line, "focus 10\n");
    assert_eq!(c.focus_index(4021).request.line, "focus 4021\n");
    assert_eq!(
        c.focus_index(usize::MAX).request.line,
        format!("focus {}\n", usize::MAX)
    );
}

#[test]
fn error_reply_maps_to_protocol_error() {
    let x = client().send("focus 1");
    match x.finish(Ok(b"error: not managing\n".to_vec())) {
        Err(ScrollWmError::Protocol(m)) => assert_eq!(m, "not managing"),
        other => panic!("expected Protocol error, got {other:?}"),
    }
}

#[test]
fn reply_is_trimmed() {
    let x = client().arrange();
    assert_eq!(x.finish(Ok(b"  arranged 3 windows \r\n".to_vec())).unwrap(), "arranged 3 windows");
    assert_eq!(x.finish(Ok(Vec::new())).unwrap(), "");
}

#[test]
fn reply_error_prefix_is_checked_after_trimming() {
    let x = client().arrange();
    match x.finish(Ok(b"\n  error:   boom  \n".to_vec())) {
        Err(ScrollWmError::Protocol(m)) => assert_eq!(m, "boom"),
        other => panic!("expected Protocol error, got {other:?}"),
    }
    assert_eq!(x.finish(Ok(b"errors: none".to_vec())).unwrap(), "errors: none");
    assert_eq!(x.finish(Ok(b"Error: x".to_vec())).unwrap(), "Error: x");
}

#[test]
fn transport_errors_pass_through() {
    let x = client().arrange();
    assert!(matches!(x.finish(Err(ScrollWmError::NotRunning)), Err(ScrollWmError::NotRunning)));
    assert!(matches!(x.finish(Err(ScrollWmError::Unsupported)), Err(ScrollWmError::Unsupported)));
}

#[test]
fn invalid_utf8_reply_is_decoded_lossily() {
    let x = client().arrange();
    assert_eq!(x.finish(Ok(vec![b'o', b'k', 0xff])).unwrap(), "ok\u{fffd}");
}

#[test]
fn is_running_only_on_pong() {
    let l = client().is_running();
    assert!(l.finish(Ok(b"pong\n".to_vec())));
    assert!(l.finish(Ok(b"  pong".to_vec())));
    assert!(!l.finish(Ok(b"pong pong".to_vec())));
    assert!(!l.finish(Ok(b"error: pong".to_vec())));
    assert!(!l.finish(Err(ScrollWmError::NotRunning)));
    assert!(!l.finish(Ok(Vec::new())));
}

#[test]
fn focus_title_focuses_the_matching_column() {
    let t = client().focus_title("CORAL");
    let status = status_with_titles(&["🛰 jcode/aqua", "Docs", "🛰 jcode/coral"]);
    let next = t.resume(Ok(status)).expect("a focus round trip");
    assert_eq!(next.request.line, "focus 3\n");
    assert_eq!(next.request.socket, b"/tmp/jcode-scrollwm-test.sock");
}

#[test]
fn focus_title_reports_missing_title() {
    let t = client().focus_title("nope");
    let status = status_with_titles(&["a", "b"]);
    match t.resume(Ok(status)) {
        Err(ScrollWmError::Protocol(m)) => {
            assert_eq!(m, "no managed column title contains \"nope\"")
        }
        Err(other) => panic!("expected Protocol error, got {other:?}"),
        Ok(x) => panic!("expected Protocol error, got a request {:?}", x.request.line),
    }
}

#[test]
fn focus_title_passes_status_errors_on() {
    let t = client().focus_title("x");
    assert!(matches!(t.resume(Err(ScrollWmError::NotRunning)), Err(ScrollWmError::NotRunning)));
    assert!(matches!(
        t.resume(Err(ScrollWmError::Parse("bad".to_string()))),
        Err(ScrollWmError::Parse(m)) if m == "bad"
    ));
}

#[test]
fn hello_decodes_a_version_reply() {
    let h = client().hello();
    match h.resume(Ok("{\"protocol\":1}".to_string())) {
        HandshakeStep::Decode(t) => assert_eq!(t, "{\"protocol\":1}"),
        _ => panic!("expected Decode"),
    }
}

#[test]
fn hello_falls_back_to_status_on_unknown_verb() {
    let h = client().hello();
    match h.resume(Err(ScrollWmError::Protocol("unknown command".to_string()))) {
        HandshakeStep::Fallback(x) => assert_eq!(x.request.line, "status\n"),
        _ => panic!("expected Fallback"),
    }
}

#[test]
fn hello_fails_when_not_running() {
    let h = client().hello();
    assert!(matches!(
        h.resume(Err(ScrollWmError::NotRunning)),
        HandshakeStep::Failed(ScrollWmError::NotRunning)
    ));
}

#[test]
fn clone_keeps_socket_and_timeout() {
    let c = client().with_timeout(Duration::from_millis(5));
    let d = c.clone();
    assert_eq!(d.socket_path(), c.socket_path());
    assert_eq!(d.send("x").request.timeout, Duration::from_millis(5));
}

#[test]
fn missing_socket_reports_not_running() {
    // What a connect to a missing socket reports, carried through the probe and
    // through a status read.
    let client = ScrollWm::with_socket(b"/tmp/jcode-scrollwm-nonexistent-12345.sock");
    let absent = || jcode_scrollwm::connect_error(std::io::Error::from(std::io::ErrorKind::NotFound));
    let probe = client.is_running();
    assert!(!probe.finish(Err(absent())));
    match client.status().finish(Err(absent())) {
        Err(ScrollWmError::NotRunning) => {}
        other => panic!("expected NotRunning, got {other:?}"),
    }
}

#[test]
fn hello_fallback_yields_protocol_zero_info() {
    let h = client().hello();
    match h.resume(Err(ScrollWmError::Protocol("unknown command 'version'".to_string()))) {
        HandshakeStep::Fallback(x) => assert_eq!(x.request.line, "status\n"),
        _ => panic!("expected Fallback"),
    }
    let status = StripStatus { managing: false, ..Default::default() };
    let info = h.finish_fallback(Ok(status)).expect("protocol-0 info");
    assert_eq!(info.name, "ScrollWM");
    assert_eq!(info.version, "");
    assert_eq!(info.protocol, 0);
    assert!(info.verbs.is_empty());
}

#[test]
fn hello_fallback_passes_status_errors_on() {
    let h = client().hello();
    match h.finish_fallback(Err(ScrollWmError::Parse("expected value".to_string()))) {
        Err(ScrollWmError::Parse(m)) => assert_eq!(m, "expected value"),
        other => panic!("expected Parse error, got {other:?}"),
    }
    assert!(matches!(h.finish_fallback(Err(ScrollWmError::NotRunning)), Err(ScrollWmError::NotRunning)));
}

#[test]
fn with_socket_keeps_non_utf8_bytes() {
    let c = ScrollWm::with_socket(&[b'/', b't', 0xff, b'.', b's']);
    assert_eq!(c.socket_path(), &[b'/', b't', 0xff, b'.', b's']);
    assert_eq!(c.send("ping").request.socket, vec![b'/', b't', 0xff, b'.', b's']);
}
