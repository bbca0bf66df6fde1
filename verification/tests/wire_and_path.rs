use std::io;

use jcode_scrollwm::text::{decimal, trim};
use jcode_scrollwm::{
    classify_connect_error, connect_error, control_socket_path_for, decode_reply, frame_line,
    interpret_reply, join, resolve_socket_path, ConnectFailure, ScrollWmError, SOCKET_ENV,
};

#[test]
fn socket_env_name() {
    assert_eq!(SOCKET_ENV, "SCROLLWM_CONTROL_SOCK");
}

#[test]
fn socket_path_honors_env_override() {
    assert_eq!(
        control_socket_path_for(Some(b"/tmp/scrollwm-test.sock".to_vec())),
        b"/tmp/scrollwm-test.sock"
    );
    assert_eq!(
        resolve_socket_path(
            Some(b"/tmp/scrollwm-test.sock".to_vec()),
            Some(b"/data".to_vec()),
            None
        ),
        b"/tmp/scrollwm-test.sock"
    );
}

#[test]
fn default_socket_path_ends_with_scrollwm_control_sock() {
    let p = control_socket_path_for(None);
    assert!(
        p.ends_with(b"ScrollWM/control.sock"),
        "unexpected default socket path: {}",
        String::from_utf8_lossy(&p)
    );
}

#[test]
fn empty_override_is_ignored() {
    assert_eq!(
        resolve_socket_path(Some(Vec::new()), Some(b"/data".to_vec()), None),
        b"/data/ScrollWM/control.sock"
    );
}

#[test]
fn socket_path_under_data_dir() {
    assert_eq!(
        resolve_socket_path(
            None,
            Some(b"/Users/alice/Library/Application Support".to_vec()),
            Some(b"/Users/alice".to_vec())
        ),
        b"/Users/alice/Library/Application Support/ScrollWM/control.sock"
    );
    assert_eq!(
        resolve_socket_path(None, Some(b"/data/".to_vec()), None),
        b"/data/ScrollWM/control.sock"
    );
}

#[test]
fn socket_path_falls_back_to_home_then_dot() {
    assert_eq!(
        resolve_socket_path(None, None, Some(b"/home/bob".to_vec())),
        b"/home/bob/Library/Application Support/ScrollWM/control.sock"
    );
    assert_eq!(
        resolve_socket_path(None, None, None),
        b"./Library/Application Support/ScrollWM/control.sock"
    );
}

#[test]
fn join_matches_path_join() {
    assert_eq!(join(b"", b"a"), b"a");
    assert_eq!(join(b"/", b"a"), b"/a");
    assert_eq!(join(b"/x", b"a/b"), b"/x/a/b");
    assert_eq!(join(&[b'/', 0xfe], b"z"), vec![b'/', 0xfe, b'/', b'z']);
    let std_join = std::path::Path::new("/x/y").join("z");
    assert_eq!(join(b"/x/y", b"z"), std_join.to_str().unwrap().as_bytes());
}

#[test]
fn frame_line_adds_a_single_newline() {
    assert_eq!(frame_line("ping"), "ping\n");
    assert_eq!(frame_line("ping\n"), "ping\n");
    assert_eq!(frame_line(""), "\n");
    assert_eq!(frame_line(&frame_line("status")), "status\n");
}

#[test]
fn decode_reply_trims_whitespace() {
    assert_eq!(decode_reply(b"pong\n"), "pong");
    assert_eq!(decode_reply(b"\t pong \r\n"), "pong");
    assert_eq!(decode_reply(b"   "), "");
    assert_eq!(decode_reply("caf\u{e9}\u{2003}".as_bytes()), "caf\u{e9}");
}

#[test]
fn interpret_reply_cases() {
    assert_eq!(interpret_reply("pong".to_string()).unwrap(), "pong");
    assert!(matches!(interpret_reply("error:".to_string()), Err(ScrollWmError::Protocol(m)) if m.is_empty()));
    assert!(matches!(interpret_reply("error: x y ".to_string()), Err(ScrollWmError::Protocol(m)) if m == "x y"));
    assert_eq!(interpret_reply("erro".to_string()).unwrap(), "erro");
}

#[test]
fn trim_and_decimal_helpers() {
    assert_eq!(trim("  a b  "), "a b");
    assert_eq!(trim(&trim("\n x \n")), "x");
    assert_eq!(decimal(0).into_iter().collect::<String>(), "0");
    assert_eq!(decimal(907).into_iter().collect::<String>(), "907");
}

#[test]
fn connect_errors_map_to_not_running() {
    let e = connect_error(io::Error::from(io::ErrorKind::NotFound));
    assert!(matches!(e, ScrollWmError::NotRunning));
    let e = connect_error(io::Error::from(io::ErrorKind::ConnectionRefused));
    assert!(matches!(e, ScrollWmError::NotRunning));
    let e = connect_error(io::Error::from(io::ErrorKind::PermissionDenied));
    assert!(matches!(e, ScrollWmError::Io(ref inner) if inner.kind() == io::ErrorKind::PermissionDenied));
}

#[test]
fn classify_connect_error_by_kind() {
    let e = classify_connect_error(ConnectFailure::NotFound, io::Error::other("x"));
    assert!(matches!(e, ScrollWmError::NotRunning));
    let e = classify_connect_error(ConnectFailure::Other, io::Error::other("x"));
    assert!(matches!(e, ScrollWmError::Io(_)));
}

#[test]
fn error_messages() {
    assert_eq!(ScrollWmError::NotRunning.to_string(), "ScrollWM is not running");
    assert_eq!(
        ScrollWmError::Protocol("not managing".to_string()).to_string(),
        "ScrollWM error: not managing"
    );
    assert_eq!(
        ScrollWmError::Parse("eof".to_string()).to_string(),
        "ScrollWM reply parse error: eof"
    );
    assert_eq!(
        ScrollWmError::Unsupported.to_string(),
        "ScrollWM is not supported on this platform"
    );
    let io = ScrollWmError::Io(io::Error::other("boom")).to_string();
    assert_eq!(io, "ScrollWM I/O error: boom");
}
