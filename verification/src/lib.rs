//! Client-side logic for the ScrollWM control plane.
//!
//! ScrollWM (a macOS scrolling window manager) exposes a Unix-domain control
//! socket. A client connects, writes one newline-terminated command line,
//! half-closes its write side, and reads one reply line back. Lines beginning
//! with `error:` denote a command-level failure; `status` and `version` reply
//! with a JSON object.
//!
//! This crate holds the client's logic without the I/O: which line each
//! operation sends, what every reply means, where the socket lives, and the
//! lookups made in the reported data. A transport performs the round trips.

pub mod text;
pub mod error;
pub mod wire;
pub mod model;
pub mod path;
pub mod client;

pub use client::{
    default_timeout, Exchange, Handshake, HandshakeStep, Liveness, ScrollWm, TitleFocus,
    DEFAULT_TIMEOUT_MS,
};
pub use error::{classify_connect_error, connect_error, ConnectFailure, ScrollWmError};
pub use model::{column_for_title, legacy_info, Column, ScrollWmInfo, StripStatus};
pub use path::{control_socket_path_for, join, resolve_socket_path, SOCKET_ENV};
pub use wire::{decode_reply, frame_line, interpret_reply, round_trip_result, Request};
