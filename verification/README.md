# jcode_scrollwm

Client logic for the ScrollWM control plane (a Unix-domain socket: one
newline-terminated request line out, one reply line back, `error:` replies are
command-level failures), verified with Verus.

- `src/` — the verified library, without I/O:
  - `client.rs`: the client (`ScrollWm`) and its operations as round trips to make
    (`Exchange`, `Liveness`, `TitleFocus`, `Handshake`) and what their replies mean;
  - `wire.rs`: request framing, reply decoding and interpretation;
  - `model.rs`: the handshake and strip-status data, verb and title lookups;
  - `path.rs`: where the socket lives;
  - `error.rs`: the error type and how connect failures map onto it;
  - `text.rs`: character-level helpers (trim, ASCII lower-casing, substring search,
    decimal numerals) with their models.
- `app/` — a blocking client that performs the socket round trips, reads the
  environment and decodes the JSON replies with serde.
- `tests/` — tests of the library.
