# fsociety

An end-to-end encrypted peer-to-peer chat and file-streaming tool for the
terminal. Two peers meet through a WebSocket relay (or a direct TCP
connection), exchange ephemeral X25519 public keys, derive a
ChaCha20-Poly1305 key from the SHA-256 digest of the shared secret, and
exchange encrypted packets.

## Layout

- `src/` — the verified library (Verus):
  - `text.rs` — whitespace, trimming, prefix/infix tests, decimal and hex
    rendering, UTF-8 decoding;
  - `wire.rs` — message payloads and their decoder (with the round-trip
    law), the 4-byte length prefix of TCP packets, the handshake key frame,
    the retry decision of a non-blocking write;
  - `crypto.rs` — the secure session: key derivation, packet encryption and
    decryption (with the law that a session with the same key reads what was
    written), the fingerprint;
  - `transfer.rs` — the receiving state machine and the sending counters of
    file transfers;
  - `ui.rs` — the interface state, its events and key handling, and the text
    of its panes;
  - `cli.rs` — the command line, room codes, the relay address and its
    parsing, user names and chat commands.
- `app/` — the program around the library: sockets, threads, files, the
  terminal drawing.
- `tests/` — tests of the library.

Usage: `fsociety stage [code]`, `fsociety stage --local`,
`fsociety connect <code>`, `fsociety connect --local <ip:port>`.
