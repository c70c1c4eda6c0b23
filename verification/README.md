# fuse

A library for writing FUSE and CUSE servers: it decodes the requests the
kernel sends, encodes the replies, negotiates the protocol version during the
`INIT` handshake, routes requests to handlers, and formats Linux mount
options. Its logic is verified with Verus.

## Layout

- `src/` — the verified library.
  - `kernel.rs`, `wire.rs`: the kernel ABI structures and their little-endian
    encodings.
  - `decode.rs`, `encode.rs`: request framing and reply framing.
  - `operations/`: one module per operation (request decoding, reply payloads,
    renderings).
  - `server.rs` and `server/`: version negotiation, the handshake, reply
    senders, dispatch to handlers.
  - `linux.rs`, `freebsd.rs`: platform mount options and error numbers.
  - `laws.rs`: properties that span several functions, stated and proved.
- `tests/` — tests run against the compiled library.
- `app/` — the I/O around the library: the loops that read from a socket,
  retry the handshake and serve requests, blocking and asynchronous.
