# oxide-mcp

A server of the Model Context Protocol that speaks JSON-RPC over standard input
and output, one message or batch per line. Its logic is verified with Verus.

- `src/input.rs` answers an input line by line, `src/line.rs` a line,
  `src/server.rs` a message or a batch.
- `src/protocol.rs` says what is answered and what becomes of the session.
- `src/laws.rs` states what holds whatever the server is sent.
- `src/decode.rs` reads requests and parameters out of JSON values (`src/json.rs`).
- `src/value.rs` is the boundary to `serde_json`; what is believed of it without
  proof stands there, and what is believed of `str::trim` in `src/text.rs`.
- `app/` reads and writes the lines.
