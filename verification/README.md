# openiot

The shared protocol and data model of the OpenIoT home-automation platform, with
the decisions of its server and desktop client, verified with Verus.

- `src/protocol.rs`: the radio frame (header, flags, opcode, addresses, sequence
  number, payload, CRC-16/CCITT, footer), its encoder and decoder, and the laws
  that decoding inverts encoding and accepts only canonical frames.
- `src/types.rs`: users, devices, API envelopes and WebSocket messages.
- `src/server.rs`: what each HTTP request and WebSocket frame is answered, given
  the store's results; password hashing through `bcrypt`, fresh ids through `uuid`.
- `src/client.rs`: the desktop client's state and how answers change it.
- `app/`: the axum server, its SQLite store, JWT signing, and the client's HTTP calls.
