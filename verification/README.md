# aqueduct

The verified core of Aqueduct, a library of channels that can be sent within channels, locally or
over QUIC, and of qkai, its key and url handling. Every function under `src/` carries a contract
that Verus proves.

- `src/frame`, `src/codec`: channel IDs, variable-length integers, and the frames of the wire
  format, written and read back (round-trip laws in `src/frame/laws.rs`).
- `src/proto`: acknowledgement bookkeeping (range sets, ack ranges, delta encodings), channel ID
  minting, the receiving side's decisions on each frame, and message numbering on the sending side.
- `src/channel`, `src/aqua`: the channel state machines (queues, waiting send and receive
  operations, sticky terminal states) and the handles that act on them.
- `src/multibytes`: a byte sequence made of fragments.
- `src/qkai`: base64 and hex key encodings, ed25519 key pairs, key file names, url syntax.
- `src/util`: small helpers.

`app/` holds what cannot be verified here: blocking on futures with a mutex and condition variable,
a channel shared between threads with its wakers, key files and JSON, and socket address parsing.
