# oaytmd

A plugin for OpenAction / Stream Deck hosts that controls YouTube Music
Desktop through its companion server, with its core verified by Verus.

- `src/` — the verified library: the companion API's data model (`models`),
  errors (`error`), REST request planning and reply handling (`rest`), the two
  client flavours (`companion`, `ytmd`, with the realtime event decoding in
  `ytmd/socket.rs`), and the plugin's decisions (`plugin`: actions, volume
  batching, global settings, player state, reconnection).
- `tests/` — tests of the library.
- `app/` — the plugin executable: HTTP and socket I/O, the plugin host
  runtime, shared state, and the JSON forms of the library's types.
