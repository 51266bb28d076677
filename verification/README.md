# stream-reconnect

Streams, sinks and IO items that reconnect by themselves when their connection is lost.

- `src/` is the verified library. It decides: whether a result means a disconnect, which
  answer a poll gets, when the next attempt is made, when the connection is given up. It
  performs no IO. `src/laws.rs` states what holds of these decisions taken together,
  `src/history.rs` what holds over any sequence of them, and `src/rehearsal/` plays them
  through, one after the other, on given results.
- `app/` is ordinary Rust around the library. It polls, sleeps, establishes connections,
  runs the callbacks and does the floating-point part of the backoff.
- `tests/` drives the library by hand.
