# async_ssh2_lite

Verified decision logic for running libssh2 operations over non-blocking
sockets.

- `src/blocking.rs`: the directions a session is blocked on, how an attempt
  ended, and whether an ssh2 or I/O error only means "would block".
- `src/pause.rs`: pauses and the whole milliseconds the timer is armed with.
- `src/x_with.rs`: the state machine of a call that awaits readiness until the
  operation completes, with its laws.
- `src/poll_x_with.rs`: the state machine of a single poll, with its laws.
- `app/lib.rs`: tokio sockets that carry out the machines' actions.
- `tests/`: scenarios run against the compiled library.
