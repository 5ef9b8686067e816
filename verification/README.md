# herdr_client

The decisions that a client makes about its saved SSH endpoints and its server streams, written and
proved in Verus.

- `src/` is the library. It holds no I/O: each step takes what the outside reported as a plain value
  and says what to do next.
  - `backoff`, `supervisor`: when each endpoint is tried, and what a reported status changes.
  - `connect`, `task`, `remote`: one attempt, the background task around it, and which failures need
    a person.
  - `reader`, `transport`: reading a server's messages, and answering for messages that are sent.
  - `laws`: what holds of supervised endpoints over time.
- `app/` performs the I/O with `tokio` and `interprocess`, around traits for the parts of the client
  that live elsewhere.
- `tests/` runs the library on concrete values.
