# synapse

Verified core of the Synapse fiat gateway tools, written in Verus.

- `src/` is the verified library:
  - `error`: the SDK's error type, which errors are transient, and their messages.
  - `admin`: the admin client's requests (URL, bearer header, query pairs),
    the status check of a response, and the retry rule with its backoff.
  - `ws`: websocket authentication, resync limits, client message decisions
    and the per-connection state machine (heartbeat, pong deadline,
    broadcast backpressure).
  - `cli`: the command line tool's commands, messages and shell names.
- `app/` runs what cannot be verified: the clap command line, the HTTP
  exchange with `reqwest`, and the axum websocket tasks, each driving the
  library's decisions.
- `tests/` exercises the library on concrete values.
