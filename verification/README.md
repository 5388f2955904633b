# lanyarrs

A relay that watches a Discord guild through the gateway and serves the
presence of its members over HTTP (`/user/{id}`) and a websocket (`/socket`).

- `src/` is the library, verified with Verus: the Discord data model, the
  gateway client's and the websocket session's decisions, the reconnection
  backoff, the response summary (platforms, Spotify song), the storage key
  layout and the configuration rules. `src/outside.rs` holds what the library
  believes of outside crates (regex matching, garde's URL rule, redis handles).
- `app/` is the program around it: configuration loading, redis reads and
  writes, the axum server, the gateway websocket, JSON encoding and logging.
- `tests/` runs the library on concrete values.
