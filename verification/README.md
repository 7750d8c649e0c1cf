# stayin_alive

A keep-alive service for load testing concurrent sessions: HTTP `/ping`,
`/ping-delay`, `/sse-ping` (Server-Sent Events), `/ws` (WebSocket),
`/metrics` (Prometheus), and a gRPC service with `Ping` and `PingMeLater`.

- `src/` is the verified library: the replies, waits, WebSocket session
  state machine, SSE event tracking and the connection and request metric
  updates, each with its contract, and the laws that relate them.
- `app/` is the server: axum and tonic routing, sockets, timers, the
  Prometheus recorder, and the conversion of query parameters.
- `tests/` exercises the library on concrete values.
