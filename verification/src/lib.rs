//! Decision logic of a keep-alive service for load testing concurrent
//! sessions: HTTP ping and delayed ping, Server-Sent Events, WebSocket and
//! gRPC pings, and the connection and request metrics that accompany them.
//!
//! Every function here computes a reply, a wait or a metric update from
//! plain values; the server that performs them lives outside the library.

pub mod grpc;
pub mod http;
pub mod metrics;
pub mod proto;
