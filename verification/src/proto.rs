//! Messages of the `stayin_alive.StayinAlive` gRPC service.

use vstd::prelude::*;

verus! {

/// Request of `Ping`: carries nothing.
pub struct PingRequest {}

/// Reply of `Ping`.
pub struct PingResponse {
    /// The reply text.
    pub message: String,
}

/// Request of `PingMeLater`.
pub struct PingMeLaterRequest {
    /// Milliseconds to wait before replying.
    pub delay_ms: u64,
}

/// Reply of `PingMeLater`.
pub struct PingMeLaterResponse {
    /// The reply text.
    pub message: String,
}

} // verus!
