use crate::metrics::ConnectionGuard;
use crate::proto::{PingMeLaterRequest, PingMeLaterResponse, PingRequest, PingResponse};
use vstd::prelude::*;

verus! {

/// The `stayin_alive.StayinAlive` service.
pub struct StayinAliveService;

/// How a call is answered: counted as a `grpc` connection by `guard` for
/// its whole life, it waits `delay_ms` milliseconds and then replies with
/// `response`.
pub struct GrpcReply<T> {
    /// Counts the call among the `grpc` connections while it runs.
    pub guard: ConnectionGuard,
    /// Milliseconds to wait before replying.
    pub delay_ms: u64,
    /// The reply.
    pub response: T,
}

/// Text of every reply of the service.
pub open spec fn pong_text() -> Seq<char> {
    "pong"@
}

impl StayinAliveService {
    /// Simple ping: replies at once with `pong`.
    pub fn ping(&self, request: PingRequest) -> (reply: GrpcReply<PingResponse>)
        ensures
            reply.guard@ == "grpc"@,
            reply.delay_ms == 0,
            reply.response.message@ == pong_text(),
    {
        GrpcReply {
            guard: ConnectionGuard::new("grpc"),
            delay_ms: 0,
            response: PingResponse { message: "pong".to_owned() },
        }
    }

    /// Delayed ping: waits `delay_ms` milliseconds, then replies with `pong`.
    pub fn ping_me_later(&self, request: PingMeLaterRequest) -> (reply: GrpcReply<
        PingMeLaterResponse,
    >)
        ensures
            reply.guard@ == "grpc"@,
            reply.delay_ms == request.delay_ms,
            reply.response.message@ == pong_text(),
    {
        GrpcReply {
            guard: ConnectionGuard::new("grpc"),
            delay_ms: request.delay_ms,
            response: PingMeLaterResponse { message: "pong".to_owned() },
        }
    }
}

} // verus!
