use stayin_alive::grpc::StayinAliveService;
use stayin_alive::proto::{PingMeLaterRequest, PingRequest};

#[test]
fn service_ping_returns_pong() {
    let svc = StayinAliveService;
    let reply = svc.ping(PingRequest {});
    assert_eq!(reply.response.message, "pong");
    assert_eq!(reply.delay_ms, 0);
    assert_eq!(reply.guard.protocol(), "grpc");
}

#[test]
fn ping_me_later_returns_pong_after_delay() {
    let svc = StayinAliveService;
    let delay_ms = 100;
    let reply = svc.ping_me_later(PingMeLaterRequest { delay_ms });
    assert_eq!(reply.response.message, "pong");
    assert!(reply.delay_ms >= delay_ms, "expected at least {delay_ms}ms delay");
    assert_eq!(reply.delay_ms, 100);
}

#[test]
fn ping_me_later_zero_delay() {
    let svc = StayinAliveService;
    let reply = svc.ping_me_later(PingMeLaterRequest { delay_ms: 0 });
    assert_eq!(reply.response.message, "pong");
    assert_eq!(reply.delay_ms, 0);
}

#[test]
fn grpc_calls_are_counted_as_grpc_connections() {
    let svc = StayinAliveService;
    let reply = svc.ping_me_later(PingMeLaterRequest { delay_ms: 7 });
    assert_eq!(reply.guard.opened().protocol, "grpc");
    assert_eq!(reply.guard.release().protocol, "grpc");
}
