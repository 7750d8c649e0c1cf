use stayin_alive::http::ping_delay::{
    check_params, default_delay, default_jitter, ping_delay_reply, wait_nanos, PingDelayError,
    PingDelayParams, PingDelayReply, MAX_TOTAL_NANOS, NANOS_PER_SECOND,
};
use stayin_alive::http::{ping_delay_handler, ping_handler};

const S: i64 = NANOS_PER_SECOND;

fn params(delay_seconds: i64, jitter_seconds: i64) -> PingDelayParams {
    PingDelayParams { delay_nanos: delay_seconds * S, jitter_nanos: jitter_seconds * S }
}

#[test]
fn mod_ping_returns_pong() {
    assert_eq!(ping_handler(), "pong");
}

#[test]
fn ping_delay_returns_ping() {
    match ping_delay_handler(params(0, 0)) {
        PingDelayReply::Delayed { wait_nanos, status, body } => {
            assert_eq!(status, 200);
            assert_eq!(body, "ping");
            assert_eq!(wait_nanos, 0);
        }
        other => panic!("expected a delayed ping, got {other:?}"),
    }
}

#[test]
fn ping_delay_defaults_accepted() {
    // The default is 5 s ± 1 s, which is within the 120 s limit.
    let defaults = PingDelayParams::defaults();
    assert_eq!(defaults.delay_nanos, 5 * S);
    assert_eq!(defaults.jitter_nanos, S);
    assert_eq!(check_params(&defaults), Ok(()));
    match ping_delay_handler(params(0, 0)) {
        PingDelayReply::Delayed { status, .. } => assert_eq!(status, 200),
        other => panic!("expected a delayed ping, got {other:?}"),
    }
}

#[test]
fn ping_delay_exceeds_max_returns_400() {
    match ping_delay_handler(params(100, 21)) {
        PingDelayReply::Rejected { status, message } => {
            assert_eq!(status, 400);
            assert_eq!(message, "delay + jitter must not exceed 120 seconds");
        }
        other => panic!("expected a rejection, got {other:?}"),
    }
}

#[test]
fn ping_delay_negative_delay_returns_400() {
    match ping_delay_handler(params(-1, 0)) {
        PingDelayReply::Rejected { status, message } => {
            assert_eq!(status, 400);
            assert_eq!(message, "delay and jitter must be non-negative");
        }
        other => panic!("expected a rejection, got {other:?}"),
    }
}

#[test]
fn ping_delay_negative_jitter_returns_400() {
    match ping_delay_handler(params(0, -1)) {
        PingDelayReply::Rejected { status, .. } => assert_eq!(status, 400),
        other => panic!("expected a rejection, got {other:?}"),
    }
}

#[test]
fn ping_delay_defaults_are_five_and_one_seconds() {
    assert_eq!(default_delay(), 5_000_000_000);
    assert_eq!(default_jitter(), 1_000_000_000);
}

#[test]
fn ping_delay_limit_is_inclusive() {
    assert_eq!(check_params(&params(100, 20)), Ok(()));
    assert_eq!(
        check_params(&PingDelayParams { delay_nanos: MAX_TOTAL_NANOS, jitter_nanos: 1 }),
        Err(PingDelayError::ExceedsMaximum)
    );
    assert_eq!(
        check_params(&PingDelayParams { delay_nanos: MAX_TOTAL_NANOS, jitter_nanos: 0 }),
        Ok(())
    );
}

#[test]
fn ping_delay_negative_checked_before_limit() {
    assert_eq!(check_params(&params(-1, 500)), Err(PingDelayError::NegativeParameter));
    assert_eq!(
        check_params(&PingDelayParams { delay_nanos: i64::MAX, jitter_nanos: i64::MAX }),
        Err(PingDelayError::ExceedsMaximum)
    );
}

#[test]
fn ping_delay_wait_is_delay_plus_offset_clamped_at_zero() {
    let p = params(5, 1);
    assert_eq!(wait_nanos(&p, S), 6 * S as u64);
    assert_eq!(wait_nanos(&p, -S), 4 * S as u64);
    let q = params(1, 3);
    assert_eq!(wait_nanos(&q, -3 * S), 0);
    match ping_delay_reply(&q, 2 * S) {
        PingDelayReply::Delayed { wait_nanos, status, body } => {
            assert_eq!(wait_nanos, 3 * S as u64);
            assert_eq!(status, 200);
            assert_eq!(body, "ping");
        }
        other => panic!("expected a delayed ping, got {other:?}"),
    }
}

#[test]
fn ping_delay_reply_for_refused_parameters_ignores_offset() {
    match ping_delay_reply(&params(-3, 1), 12345) {
        PingDelayReply::Rejected { status, message } => {
            assert_eq!(status, 400);
            assert_eq!(message, "delay and jitter must be non-negative");
        }
        other => panic!("expected a rejection, got {other:?}"),
    }
}

#[test]
fn ping_delay_jitter_is_random_within_bounds() {
    let mut waits = Vec::new();
    for _ in 0..64 {
        match ping_delay_handler(params(10, 1)) {
            PingDelayReply::Delayed { wait_nanos, .. } => {
                assert!(wait_nanos >= 9 * S as u64 && wait_nanos <= 11 * S as u64);
                waits.push(wait_nanos);
            }
            other => panic!("expected a delayed ping, got {other:?}"),
        }
    }
    assert!(waits.iter().any(|w| *w != 11 * S as u64));
    assert!(waits.iter().any(|w| *w != waits[0]));
}

#[test]
fn ping_delay_admitted_wait_never_exceeds_limit() {
    for _ in 0..32 {
        match ping_delay_handler(params(119, 1)) {
            PingDelayReply::Delayed { wait_nanos, .. } => {
                assert!(wait_nanos <= MAX_TOTAL_NANOS as u64);
                assert!(wait_nanos >= 118 * S as u64);
            }
            other => panic!("expected a delayed ping, got {other:?}"),
        }
    }
}
