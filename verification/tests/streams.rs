use stayin_alive::http::sse::{
    default_interval_ms as sse_default_interval_ms, ping_event, record_sse_event,
    SsePingParams, TrackedSseEvent,
};
use stayin_alive::http::ws::{
    default_interval_ms as ws_default_interval_ms, ping_message, WsAction, WsEvent, WsPhase,
    WsPingParams, WsSession,
};
use stayin_alive::http::{sse_ping_handler, ws_handler};
use stayin_alive::metrics::Metric;

#[test]
fn sse_ping_default_interval() {
    assert_eq!(sse_default_interval_ms(), 1000);
    assert_eq!(SsePingParams::defaults().interval_ms, 1000);
}

#[test]
fn sse_session_uses_requested_interval_and_path() {
    let session = sse_ping_handler("/sse-ping", SsePingParams { interval_ms: 50 });
    assert_eq!(session.interval_ms, 50);
    assert_eq!(session.path, "/sse-ping");
    assert_eq!(session.guard.protocol(), "sse");
}

#[test]
fn sse_ping_event_is_named_ping_with_ping_data() {
    let event = ping_event();
    assert_eq!(event.data_len(), 4);
    assert!(!event.is_error());
    let text = format!("{:?}", event.into_event());
    assert!(text.contains("event: ping"), "got {text}");
    assert!(text.contains("data: ping"), "got {text}");
}

#[test]
fn sse_data_length_counts_utf8_bytes() {
    let event = TrackedSseEvent::default().data("héllo");
    assert_eq!(event.data_len(), 6);
    let event = TrackedSseEvent::default().data("").data("abc");
    assert_eq!(event.data_len(), 3);
}

#[test]
fn sse_ping_event_is_counted_as_event() {
    let record = record_sse_event("/sse-ping", &ping_event());
    assert_eq!(record.counter, Metric::SseEventsTotal);
    assert_eq!(record.path, "/sse-ping");
    assert_eq!(record.event, "ping");
    assert_eq!(record.bytes, 4);
}

#[test]
fn sse_error_event_is_counted_as_error() {
    let event = TrackedSseEvent::default().event("error").data("boom");
    assert!(event.is_error());
    let record = record_sse_event("/sse-ping", &event);
    assert_eq!(record.counter, Metric::SseErrorsTotal);
    assert_eq!(record.event, "error");
    assert_eq!(record.bytes, 4);
}

#[test]
fn sse_unnamed_event_is_labelled_message() {
    let event = TrackedSseEvent::default().data("x");
    let record = record_sse_event("/p", &event);
    assert_eq!(record.event, "message");
    assert_eq!(record.counter, Metric::SseEventsTotal);
    assert_eq!(record.bytes, 1);
}

#[test]
fn ws_default_interval() {
    assert_eq!(ws_default_interval_ms(), 1000);
    assert_eq!(WsPingParams::defaults().interval_ms, 1000);
}

#[test]
fn ws_sends_ping_messages() {
    let connection = ws_handler(WsPingParams { interval_ms: 50 });
    assert_eq!(connection.guard.protocol(), "websocket");
    let mut session = connection.session;
    assert_eq!(session.interval_ms(), 50);
    // The first tick fires at once and sends nothing.
    assert_eq!(session.on_event(WsEvent::Tick), WsAction::Nothing);
    // Read 3 messages and verify they are "ping".
    for _ in 0..3 {
        assert_eq!(session.on_event(WsEvent::Tick), WsAction::SendPing);
        assert_eq!(ping_message(), "ping");
        assert_eq!(session.on_event(WsEvent::SendOk), WsAction::Nothing);
    }
    assert_eq!(session.current_phase(), WsPhase::Waiting);
}

#[test]
fn ws_stops_after_failed_send() {
    let mut session = WsSession::new(10);
    session.on_event(WsEvent::Tick);
    assert_eq!(session.on_event(WsEvent::Tick), WsAction::SendPing);
    assert_eq!(session.on_event(WsEvent::SendFailed), WsAction::Close);
    assert_eq!(session.current_phase(), WsPhase::Closed);
    assert_eq!(session.on_event(WsEvent::Tick), WsAction::Close);
    assert_eq!(session.on_event(WsEvent::SendOk), WsAction::Close);
}

#[test]
fn sse_session_sends_ping_events() {
    let session = sse_ping_handler("/sse-ping", SsePingParams { interval_ms: 50 });
    let event = session.events.next_event();
    let record = record_sse_event(&session.path, &event);
    assert_eq!(record.counter, Metric::SseEventsTotal);
    assert_eq!(record.event, "ping");
    assert_eq!(record.bytes, 4);
    let text = format!("{:?}", event.into_event());
    assert!(text.contains("event: ping"), "got {text}");
    assert!(text.contains("data: ping"), "got {text}");
}

#[test]
fn sse_error_event_carries_its_name_and_data() {
    let event = TrackedSseEvent::default().event("error").data("oops");
    let record = record_sse_event("/sse-ping", &event);
    assert_eq!(record.counter, Metric::SseErrorsTotal);
    assert_eq!(record.bytes, 4);
    let text = format!("{:?}", event.into_event());
    assert!(text.contains("event: error"), "got {text}");
    assert!(text.contains("data: oops"), "got {text}");
}

#[test]
fn sse_unnamed_event_has_no_name_field() {
    let text = format!("{:?}", TrackedSseEvent::default().data("hello").into_event());
    assert!(!text.contains("event:"), "got {text}");
    assert!(text.contains("data: hello"), "got {text}");
}

#[test]
fn sse_fields_are_sent_in_the_order_they_were_set() {
    let data_first = format!("{:?}", TrackedSseEvent::default().data("x").event("y").into_event());
    let data_at = data_first.find("data: x").expect("data field");
    let name_at = data_first.find("event: y").expect("name field");
    assert!(data_at < name_at, "got {data_first}");

    let name_first = format!("{:?}", TrackedSseEvent::default().event("y").data("x").into_event());
    let data_at = name_first.find("data: x").expect("data field");
    let name_at = name_first.find("event: y").expect("name field");
    assert!(name_at < data_at, "got {name_first}");

    let empty_first = format!("{:?}", TrackedSseEvent::default().data("").event("y").data("x").into_event());
    assert_eq!(empty_first, name_first);
}
