use stayin_alive::metrics::{
    begin_request, finish_request, initial_gauge_updates, is_plain_http, status_label,
    ConnectionGuard, GaugeChange, Metric,
};

#[test]
fn metrics_names_include_active_connections() {
    assert_eq!(Metric::ActiveConnections.name(), "active_connections");
    assert_eq!(Metric::HttpRequestsTotal.name(), "http_requests_total");
    assert_eq!(Metric::HttpRequestDuration.name(), "http_request_duration_seconds");
    assert_eq!(Metric::SseEventsTotal.name(), "sse_events_total");
    assert_eq!(Metric::SseErrorsTotal.name(), "sse_errors_total");
    assert_eq!(Metric::SseEventBytesTotal.name(), "sse_event_bytes_total");
}

#[test]
fn install_resets_every_protocol_gauge() {
    let updates = initial_gauge_updates();
    let protocols: Vec<&str> = updates.iter().map(|u| u.protocol).collect();
    assert_eq!(protocols, vec!["http", "websocket", "sse", "grpc"]);
    assert!(updates.iter().all(|u| u.change == GaugeChange::Reset));
}

#[test]
fn connection_guard_increments_then_decrements() {
    let guard = ConnectionGuard::new("websocket");
    assert_eq!(guard.protocol(), "websocket");
    let open = guard.opened();
    let release = guard.release();
    assert_eq!(open.protocol, "websocket");
    assert_eq!(open.change, GaugeChange::Increment);
    assert_eq!(release.protocol, "websocket");
    assert_eq!(release.change, GaugeChange::Decrement);
}

#[test]
fn status_labels_are_decimal() {
    assert_eq!(status_label(200), "200");
    assert_eq!(status_label(404), "404");
    assert_eq!(status_label(0), "0");
    assert_eq!(status_label(7), "7");
    assert_eq!(status_label(65535), "65535");
}

#[test]
fn websocket_and_sse_paths_are_not_plain_http() {
    assert!(!is_plain_http("/ws"));
    assert!(!is_plain_http("/sse-ping"));
    assert!(is_plain_http("/ping"));
    assert!(is_plain_http("/ws/"));
}

#[test]
fn plain_request_moves_http_gauge_and_counts_once() {
    let (start, arrival) = begin_request(Some("/ping"), "/ping", "GET");
    let arrival = arrival.expect("plain request counted");
    assert_eq!(arrival.protocol, "http");
    assert_eq!(arrival.change, GaugeChange::Increment);
    let record = finish_request(start, 200);
    let departure = record.gauge.expect("plain request released");
    assert_eq!(departure.change, GaugeChange::Decrement);
    assert_eq!(record.path, "/ping");
    assert_eq!(record.method, "GET");
    assert_eq!(record.status, "200");
    assert_eq!(record.requests, 1);
}

#[test]
fn unmatched_request_is_labelled_by_uri_path() {
    let (start, arrival) = begin_request(None, "/nope", "POST");
    assert!(arrival.is_some());
    let record = finish_request(start, 404);
    assert_eq!(record.path, "/nope");
    assert_eq!(record.method, "POST");
    assert_eq!(record.status, "404");
}

#[test]
fn websocket_request_leaves_http_gauge_alone() {
    let (start, arrival) = begin_request(Some("/ws"), "/ws", "GET");
    assert!(arrival.is_none());
    let record = finish_request(start, 101);
    assert!(record.gauge.is_none());
    assert_eq!(record.status, "101");
    assert_eq!(record.requests, 1);
}
