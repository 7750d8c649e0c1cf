//! `GET /sse-ping`: a Server-Sent Events stream that emits a `ping` event
//! once per interval, each event counted in the SSE metrics.

use crate::metrics::{ConnectionGuard, Metric};
use axum::response::sse::Event;
use vstd::prelude::*;

verus! {

#[verifier::external_type_specification]
#[verifier::external_body]
pub struct ExSseEvent(axum::response::sse::Event);

/// Query parameters accepted by the SSE endpoint.
pub struct SsePingParams {
    /// Interval between consecutive ping events, in milliseconds.
    pub interval_ms: u64,
}

/// Default interval between events: 1000 ms.
pub fn default_interval_ms() -> (ms: u64)
    ensures
        ms == 1000,
{
    1000
}

impl SsePingParams {
    /// The parameters used when the query names no interval.
    pub fn defaults() -> (params: SsePingParams)
        ensures
            params.interval_ms == 1000,
    {
        SsePingParams { interval_ms: default_interval_ms() }
    }
}

/// Whether a text holds no line break, as an SSE field value must.
pub open spec fn single_line(text: Seq<char>) -> bool {
    !text.contains('\n') && !text.contains('\r')
}

/// The axum event `Event::default().event(name).data(data)`.
pub uninterp spec fn named_sse_event(name: Seq<char>, data: Seq<char>) -> Event;

/// The axum event `Event::default().data(data)`.
pub uninterp spec fn unnamed_sse_event(data: Seq<char>) -> Event;

/// Builds `Event::default().event(name).data(data)`. On a fresh event
/// `Event::event` panics only when the name holds a newline or a carriage
/// return, which is excluded here, and `Event::data` never panics, since
/// the event holds no data yet. Claimed: the result is a function of the
/// name and the data.
#[verifier::external_body]
fn build_named_event(name: &str, data: &str) -> (event: Event)
    requires
        single_line(name@),
    ensures
        event == named_sse_event(name@, data@),
{
    Event::default().event(name).data(data)
}

/// The axum event `Event::default().data(data).event(name)`.
pub uninterp spec fn data_then_named_sse_event(data: Seq<char>, name: Seq<char>) -> Event;

/// Builds `Event::default().data(data).event(name)`: the data field
/// written before the name field. On a fresh event `Event::data` never
/// panics, and `Event::event` panics only when the name holds a newline
/// or a carriage return, which is excluded here. Claimed: the result is a
/// function of the data and the name.
#[verifier::external_body]
fn build_data_then_named_event(data: &str, name: &str) -> (event: Event)
    requires
        single_line(name@),
    ensures
        event == data_then_named_sse_event(data@, name@),
{
    Event::default().data(data).event(name)
}

/// Builds `Event::default().data(data)`, which never panics, since the
/// fresh event holds no data yet. Claimed: the result is a function of
/// the data.
#[verifier::external_body]
fn build_unnamed_event(data: &str) -> (event: Event)
    ensures
        event == unnamed_sse_event(data@),
{
    Event::default().data(data)
}

/// Length of a string in bytes, encoded in UTF-8.
pub open spec fn utf8_len(s: &str) -> nat {
    vstd::string::StringSliceAdditionalSpecFns::spec_bytes(s).len()
}

/// An event as the stream sees it: its name, if any, its data text, and
/// how many bytes of data it carries.
pub struct SseEventView {
    /// The event's name field.
    pub event_type: Option<Seq<char>>,
    /// The event's data field.
    pub data: Seq<char>,
    /// Bytes of data written to the event, in UTF-8.
    pub data_len: nat,
    /// Whether non-empty data was written before the event was named, so
    /// that the data field precedes the name field.
    pub data_before_name: bool,
}

/// The axum event sent for an event seen as `view`.
/// The fields are written in the order in which they were set, as the
/// axum builder writes them.
pub open spec fn wire_event(view: SseEventView) -> Event {
    match view.event_type {
        Some(name) => if view.data_before_name {
            data_then_named_sse_event(view.data, name)
        } else {
            named_sse_event(name, view.data)
        },
        None => unnamed_sse_event(view.data),
    }
}

/// A Server-Sent Event together with what the metrics record of it: its
/// type and the length of its data.
pub struct TrackedSseEvent {
    event_type: Option<String>,
    data: String,
    data_len: usize,
    data_before_name: bool,
}

impl View for TrackedSseEvent {
    type V = SseEventView;

    closed spec fn view(&self) -> SseEventView {
        SseEventView {
            event_type: match self.event_type {
                Some(s) => Some(s@),
                None => None,
            },
            data: self.data@,
            data_len: self.data_len as nat,
            data_before_name: self.data_before_name,
        }
    }
}

impl TrackedSseEvent {
    /// The name of a tracked event holds no line break, and data counts as
    /// written before the name only once the event is named.
    #[verifier::type_invariant]
    spec fn name_is_single_line(&self) -> bool {
        match self.event_type {
            Some(name) => single_line(name@),
            None => !self.data_before_name,
        }
    }
}

/// The `event` label of an event: its name, or `message` for an unnamed
/// event, which browsers deliver as a `message` event.
pub open spec fn event_label(event_type: Option<Seq<char>>) -> Seq<char> {
    match event_type {
        Some(name) => name,
        None => "message"@,
    }
}

/// Whether an event is an error event: one named `error`.
pub open spec fn is_error_event(event_type: Option<Seq<char>>) -> bool {
    event_type == Some("error"@)
}

impl Default for TrackedSseEvent {
    /// An event with no name and no data.
    fn default() -> (event: TrackedSseEvent)
        ensures
            event@.event_type is None,
            event@.data == Seq::<char>::empty(),
            event@.data_len == 0,
            !event@.data_before_name,
    {
        TrackedSseEvent {
            event_type: None,
            data: String::new(),
            data_len: 0,
            data_before_name: false,
        }
    }
}

impl TrackedSseEvent {
    /// Sets the event's name field (`event:<event-name>`). An event is
    /// named once; the name holds no line break.
    pub fn event(self, event: &str) -> (named: TrackedSseEvent)
        requires
            self@.event_type is None,
            single_line(event@),
        ensures
            named@.event_type == Some(event@),
            named@.data == self@.data,
            named@.data_len == self@.data_len,
            named@.data_before_name == (self@.data.len() > 0),
    {
        proof {
            use_type_invariant(&self);
        }
        let data_before_name = !self.data.as_str().is_empty();
        TrackedSseEvent {
            event_type: Some(event.to_owned()),
            data: self.data,
            data_len: self.data_len,
            data_before_name,
        }
    }

    /// Sets the event's data field (`data:<content>`), adding its length in
    /// bytes to the recorded data length. Non-empty data is written once.
    pub fn data(self, data: &str) -> (filled: TrackedSseEvent)
        requires
            self@.data.len() == 0 || data@.len() == 0,
            self@.data_len + utf8_len(data) <= usize::MAX,
        ensures
            filled@.event_type == self@.event_type,
            filled@.data == self@.data + data@,
            filled@.data_len == self@.data_len + utf8_len(data),
            filled@.data_before_name == self@.data_before_name,
    {
        proof {
            use_type_invariant(&self);
        }
        let len = data.len();
        let mut text = self.data;
        text.append(data);
        TrackedSseEvent {
            event_type: self.event_type,
            data: text,
            data_len: self.data_len + len,
            data_before_name: self.data_before_name,
        }
    }

    /// Whether the event's type is `error`.
    pub fn is_error(&self) -> (error: bool)
        ensures
            error == is_error_event(self@.event_type),
    {
        match &self.event_type {
            Some(name) => {
                let name: &str = name.as_str();
                crate::metrics::str_eq(name, "error")
            },
            None => false,
        }
    }

    /// Bytes of data written to the event.
    pub fn data_len(&self) -> (len: usize)
        ensures
            len == self@.data_len,
    {
        self.data_len
    }

    /// The axum event built by the calls of `event` and `data` so far,
    /// which is what the stream sends.
    pub open spec fn built_event(&self) -> Event {
        wire_event(self@)
    }

    /// The event to send: its name field, if it was named, and its data
    /// field, in the order in which they were set.
    pub fn into_event(self) -> (event: Event)
        ensures
            event == self.built_event(),
    {
        proof {
            use_type_invariant(&self);
        }
        match &self.event_type {
            Some(name) => if self.data_before_name {
                build_data_then_named_event(self.data.as_str(), name.as_str())
            } else {
                build_named_event(name.as_str(), self.data.as_str())
            },
            None => build_unnamed_event(self.data.as_str()),
        }
    }
}

/// The view of the event emitted once per interval.
pub open spec fn ping_event_view() -> SseEventView {
    SseEventView {
        event_type: Some("ping"@),
        data: "ping"@,
        data_len: 4,
        data_before_name: false,
    }
}

/// The event emitted once per interval: named `ping`, with data `ping`.
pub fn ping_event() -> (event: TrackedSseEvent)
    ensures
        event@ == ping_event_view(),
{
    let name = "ping";
    proof {
        reveal_strlit("ping");
        assert(!name@.contains('\n'));
        assert(!name@.contains('\r'));
    }
    let event = TrackedSseEvent::default().event(name);
    let data = "ping";
    proof {
        reveal_strlit("ping");
        broadcast use vstd::string::is_ascii_spec_bytes;
        assert(vstd::string::is_ascii(data));
        assert(utf8_len(data) == 4);
    }
    event.data(data)
}

/// What is recorded when an event is sent on the stream served at `path`:
/// one count on `counter`, and `bytes` on the byte counter, both labelled
/// by `path` and `event`.
pub struct SseEventRecord {
    /// The counter that moves by one: errors for error events, events otherwise.
    pub counter: Metric,
    /// The `path` label.
    pub path: String,
    /// The `event` label.
    pub event: String,
    /// How much the byte counter moves.
    pub bytes: u64,
}

/// The metrics recorded for one event of a stream served at `path`.
pub fn record_sse_event(path: &str, event: &TrackedSseEvent) -> (record: SseEventRecord)
    ensures
        record.path@ == path@,
        record.event@ == event_label(event@.event_type),
        record.counter == if is_error_event(event@.event_type) {
            Metric::SseErrorsTotal
        } else {
            Metric::SseEventsTotal
        },
        record.bytes == event@.data_len,
{
    let label: String = match &event.event_type {
        Some(name) => name.clone(),
        None => "message".to_owned(),
    };
    let counter = if event.is_error() {
        Metric::SseErrorsTotal
    } else {
        Metric::SseEventsTotal
    };
    SseEventRecord { counter, path: path.to_owned(), event: label, bytes: event.data_len as u64 }
}

/// An SSE stream being served: the interval between events, the path it
/// is served at, and the guard that counts it among the `sse` connections
/// while it lives.
pub struct SseSession {
    /// Milliseconds between events.
    pub interval_ms: u64,
    /// The path label of the stream's metrics.
    pub path: String,
    /// The connection guard of the stream.
    pub guard: ConnectionGuard,
    /// The source of the events the stream sends.
    pub events: SsePingEvents,
}

/// The source of the events of an `/sse-ping` stream.
pub struct SsePingEvents {}

impl SsePingEvents {
    /// The event the stream sends at each interval: `ping_event()`.
    pub fn next_event(&self) -> (event: TrackedSseEvent)
        ensures
            event@ == ping_event_view(),
    {
        ping_event()
    }
}

/// GET /sse-ping: the stream served at `matched_path`, emitting
/// `ping_event()` every `interval_ms` milliseconds and counted as an `sse`
/// connection.
pub fn sse_ping_handler(matched_path: &str, params: SsePingParams) -> (session: SseSession)
    ensures
        session.interval_ms == params.interval_ms,
        session.path@ == matched_path@,
        session.guard@ == "sse"@,
{
    SseSession {
        interval_ms: params.interval_ms,
        path: matched_path.to_owned(),
        guard: ConnectionGuard::new("sse"),
        events: SsePingEvents {},
    }
}

/// Every event is counted exactly once, under the errors counter when it
/// is named `error` and under the events counter otherwise, and adds
/// exactly its data length to the byte counter.
pub proof fn law_each_event_counted_once(event: SseEventView, counter: Metric, bytes: nat)
    requires
        counter == if is_error_event(event.event_type) {
            Metric::SseErrorsTotal
        } else {
            Metric::SseEventsTotal
        },
        bytes == event.data_len,
    ensures
        (counter == Metric::SseErrorsTotal) != (counter == Metric::SseEventsTotal),
        counter == Metric::SseErrorsTotal <==> event.event_type == Some("error"@),
        counter != Metric::SseEventBytesTotal,
{
}

/// Every event of the `/sse-ping` stream is named `ping` with data `ping`;
/// it adds one to the events counter under the label `ping`, four to the
/// byte counter, and nothing to the errors counter.
pub proof fn law_ping_stream_records(event: SseEventView, counter: Metric, label: Seq<char>, bytes: nat)
    requires
        event == ping_event_view(),
        label == event_label(event.event_type),
        counter == if is_error_event(event.event_type) {
            Metric::SseErrorsTotal
        } else {
            Metric::SseEventsTotal
        },
        bytes == event.data_len,
    ensures
        wire_event(event) == named_sse_event("ping"@, "ping"@),
        counter == Metric::SseEventsTotal,
        label == "ping"@,
        bytes == 4,
{
    reveal_strlit("ping");
    reveal_strlit("error");
    assert("ping"@ != "error"@) by {
        assert("ping"@[1] != "error"@[1]);
    }
}

} // verus!
