//! Metric names, per-protocol connection gauges and per-request records.
//!
//! The library decides which metric moves, by how much and under which
//! labels; the server hands each decision to its metrics recorder.

use vstd::prelude::*;

verus! {

/// The metrics this service exports.
#[derive(Clone, Copy, Debug, PartialEq, Eq, Structural)]
pub enum Metric {
    /// Histogram of request latency, labelled by path, method and status.
    HttpRequestDuration,
    /// Counter of requests, labelled by path, method and status.
    HttpRequestsTotal,
    /// Gauge of open connections, labelled by protocol.
    ActiveConnections,
    /// Counter of non-error SSE events, labelled by path and event type.
    SseEventsTotal,
    /// Counter of SSE error events, labelled by path and event type.
    SseErrorsTotal,
    /// Counter of SSE payload bytes, labelled by path and event type.
    SseEventBytesTotal,
}

/// The exported name of each metric.
pub open spec fn metric_name(m: Metric) -> Seq<char> {
    match m {
        Metric::HttpRequestDuration => "http_request_duration_seconds"@,
        Metric::HttpRequestsTotal => "http_requests_total"@,
        Metric::ActiveConnections => "active_connections"@,
        Metric::SseEventsTotal => "sse_events_total"@,
        Metric::SseErrorsTotal => "sse_errors_total"@,
        Metric::SseEventBytesTotal => "sse_event_bytes_total"@,
    }
}

impl Metric {
    /// The exported name of this metric.
    pub fn name(&self) -> (name: &'static str)
        ensures
            name@ == metric_name(*self),
    {
        match self {
            Metric::HttpRequestDuration => "http_request_duration_seconds",
            Metric::HttpRequestsTotal => "http_requests_total",
            Metric::ActiveConnections => "active_connections",
            Metric::SseEventsTotal => "sse_events_total",
            Metric::SseErrorsTotal => "sse_errors_total",
            Metric::SseEventBytesTotal => "sse_event_bytes_total",
        }
    }
}

/// How a connection gauge moves.
#[derive(Clone, Copy, Debug, PartialEq, Eq, Structural)]
pub enum GaugeChange {
    /// Set to zero.
    Reset,
    /// Add one.
    Increment,
    /// Subtract one.
    Decrement,
}

/// The value of a gauge after a change.
pub open spec fn apply_change(value: int, change: GaugeChange) -> int {
    match change {
        GaugeChange::Reset => 0,
        GaugeChange::Increment => value + 1,
        GaugeChange::Decrement => value - 1,
    }
}

/// A change of the `active_connections` gauge of one protocol.
pub struct GaugeUpdate {
    /// The `protocol` label of the gauge.
    pub protocol: &'static str,
    /// How the gauge moves.
    pub change: GaugeChange,
}

/// The protocols whose connections are counted, in the order in which
/// their gauges are set up.
pub open spec fn tracked_protocols() -> Seq<Seq<char>> {
    seq!["http"@, "websocket"@, "sse"@, "grpc"@]
}

/// The updates made when the metrics are installed: every tracked
/// protocol's gauge is set to zero, so that each appears in the first
/// scrape before any connection arrives.
pub fn initial_gauge_updates() -> (updates: Vec<GaugeUpdate>)
    ensures
        updates.len() == tracked_protocols().len(),
        forall|i: int|
            0 <= i < updates.len() ==> (#[trigger] updates[i]).protocol@ == tracked_protocols()[i]
                && updates[i].change == GaugeChange::Reset,
{
    let mut updates: Vec<GaugeUpdate> = Vec::new();
    updates.push(GaugeUpdate { protocol: "http", change: GaugeChange::Reset });
    updates.push(GaugeUpdate { protocol: "websocket", change: GaugeChange::Reset });
    updates.push(GaugeUpdate { protocol: "sse", change: GaugeChange::Reset });
    updates.push(GaugeUpdate { protocol: "grpc", change: GaugeChange::Reset });
    updates
}

/// Counts one long-lived connection (WebSocket, SSE or a gRPC call) in the
/// gauge of its protocol for as long as it lives: one increment when it
/// opens, one decrement when it is released.
pub struct ConnectionGuard {
    protocol: &'static str,
}

impl View for ConnectionGuard {
    type V = Seq<char>;

    /// The protocol label of the guarded connection.
    closed spec fn view(&self) -> Seq<char> {
        self.protocol@
    }
}

impl ConnectionGuard {
    /// A guard for a connection of `protocol`.
    pub fn new(protocol: &'static str) -> (guard: ConnectionGuard)
        ensures
            guard@ == protocol@,
    {
        ConnectionGuard { protocol }
    }

    /// The protocol label of the guarded connection.
    pub fn protocol(&self) -> (protocol: &'static str)
        ensures
            protocol@ == self@,
    {
        self.protocol
    }

    /// The update made when the connection opens.
    pub fn opened(&self) -> (update: GaugeUpdate)
        ensures
            update.protocol@ == self@,
            update.change == GaugeChange::Increment,
    {
        GaugeUpdate { protocol: self.protocol, change: GaugeChange::Increment }
    }

    /// Releases the connection, once: the guard is consumed, and the
    /// update made on release is returned.
    pub fn release(self) -> (update: GaugeUpdate)
        ensures
            update.protocol@ == self@,
            update.change == GaugeChange::Decrement,
    {
        GaugeUpdate { protocol: self.protocol, change: GaugeChange::Decrement }
    }
}

/// A guarded connection leaves its protocol's gauge as it found it: the
/// update made on opening and the one made on release touch the same
/// gauge and cancel out.
pub proof fn law_guard_restores_gauge(
    guard: ConnectionGuard,
    value: int,
    open: GaugeUpdate,
    release: GaugeUpdate,
)
    requires
        open.protocol@ == guard@,
        open.change == GaugeChange::Increment,
        release.protocol@ == guard@,
        release.change == GaugeChange::Decrement,
    ensures
        open.protocol@ == release.protocol@,
        apply_change(apply_change(value, open.change), release.change) == value,
{
}

/// A step in the life of the connections of one protocol: the guard with
/// the given identity opens, or is released.
pub enum GuardStep {
    Open(nat),
    Release(nat),
}

/// How a step moves the gauge: the change of `ConnectionGuard::opened` for
/// an opening, of `ConnectionGuard::released` for a release.
pub open spec fn step_change(step: GuardStep) -> GaugeChange {
    match step {
        GuardStep::Open(_) => GaugeChange::Increment,
        GuardStep::Release(_) => GaugeChange::Decrement,
    }
}

/// The gauge after installation (which resets it from whatever value it
/// had) and then the given steps.
pub open spec fn gauge_after(before_install: int, steps: Seq<GuardStep>) -> int
    decreases steps.len(),
{
    if steps.len() == 0 {
        apply_change(before_install, GaugeChange::Reset)
    } else {
        apply_change(gauge_after(before_install, steps.drop_last()), step_change(steps.last()))
    }
}

/// The guards alive after the given steps.
pub open spec fn live_guards(steps: Seq<GuardStep>) -> Set<nat>
    decreases steps.len(),
{
    if steps.len() == 0 {
        Set::empty()
    } else {
        match steps.last() {
            GuardStep::Open(id) => live_guards(steps.drop_last()).insert(id),
            GuardStep::Release(id) => live_guards(steps.drop_last()).remove(id),
        }
    }
}

/// Whether the steps can happen: a guard opens once, and only a live
/// guard is released (a guard is released once, when it is dropped).
pub open spec fn guard_steps_possible(steps: Seq<GuardStep>) -> bool
    decreases steps.len(),
{
    if steps.len() == 0 {
        true
    } else {
        guard_steps_possible(steps.drop_last()) && match steps.last() {
            GuardStep::Open(id) => !live_guards(steps.drop_last()).contains(id),
            GuardStep::Release(id) => live_guards(steps.drop_last()).contains(id),
        }
    }
}

/// The life of one guard fits the model of `law_gauge_counts_live_guards`:
/// `ConnectionGuard::opened` moves the gauge as the step `Open(id)` does and
/// the consuming `ConnectionGuard::release` as `Release(id)` does; opening a
/// guard that is not yet alive and then releasing it keep the steps
/// possible, add the guard to the live ones and remove it again.
pub proof fn law_guard_life_is_a_possible_step(
    steps: Seq<GuardStep>,
    id: nat,
    open: GaugeUpdate,
    release: GaugeUpdate,
)
    requires
        guard_steps_possible(steps),
        !live_guards(steps).contains(id),
        open.change == GaugeChange::Increment,
        release.change == GaugeChange::Decrement,
    ensures
        step_change(GuardStep::Open(id)) == open.change,
        step_change(GuardStep::Release(id)) == release.change,
        guard_steps_possible(steps.push(GuardStep::Open(id))),
        live_guards(steps.push(GuardStep::Open(id))).contains(id),
        guard_steps_possible(steps.push(GuardStep::Open(id)).push(GuardStep::Release(id))),
        live_guards(steps.push(GuardStep::Open(id)).push(GuardStep::Release(id))) == live_guards(
            steps,
        ),
{
    let opened = steps.push(GuardStep::Open(id));
    let released = opened.push(GuardStep::Release(id));
    assert(opened.drop_last() =~= steps);
    assert(released.drop_last() =~= opened);
    assert(live_guards(opened) == live_guards(steps).insert(id));
    assert(live_guards(released) == live_guards(opened).remove(id));
    assert(live_guards(steps).insert(id).remove(id) =~= live_guards(steps));
}

/// After installation, a protocol's gauge always equals the number of its
/// guards that are alive, and so is never negative.
pub proof fn law_gauge_counts_live_guards(before_install: int, steps: Seq<GuardStep>)
    requires
        guard_steps_possible(steps),
    ensures
        live_guards(steps).finite(),
        gauge_after(before_install, steps) == live_guards(steps).len(),
        gauge_after(before_install, steps) >= 0,
    decreases steps.len(),
{
    if steps.len() > 0 {
        law_gauge_counts_live_guards(before_install, steps.drop_last());
    }
}

/// The decimal digit character for `d < 10`.
pub open spec fn digit_char(d: nat) -> char {
    (('0' as u32) + d) as char
}

/// The decimal representation of `n`, without leading zeros.
pub open spec fn decimal(n: nat) -> Seq<char>
    decreases n,
{
    if n < 10 {
        seq![digit_char(n)]
    } else {
        decimal(n / 10).push(digit_char(n % 10))
    }
}

/// The one-character string of the digit `d`.
fn digit_str(d: u16) -> (s: &'static str)
    requires
        d < 10,
    ensures
        s@ == seq![digit_char(d as nat)],
{
    proof {
        reveal_strlit("0");
        reveal_strlit("1");
        reveal_strlit("2");
        reveal_strlit("3");
        reveal_strlit("4");
        reveal_strlit("5");
        reveal_strlit("6");
        reveal_strlit("7");
        reveal_strlit("8");
        reveal_strlit("9");
    }
    let s = if d == 0 {
        "0"
    } else if d == 1 {
        "1"
    } else if d == 2 {
        "2"
    } else if d == 3 {
        "3"
    } else if d == 4 {
        "4"
    } else if d == 5 {
        "5"
    } else if d == 6 {
        "6"
    } else if d == 7 {
        "7"
    } else if d == 8 {
        "8"
    } else {
        "9"
    };
    assert(s@ =~= seq![digit_char(d as nat)]);
    s
}

/// Appends the decimal representation of `n` to `out`.
fn push_decimal(out: &mut String, n: u16)
    ensures
        final(out)@ == old(out)@ + decimal(n as nat),
    decreases n,
{
    if n >= 10 {
        push_decimal(out, n / 10);
    }
    out.append(digit_str(n % 10));
    assert(n >= 10 ==> decimal(n as nat) =~= decimal((n / 10) as nat).push(
        digit_char((n % 10) as nat),
    ));
}

/// The `status` label of a request: its HTTP status code in decimal.
pub fn status_label(status: u16) -> (label: String)
    ensures
        label@ == decimal(status as nat),
{
    let mut label = String::new();
    push_decimal(&mut label, status);
    assert(label@ =~= decimal(status as nat));
    label
}

/// Whether a path is served as plain HTTP: every path but the WebSocket
/// (`/ws`) and Server-Sent Events (`/sse-ping`) endpoints, whose
/// connections are counted under their own protocols.
pub open spec fn plain_http_path(path: Seq<char>) -> bool {
    path != "/ws"@ && path != "/sse-ping"@
}

/// Whether two strings are equal.
pub fn str_eq(a: &str, b: &str) -> (eq: bool)
    ensures
        eq == (a@ == b@),
{
    let a: String = a.to_owned();
    let b: String = b.to_owned();
    a == b
}

/// Whether a request on `path` is counted in the `http` connection gauge.
pub fn is_plain_http(path: &str) -> (plain: bool)
    ensures
        plain == plain_http_path(path@),
        plain == (path@ != "/ws"@ && path@ != "/sse-ping"@),
{
    !str_eq(path, "/ws") && !str_eq(path, "/sse-ping")
}

/// Exactly the WebSocket and SSE endpoints are left out of the `http`
/// connection gauge: a path is counted unless it is `/ws` or `/sse-ping`,
/// so the other routes (`/ping`, `/ping-delay`, `/metrics`) and paths
/// that match no route are all counted.
pub proof fn law_only_ws_and_sse_leave_the_http_gauge(path: Seq<char>)
    ensures
        plain_http_path(path) <==> (path != "/ws"@ && path != "/sse-ping"@),
        plain_http_path("/ping"@),
        plain_http_path("/ping-delay"@),
        plain_http_path("/metrics"@),
        !plain_http_path("/ws"@),
        !plain_http_path("/sse-ping"@),
{
    reveal_strlit("/ws");
    reveal_strlit("/sse-ping");
    reveal_strlit("/ping");
    reveal_strlit("/ping-delay");
    reveal_strlit("/metrics");
    assert("/ping"@[1] != "/ws"@[1]);
    assert("/ping"@.len() != "/sse-ping"@.len());
    assert("/ping-delay"@.len() != "/ws"@.len());
    assert("/ping-delay"@.len() != "/sse-ping"@.len());
    assert("/metrics"@.len() != "/ws"@.len());
    assert("/metrics"@.len() != "/sse-ping"@.len());
}

/// The `path` label of a request: the route it matched, else the path of
/// its URI.
pub open spec fn spec_request_path(matched: Option<Seq<char>>, uri_path: Seq<char>) -> Seq<char> {
    match matched {
        Some(p) => p,
        None => uri_path,
    }
}

/// A request in flight, as recorded when it arrived.
pub struct RequestStart {
    path: String,
    method: String,
    plain_http: bool,
}

impl RequestStart {
    /// The `path` label.
    pub closed spec fn path(&self) -> Seq<char> {
        self.path@
    }

    /// The `method` label.
    pub closed spec fn method(&self) -> Seq<char> {
        self.method@
    }

    /// Whether the request is counted in the `http` connection gauge.
    pub closed spec fn counted(&self) -> bool {
        self.plain_http
    }
}

/// The metrics to record when a request completes: the `http` gauge
/// update, if any, and the labels under which the latency histogram and
/// the request counter move. The counter moves by `requests`.
pub struct RequestRecord {
    /// Update of the `http` connection gauge, for plain HTTP requests.
    pub gauge: Option<GaugeUpdate>,
    /// The `path` label.
    pub path: String,
    /// The `method` label.
    pub method: String,
    /// The `status` label.
    pub status: String,
    /// How much the request counter moves.
    pub requests: u64,
}

/// Records the arrival of a request: its labels, and the increment of the
/// `http` gauge for plain HTTP requests.
pub fn begin_request(matched_path: Option<&str>, uri_path: &str, method: &str) -> (r: (
    RequestStart,
    Option<GaugeUpdate>,
))
    ensures
        r.0.path() == spec_request_path(
            match matched_path {
                Some(p) => Some(p@),
                None => None,
            },
            uri_path@,
        ),
        r.0.method() == method@,
        r.0.counted() == plain_http_path(r.0.path()),
        r.0.counted() == (r.0.path() != "/ws"@ && r.0.path() != "/sse-ping"@),
        match r.1 {
            Some(u) => r.0.counted() && u.protocol@ == "http"@ && u.change == GaugeChange::Increment,
            None => !r.0.counted(),
        },
{
    let path: String = match matched_path {
        Some(p) => p.to_owned(),
        None => uri_path.to_owned(),
    };
    let plain_http = is_plain_http(path.as_str());
    let gauge = if plain_http {
        Some(GaugeUpdate { protocol: "http", change: GaugeChange::Increment })
    } else {
        None
    };
    (RequestStart { path, method: method.to_owned(), plain_http }, gauge)
}

/// Records the completion of a request with the given status: the
/// decrement of the `http` gauge for plain HTTP requests, and one count
/// under the labels path, method and status.
pub fn finish_request(start: RequestStart, status: u16) -> (record: RequestRecord)
    ensures
        record.path@ == start.path(),
        record.method@ == start.method(),
        record.status@ == decimal(status as nat),
        record.requests == 1,
        match record.gauge {
            Some(u) => start.counted() && u.protocol@ == "http"@ && u.change == GaugeChange::Decrement,
            None => !start.counted(),
        },
{
    let gauge = if start.plain_http {
        Some(GaugeUpdate { protocol: "http", change: GaugeChange::Decrement })
    } else {
        None
    };
    RequestRecord {
        gauge,
        path: start.path,
        method: start.method,
        status: status_label(status),
        requests: 1,
    }
}

/// Every completed request leaves the `http` gauge as it found it, and
/// moves it at all only when its path is plain HTTP.
pub proof fn law_request_leaves_gauge_unchanged(
    value: int,
    start: RequestStart,
    arrival: Option<GaugeUpdate>,
    record: RequestRecord,
)
    requires
        start.counted() == plain_http_path(start.path()),
        match arrival {
            Some(u) => start.counted() && u.change == GaugeChange::Increment,
            None => !start.counted(),
        },
        match record.gauge {
            Some(u) => start.counted() && u.change == GaugeChange::Decrement,
            None => !start.counted(),
        },
    ensures
        arrival is Some <==> plain_http_path(start.path()),
        arrival is Some <==> record.gauge is Some,
        arrival is Some ==> apply_change(
            apply_change(value, arrival->0.change),
            record.gauge->0.change,
        ) == value,
{
}

} // verus!
