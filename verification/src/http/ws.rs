//! `GET /ws`: after the upgrade, send a `ping` text message once per
//! interval until the client goes away.
//!
//! The session is a state machine: the server feeds it the ticks of its
//! interval timer and the outcome of each send, and performs the action it
//! answers with.

use crate::metrics::ConnectionGuard;
use vstd::prelude::*;

verus! {

/// Query parameters accepted by the WebSocket endpoint.
pub struct WsPingParams {
    /// Interval between consecutive ping messages, in milliseconds.
    pub interval_ms: u64,
}

/// Default interval between pings: 1000 ms.
pub fn default_interval_ms() -> (ms: u64)
    ensures
        ms == 1000,
{
    1000
}

impl WsPingParams {
    /// The parameters used when the query names no interval.
    pub fn defaults() -> (params: WsPingParams)
        ensures
            params.interval_ms == 1000,
    {
        WsPingParams { interval_ms: default_interval_ms() }
    }
}

/// Where a ping session stands.
#[derive(Clone, Copy, Debug, PartialEq, Eq, Structural)]
pub enum WsPhase {
    /// Waiting for the timer's first tick, which fires at once and is skipped.
    Starting,
    /// Waiting for the next tick.
    Waiting,
    /// A ping has been handed to the socket; waiting for the outcome.
    Sending,
    /// The client is gone; nothing more is sent.
    Closed,
}

/// What happened on the connection.
#[derive(Clone, Copy, Debug, PartialEq, Eq, Structural)]
pub enum WsEvent {
    /// The interval timer ticked.
    Tick,
    /// The last ping was sent.
    SendOk,
    /// Sending the last ping failed: the client disconnected.
    SendFailed,
}

/// What the server does next.
#[derive(Clone, Copy, Debug, PartialEq, Eq, Structural)]
pub enum WsAction {
    /// Nothing: wait for the next event.
    Nothing,
    /// Send the text message `ping`.
    SendPing,
    /// Stop the session.
    Close,
}

/// One transition of the session. Events that cannot occur in a phase
/// leave it unchanged.
pub open spec fn ws_step(phase: WsPhase, event: WsEvent) -> (WsPhase, WsAction) {
    match (phase, event) {
        (WsPhase::Closed, _) => (WsPhase::Closed, WsAction::Close),
        (WsPhase::Starting, WsEvent::Tick) => (WsPhase::Waiting, WsAction::Nothing),
        (WsPhase::Waiting, WsEvent::Tick) => (WsPhase::Sending, WsAction::SendPing),
        (WsPhase::Sending, WsEvent::SendOk) => (WsPhase::Waiting, WsAction::Nothing),
        (WsPhase::Sending, WsEvent::SendFailed) => (WsPhase::Closed, WsAction::Close),
        _ => (phase, WsAction::Nothing),
    }
}

/// The phase reached and the actions taken when `events` arrive in order.
pub open spec fn ws_run(phase: WsPhase, events: Seq<WsEvent>) -> (WsPhase, Seq<WsAction>)
    decreases events.len(),
{
    if events.len() == 0 {
        (phase, Seq::empty())
    } else {
        let (before, actions) = ws_run(phase, events.drop_last());
        let (after, action) = ws_step(before, events.last());
        (after, actions.push(action))
    }
}

/// How many pings a sequence of actions sends.
pub open spec fn pings_sent(actions: Seq<WsAction>) -> nat
    decreases actions.len(),
{
    if actions.len() == 0 {
        0
    } else {
        pings_sent(actions.drop_last()) + if actions.last() == WsAction::SendPing {
            1nat
        } else {
            0nat
        }
    }
}

/// The events of a connection whose client stays: the first tick, then
/// `n` rounds of a tick and a successful send.
pub open spec fn healthy_events(n: nat) -> Seq<WsEvent>
    decreases n,
{
    if n == 0 {
        seq![WsEvent::Tick]
    } else {
        healthy_events((n - 1) as nat).push(WsEvent::Tick).push(WsEvent::SendOk)
    }
}

/// Text of every message the session sends.
pub open spec fn ping_text() -> Seq<char> {
    seq!['p', 'i', 'n', 'g']
}

/// A WebSocket ping session.
pub struct WsSession {
    interval_ms: u64,
    phase: WsPhase,
}

impl WsSession {
    /// Milliseconds between ticks.
    pub closed spec fn interval(&self) -> nat {
        self.interval_ms as nat
    }

    /// Where the session stands.
    pub closed spec fn phase(&self) -> WsPhase {
        self.phase
    }

    /// A new session, waiting for the first tick.
    pub fn new(interval_ms: u64) -> (s: WsSession)
        ensures
            s.interval() == interval_ms,
            s.phase() == WsPhase::Starting,
    {
        WsSession { interval_ms, phase: WsPhase::Starting }
    }

    /// Milliseconds between ticks.
    pub fn interval_ms(&self) -> (ms: u64)
        ensures
            ms == self.interval(),
    {
        self.interval_ms
    }

    /// Where the session stands.
    pub fn current_phase(&self) -> (p: WsPhase)
        ensures
            p == self.phase(),
    {
        self.phase
    }

    /// Takes one event and says what to do.
    pub fn on_event(&mut self, event: WsEvent) -> (action: WsAction)
        ensures
            (final(self).phase(), action) == ws_step(old(self).phase(), event),
            final(self).interval() == old(self).interval(),
    {
        let (next, action) = match (self.phase, event) {
            (WsPhase::Closed, _) => (WsPhase::Closed, WsAction::Close),
            (WsPhase::Starting, WsEvent::Tick) => (WsPhase::Waiting, WsAction::Nothing),
            (WsPhase::Waiting, WsEvent::Tick) => (WsPhase::Sending, WsAction::SendPing),
            (WsPhase::Sending, WsEvent::SendOk) => (WsPhase::Waiting, WsAction::Nothing),
            (WsPhase::Sending, WsEvent::SendFailed) => (WsPhase::Closed, WsAction::Close),
            _ => (self.phase, WsAction::Nothing),
        };
        self.phase = next;
        action
    }
}

/// Text of the message that `WsAction::SendPing` sends.
pub fn ping_message() -> (text: &'static str)
    ensures
        text@ == ping_text(),
{
    let text = "ping";
    proof {
        reveal_strlit("ping");
        assert(text@ =~= ping_text());
    }
    text
}

/// An upgraded WebSocket connection: its ping session, and the guard
/// that counts it among the `websocket` connections while it lives.
pub struct WsConnection {
    /// The ping session.
    pub session: WsSession,
    /// The connection guard.
    pub guard: ConnectionGuard,
}

/// GET /ws: the session that runs on the upgraded connection, ticking
/// every `interval_ms` milliseconds, counted as a `websocket` connection.
pub fn ws_handler(params: WsPingParams) -> (c: WsConnection)
    ensures
        c.session.interval() == params.interval_ms,
        c.session.phase() == WsPhase::Starting,
        c.guard@ == "websocket"@,
{
    WsConnection {
        session: WsSession::new(params.interval_ms),
        guard: ConnectionGuard::new("websocket"),
    }
}

/// While the client stays, the first tick sends nothing and every later
/// tick sends exactly one ping: after `n + 1` ticks, `n` pings have gone
/// out and the session waits for the next tick.
pub proof fn law_one_ping_per_tick_after_the_first(n: nat)
    ensures
        ws_run(WsPhase::Starting, healthy_events(n)).0 == WsPhase::Waiting,
        pings_sent(ws_run(WsPhase::Starting, healthy_events(n)).1) == n,
    decreases n,
{
    reveal_with_fuel(ws_run, 3);
    reveal_with_fuel(pings_sent, 3);
    if n > 0 {
        law_one_ping_per_tick_after_the_first((n - 1) as nat);
        let prev = healthy_events((n - 1) as nat);
        let mid = prev.push(WsEvent::Tick);
        let all = mid.push(WsEvent::SendOk);
        assert(healthy_events(n) == all);
        assert(all.drop_last() =~= mid);
        assert(mid.drop_last() =~= prev);
        let r0 = ws_run(WsPhase::Starting, prev);
        let r1 = ws_run(WsPhase::Starting, mid);
        let r2 = ws_run(WsPhase::Starting, all);
        assert(r1.1.drop_last() =~= r0.1);
        assert(r2.1.drop_last() =~= r1.1);
    }
}

/// Once the client is gone the session stays closed and sends nothing,
/// whatever happens after.
pub proof fn law_closed_stays_silent(events: Seq<WsEvent>)
    ensures
        ws_run(WsPhase::Closed, events).0 == WsPhase::Closed,
        pings_sent(ws_run(WsPhase::Closed, events).1) == 0,
    decreases events.len(),
{
    if events.len() > 0 {
        law_closed_stays_silent(events.drop_last());
        let r = ws_run(WsPhase::Closed, events);
        assert(r.1.drop_last() =~= ws_run(WsPhase::Closed, events.drop_last()).1);
    }
}

/// Running two sequences of events one after the other is running their
/// concatenation.
proof fn lemma_run_concat(phase: WsPhase, first: Seq<WsEvent>, second: Seq<WsEvent>)
    ensures
        ws_run(phase, first + second).0 == ws_run(ws_run(phase, first).0, second).0,
        ws_run(phase, first + second).1 == ws_run(phase, first).1 + ws_run(
            ws_run(phase, first).0,
            second,
        ).1,
    decreases second.len(),
{
    if second.len() == 0 {
        assert(first + second =~= first);
        assert(ws_run(phase, first).1 + Seq::<WsAction>::empty() =~= ws_run(phase, first).1);
    } else {
        lemma_run_concat(phase, first, second.drop_last());
        assert((first + second).drop_last() =~= first + second.drop_last());
        let mid = ws_run(phase, first);
        let rest = ws_run(mid.0, second.drop_last());
        let step = ws_step(rest.0, second.last());
        assert((mid.1 + rest.1).push(step.1) =~= mid.1 + rest.1.push(step.1));
    }
}

/// Pings sent by two runs of actions add up.
proof fn lemma_pings_concat(first: Seq<WsAction>, second: Seq<WsAction>)
    ensures
        pings_sent(first + second) == pings_sent(first) + pings_sent(second),
    decreases second.len(),
{
    if second.len() == 0 {
        assert(first + second =~= first);
    } else {
        lemma_pings_concat(first, second.drop_last());
        assert((first + second).drop_last() =~= first + second.drop_last());
    }
}

/// A failed send closes the session.
pub proof fn law_failed_send_closes()
    ensures
        ws_step(WsPhase::Sending, WsEvent::SendFailed) == (WsPhase::Closed, WsAction::Close),
{
}

/// A client that leaves after `n` pings received gets exactly one more
/// ping, the one whose send fails, and then nothing, whatever events follow.
pub proof fn law_disconnect_ends_the_pings(n: nat, later: Seq<WsEvent>)
    ensures
        ws_run(
            WsPhase::Starting,
            healthy_events(n) + seq![WsEvent::Tick, WsEvent::SendFailed] + later,
        ).0 == WsPhase::Closed,
        pings_sent(
            ws_run(
                WsPhase::Starting,
                healthy_events(n) + seq![WsEvent::Tick, WsEvent::SendFailed] + later,
            ).1,
        ) == n + 1,
{
    let failing = seq![WsEvent::Tick, WsEvent::SendFailed];
    law_one_ping_per_tick_after_the_first(n);
    lemma_run_concat(WsPhase::Starting, healthy_events(n), failing);
    lemma_run_concat(WsPhase::Starting, healthy_events(n) + failing, later);
    law_closed_stays_silent(later);
    reveal_with_fuel(ws_run, 3);
    reveal_with_fuel(pings_sent, 3);
    assert(failing.drop_last() =~= seq![WsEvent::Tick]);
    assert(seq![WsEvent::Tick].drop_last() =~= Seq::<WsEvent>::empty());
    let tail = ws_run(WsPhase::Waiting, failing);
    assert(tail.0 == WsPhase::Closed);
    assert(tail.1.drop_last() =~= seq![WsAction::SendPing]);
    assert(seq![WsAction::SendPing].drop_last() =~= Seq::<WsAction>::empty());
    assert(pings_sent(tail.1) == 1);
    let head = ws_run(WsPhase::Starting, healthy_events(n));
    lemma_pings_concat(head.1, tail.1);
    let whole = ws_run(WsPhase::Starting, healthy_events(n) + failing);
    lemma_pings_concat(whole.1, ws_run(WsPhase::Closed, later).1);
}

} // verus!
