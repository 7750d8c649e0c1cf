//! `GET /ping-delay`: wait `delay` plus or minus a random `jitter`, then
//! reply `ping`.
//!
//! Durations are held in whole nanoseconds, the resolution at which the
//! wait is finally performed.

use rand::Rng;
use vstd::prelude::*;

verus! {

/// Nanoseconds in one second.
pub const NANOS_PER_SECOND: i64 = 1_000_000_000;

/// Largest admitted `delay + jitter`: 120 seconds, in nanoseconds.
pub const MAX_TOTAL_NANOS: i64 = 120_000_000_000;

/// HTTP status of a rejected request.
pub const STATUS_BAD_REQUEST: u16 = 400;

/// HTTP status of the `ping` reply.
pub const STATUS_OK: u16 = 200;

/// Query parameters accepted by the `/ping-delay` endpoint.
pub struct PingDelayParams {
    /// Base delay before replying, in nanoseconds.
    pub delay_nanos: i64,
    /// Largest random deviation (plus or minus) added to the delay, in nanoseconds.
    pub jitter_nanos: i64,
}

/// Default delay: 5 seconds.
pub fn default_delay() -> (nanos: i64)
    ensures
        nanos == 5 * NANOS_PER_SECOND,
{
    5 * NANOS_PER_SECOND
}

/// Default jitter: 1 second.
pub fn default_jitter() -> (nanos: i64)
    ensures
        nanos == NANOS_PER_SECOND,
{
    NANOS_PER_SECOND
}

impl PingDelayParams {
    /// The parameters used when the query names neither field.
    pub fn defaults() -> (params: PingDelayParams)
        ensures
            params.delay_nanos == 5 * NANOS_PER_SECOND,
            params.jitter_nanos == NANOS_PER_SECOND,
    {
        PingDelayParams { delay_nanos: default_delay(), jitter_nanos: default_jitter() }
    }
}

/// Why a `/ping-delay` request is refused.
#[derive(Clone, Copy, Debug, PartialEq, Eq, Structural)]
pub enum PingDelayError {
    /// `delay` or `jitter` is negative.
    NegativeParameter,
    /// `delay + jitter` is above 120 seconds.
    ExceedsMaximum,
}

/// Text of the reply that refuses a request.
pub open spec fn error_message(e: PingDelayError) -> Seq<char> {
    match e {
        PingDelayError::NegativeParameter => "delay and jitter must be non-negative"@,
        PingDelayError::ExceedsMaximum => "delay + jitter must not exceed 120 seconds"@,
    }
}

impl PingDelayError {
    /// Text of the 400 reply for this refusal.
    pub fn message(&self) -> (text: &'static str)
        ensures
            text@ == error_message(*self),
    {
        match self {
            PingDelayError::NegativeParameter => "delay and jitter must be non-negative",
            PingDelayError::ExceedsMaximum => "delay + jitter must not exceed 120 seconds",
        }
    }
}

/// Which requests are refused, and why: a negative parameter first, then a
/// total above the limit.
pub open spec fn spec_check(delay: int, jitter: int) -> Result<(), PingDelayError> {
    if delay < 0 || jitter < 0 {
        Err(PingDelayError::NegativeParameter)
    } else if delay + jitter > MAX_TOTAL_NANOS {
        Err(PingDelayError::ExceedsMaximum)
    } else {
        Ok(())
    }
}

/// The wait for a drawn offset: the delay moved by the offset, never below zero.
pub open spec fn spec_wait(delay: int, offset: int) -> int {
    if delay + offset > 0 {
        delay + offset
    } else {
        0
    }
}

/// Checks the parameters of a `/ping-delay` request.
pub fn check_params(params: &PingDelayParams) -> (r: Result<(), PingDelayError>)
    ensures
        r == spec_check(params.delay_nanos as int, params.jitter_nanos as int),
{
    if params.delay_nanos < 0 || params.jitter_nanos < 0 {
        Err(PingDelayError::NegativeParameter)
    } else if params.delay_nanos > MAX_TOTAL_NANOS - params.jitter_nanos {
        Err(PingDelayError::ExceedsMaximum)
    } else {
        Ok(())
    }
}

/// The wait, in nanoseconds, for admitted parameters and a drawn offset.
pub fn wait_nanos(params: &PingDelayParams, offset: i64) -> (wait: u64)
    requires
        spec_check(params.delay_nanos as int, params.jitter_nanos as int) is Ok,
        -params.jitter_nanos <= offset <= params.jitter_nanos,
    ensures
        wait == spec_wait(params.delay_nanos as int, offset as int),
        wait <= params.delay_nanos + params.jitter_nanos,
        wait <= MAX_TOTAL_NANOS,
{
    let total = params.delay_nanos + offset;
    if total > 0 {
        total as u64
    } else {
        0
    }
}

/// What the server does with a `/ping-delay` request.
#[derive(Debug)]
pub enum PingDelayReply {
    /// Reply at once with `status` and the text `message`.
    Rejected { status: u16, message: &'static str },
    /// Wait `wait_nanos` nanoseconds, then reply with `status` and `body`.
    Delayed { wait_nanos: u64, status: u16, body: &'static str },
}

/// Body of the reply sent after the wait.
pub open spec fn ping_body() -> Seq<char> {
    seq!['p', 'i', 'n', 'g']
}

/// The reply for the given parameters once the random offset has been drawn:
/// a refusal for parameters that `spec_check` refuses, else a wait of
/// `spec_wait(delay, offset)` followed by `200 ping`.
pub open spec fn reply_matches(
    delay: int,
    jitter: int,
    offset: int,
    reply: PingDelayReply,
) -> bool {
    match spec_check(delay, jitter) {
        Err(e) => reply matches PingDelayReply::Rejected { status, message }
            && status == STATUS_BAD_REQUEST && message@ == error_message(e),
        Ok(()) => reply matches PingDelayReply::Delayed { wait_nanos, status, body }
            && wait_nanos == spec_wait(delay, offset) && status == STATUS_OK
            && body@ == ping_body(),
    }
}

/// The reply to a `/ping-delay` request, given the offset drawn for it.
pub fn ping_delay_reply(params: &PingDelayParams, offset: i64) -> (reply: PingDelayReply)
    requires
        spec_check(params.delay_nanos as int, params.jitter_nanos as int) is Ok
            ==> -params.jitter_nanos <= offset <= params.jitter_nanos,
    ensures
        reply_matches(
            params.delay_nanos as int,
            params.jitter_nanos as int,
            offset as int,
            reply,
        ),
{
    match check_params(params) {
        Err(e) => {
            PingDelayReply::Rejected { status: STATUS_BAD_REQUEST, message: e.message() }
        },
        Ok(()) => {
            let wait = wait_nanos(params, offset);
            let body = "ping";
            proof {
                reveal_strlit("ping");
                assert(body@ =~= ping_body());
            }
            PingDelayReply::Delayed { wait_nanos: wait, status: STATUS_OK, body }
        },
    }
}

/// Draws a uniformly random offset in `[-jitter, jitter]` with
/// `rand::rng().random_range`, which panics only on an empty range.
/// Claimed: the offset lies in that range. Nothing is claimed of which value
/// comes, which depends on the thread's random generator.
#[verifier::external_body]
fn random_offset(jitter: i64) -> (offset: i64)
    requires
        jitter >= 0,
    ensures
        -jitter <= offset <= jitter,
{
    rand::rng().random_range(-jitter..=jitter)
}

/// GET /ping-delay: refuses negative parameters and totals above 120
/// seconds with status 400 at once, drawing nothing; otherwise draws an
/// offset in `[-jitter, jitter]` and plans a wait of `delay + offset`
/// (never below zero) followed by `200 ping`.
pub fn ping_delay_handler(params: PingDelayParams) -> (reply: PingDelayReply)
    ensures
        spec_check(params.delay_nanos as int, params.jitter_nanos as int) is Err ==> reply_matches(
            params.delay_nanos as int,
            params.jitter_nanos as int,
            0,
            reply,
        ),
        spec_check(params.delay_nanos as int, params.jitter_nanos as int) is Ok ==> exists|
            offset: int,
        |
            -params.jitter_nanos <= offset <= params.jitter_nanos && #[trigger] reply_matches(
                params.delay_nanos as int,
                params.jitter_nanos as int,
                offset,
                reply,
            ),
{
    match check_params(&params) {
        Err(_) => ping_delay_reply(&params, 0),
        Ok(()) => {
            let offset = random_offset(params.jitter_nanos);
            let reply = ping_delay_reply(&params, offset);
            assert(reply_matches(
                params.delay_nanos as int,
                params.jitter_nanos as int,
                offset as int,
                reply,
            ));
            reply
        },
    }
}

/// For admitted parameters the drawn offset moves the wait away from the
/// delay in its own direction: the wait is `delay + offset` (or zero when
/// that is negative), so a negative offset shortens the wait and a
/// positive one lengthens it.
pub proof fn law_offset_moves_the_wait_in_its_direction(
    delay: int,
    jitter: int,
    offset: int,
    reply: PingDelayReply,
)
    requires
        spec_check(delay, jitter) is Ok,
        -jitter <= offset <= jitter,
        reply_matches(delay, jitter, offset, reply),
    ensures
        reply is Delayed,
        delay + offset >= 0 ==> reply->wait_nanos == delay + offset,
        delay + offset < 0 ==> reply->wait_nanos == 0,
        offset < 0 && delay > 0 ==> reply->wait_nanos < delay,
        offset > 0 ==> reply->wait_nanos > delay,
{
}

/// Two admitted requests with the same parameters: the one with the larger
/// drawn offset never waits less, and waits strictly longer once its wait
/// is above zero.
pub proof fn law_wait_grows_with_the_offset(
    delay: int,
    jitter: int,
    low: int,
    high: int,
    low_reply: PingDelayReply,
    high_reply: PingDelayReply,
)
    requires
        spec_check(delay, jitter) is Ok,
        -jitter <= low < high <= jitter,
        reply_matches(delay, jitter, low, low_reply),
        reply_matches(delay, jitter, high, high_reply),
    ensures
        low_reply->wait_nanos <= high_reply->wait_nanos,
        high_reply->wait_nanos > 0 ==> low_reply->wait_nanos < high_reply->wait_nanos,
        high_reply->wait_nanos - low_reply->wait_nanos <= high - low,
{
}

/// Every admitted request waits at least `delay - jitter` (and never less
/// than zero) and at most `delay + jitter`, which is never above 120 seconds.
pub proof fn law_admitted_wait_is_bounded(delay: int, jitter: int, offset: int)
    requires
        spec_check(delay, jitter) is Ok,
        -jitter <= offset <= jitter,
    ensures
        0 <= spec_wait(delay, offset),
        delay - jitter <= spec_wait(delay, offset),
        spec_wait(delay, offset) <= delay + jitter,
        spec_wait(delay, offset) <= MAX_TOTAL_NANOS,
{
}

/// A request is refused exactly when a parameter is negative or their sum
/// exceeds 120 seconds; whatever offset is drawn, a refused request gets
/// the same reply.
pub proof fn law_refusal_ignores_offset(delay: int, jitter: int, o1: int, o2: int, reply: PingDelayReply)
    requires
        spec_check(delay, jitter) is Err,
        reply_matches(delay, jitter, o1, reply),
    ensures
        reply_matches(delay, jitter, o2, reply),
        (spec_check(delay, jitter) is Err) <==> (delay < 0 || jitter < 0 || delay + jitter > MAX_TOTAL_NANOS),
{
}

/// The default parameters (5 seconds, plus or minus 1 second) are admitted.
pub proof fn law_defaults_admitted()
    ensures
        spec_check(5 * NANOS_PER_SECOND, NANOS_PER_SECOND as int) is Ok,
{
}

} // verus!
