//! The mathematical model of the admission table and of one decision.

use vstd::prelude::*;

verus! {

/// Quota state of one recipient under one notification type.
#[derive(Clone, Copy, Debug)]
pub struct RecipientCounter {
    /// Requests still admitted in the current window.
    pub allowed_requests: u32,
    /// Time at which the current window started.
    pub last_request: Option<u64>,
}

/// What a rate limit is: its quota, its window length and the counters of
/// the recipients seen so far.
pub struct RateLimitView {
    pub max_requests: u32,
    pub per_duration: u64,
    pub recipient_counters: Map<Seq<char>, RecipientCounter>,
}

/// The whole table: notification type to rate limit.
pub type Table = Map<Seq<char>, RateLimitView>;

/// The limit given to a notification type that was never configured: the
/// largest quota, over a window of one time unit.
pub open spec fn default_limit() -> RateLimitView {
    RateLimitView { max_requests: u32::MAX, per_duration: 1, recipient_counters: Map::empty() }
}

/// The counter a recipient starts with: the full quota, window opening at `now`.
pub open spec fn fresh_counter(max_requests: u32, now: u64) -> RecipientCounter {
    RecipientCounter { allowed_requests: max_requests, last_request: Some(now) }
}

/// Time since the counter's window started. A counter without a start, or
/// with a start that lies after `now`, has no time elapsed.
pub open spec fn elapsed(counter: RecipientCounter, now: u64) -> int {
    match counter.last_request {
        Some(start) => if now >= start { now - start } else { 0 },
        None => 0,
    }
}

/// Whether a request at `now` is admitted against `counter`. A quota of
/// zero admits nothing. Inside the window (its end included) the counter
/// must have quota left; past the window a fresh one opens.
pub open spec fn counter_admits(
    max_requests: u32,
    per_duration: u64,
    counter: RecipientCounter,
    now: u64,
) -> bool {
    max_requests > 0 && (elapsed(counter, now) > per_duration || counter.allowed_requests > 0)
}

/// The counter after a request at `now`: unchanged on rejection, one less
/// inside the window, and a new window with one request spent past it.
pub open spec fn counter_after(
    max_requests: u32,
    per_duration: u64,
    counter: RecipientCounter,
    now: u64,
) -> RecipientCounter {
    if !counter_admits(max_requests, per_duration, counter, now) {
        counter
    } else if elapsed(counter, now) <= per_duration {
        RecipientCounter {
            allowed_requests: (counter.allowed_requests - 1) as u32,
            last_request: counter.last_request,
        }
    } else {
        RecipientCounter { allowed_requests: (max_requests - 1) as u32, last_request: Some(now) }
    }
}

/// The recipient's counter as a request at `now` finds it: the stored one,
/// or a fresh one where the recipient was never seen.
pub open spec fn counter_of(limit: RateLimitView, recipient: Seq<char>, now: u64) -> RecipientCounter {
    if limit.recipient_counters.contains_key(recipient) {
        limit.recipient_counters[recipient]
    } else {
        fresh_counter(limit.max_requests, now)
    }
}

/// Whether `limit` admits a request for `recipient` at `now`.
pub open spec fn limit_admits(limit: RateLimitView, recipient: Seq<char>, now: u64) -> bool {
    counter_admits(limit.max_requests, limit.per_duration, counter_of(limit, recipient, now), now)
}

/// `limit` after a request for `recipient` at `now`: the recipient has a
/// counter from then on, whatever the decision was.
pub open spec fn limit_after(limit: RateLimitView, recipient: Seq<char>, now: u64) -> RateLimitView {
    RateLimitView {
        max_requests: limit.max_requests,
        per_duration: limit.per_duration,
        recipient_counters: limit.recipient_counters.insert(
            recipient,
            counter_after(
                limit.max_requests,
                limit.per_duration,
                counter_of(limit, recipient, now),
                now,
            ),
        ),
    }
}

/// The limit that governs `notification_type`: the configured one, or the default.
pub open spec fn limit_of(table: Table, notification_type: Seq<char>) -> RateLimitView {
    if table.contains_key(notification_type) {
        table[notification_type]
    } else {
        default_limit()
    }
}

/// Whether the table admits a request of `notification_type` for `recipient` at `now`.
pub open spec fn admits(
    table: Table,
    notification_type: Seq<char>,
    recipient: Seq<char>,
    now: u64,
) -> bool {
    limit_admits(limit_of(table, notification_type), recipient, now)
}

/// The table after a request: the type has a limit and the recipient a
/// counter from then on; nothing else changes.
pub open spec fn after(
    table: Table,
    notification_type: Seq<char>,
    recipient: Seq<char>,
    now: u64,
) -> Table {
    table.insert(notification_type, limit_after(limit_of(table, notification_type), recipient, now))
}

/// The decisions on a run of requests of `notification_type` for
/// `recipient`, one at each of `times` in turn, each made on the table that
/// the one before it left.
pub open spec fn decisions(
    table: Table,
    notification_type: Seq<char>,
    recipient: Seq<char>,
    times: Seq<u64>,
) -> Seq<bool>
    decreases times.len(),
{
    if times.len() == 0 {
        Seq::empty()
    } else {
        seq![admits(table, notification_type, recipient, times[0])] + decisions(
            after(table, notification_type, recipient, times[0]),
            notification_type,
            recipient,
            times.drop_first(),
        )
    }
}

/// The quota that `recipient` has left under `limit`: what its counter
/// holds, or the full quota where it was never seen.
pub open spec fn quota_left(limit: RateLimitView, recipient: Seq<char>) -> u32 {
    if limit.recipient_counters.contains_key(recipient) {
        limit.recipient_counters[recipient].allowed_requests
    } else {
        limit.max_requests
    }
}

/// The reason carried by a rejection.
pub open spec fn rejection_message(notification_type: Seq<char>, recipient: Seq<char>) -> Seq<char> {
    "rate limit exceeded for "@ + notification_type + " to "@ + recipient
}

/// A stored counter holds no more than the quota, and its window has a start.
pub open spec fn counter_valid(max_requests: u32, counter: RecipientCounter) -> bool {
    counter.allowed_requests <= max_requests && counter.last_request.is_some()
}

/// Every counter of `limit` is valid under the limit's quota.
pub open spec fn limit_valid(limit: RateLimitView) -> bool {
    forall|recipient: Seq<char>| #[trigger]
        limit.recipient_counters.contains_key(recipient) ==> counter_valid(
            limit.max_requests,
            limit.recipient_counters[recipient],
        )
}

/// Every limit of the table is valid.
pub open spec fn table_valid(table: Table) -> bool {
    forall|notification_type: Seq<char>| #[trigger]
        table.contains_key(notification_type) ==> limit_valid(table[notification_type])
}

} // verus!
