//! Laws of the admission model: what holds of every table, every
//! request and every run of requests.

use crate::model::admits;
use crate::model::after;
use crate::model::counter_of;
use crate::model::decisions;
use crate::model::elapsed;
use crate::model::limit_after;
use crate::model::limit_valid;
use crate::model::limit_of;
use crate::model::quota_left;
use crate::model::table_valid;
use crate::model::RecipientCounter;
use crate::model::Table;
use vstd::prelude::*;

verus! {

/// A decision keeps the table valid: no counter comes to hold more than
/// its limit's quota, and every stored counter has a window start.
pub proof fn lemma_decision_keeps_valid(
    table: Table,
    notification_type: Seq<char>,
    recipient: Seq<char>,
    now: u64,
)
    requires
        table_valid(table),
    ensures
        table_valid(after(table, notification_type, recipient, now)),
{
    assert(table.contains_key(notification_type) ==> limit_valid(table[notification_type]));
}

/// Once a request was decided, its notification type has a limit and its
/// recipient a counter, whatever the decision was; the limit's quota and
/// window length are those that governed the request.
pub proof fn lemma_decision_registers(
    table: Table,
    notification_type: Seq<char>,
    recipient: Seq<char>,
    now: u64,
)
    ensures
        after(table, notification_type, recipient, now).contains_key(notification_type),
        after(table, notification_type, recipient, now)[notification_type].recipient_counters.contains_key(
            recipient,
        ),
        after(table, notification_type, recipient, now)[notification_type].max_requests == limit_of(
            table,
            notification_type,
        ).max_requests,
        after(table, notification_type, recipient, now)[notification_type].per_duration == limit_of(
            table,
            notification_type,
        ).per_duration,
{
}

/// Quota ceiling. Take a run of requests for one recipient that all fall
/// into the window in which the first of them finds the recipient. Then
/// request number `i` (from zero) is admitted exactly if `i` is below the
/// quota the recipient had left, and that is at most the limit's quota: so
/// no more than the quota are admitted, and the next one is rejected.
pub proof fn lemma_quota_ceiling(
    table: Table,
    notification_type: Seq<char>,
    recipient: Seq<char>,
    times: Seq<u64>,
)
    requires
        table_valid(table),
        times.len() > 0,
        forall|i: int|
            0 <= i < times.len() ==> elapsed(
                counter_of(limit_of(table, notification_type), recipient, times[0]),
                #[trigger] times[i],
            ) <= limit_of(table, notification_type).per_duration,
    ensures
        decisions(table, notification_type, recipient, times).len() == times.len(),
        forall|i: int|
            0 <= i < times.len() ==> #[trigger] decisions(table, notification_type, recipient, times)[i]
                == (i < quota_left(limit_of(table, notification_type), recipient)),
        quota_left(limit_of(table, notification_type), recipient) <= limit_of(
            table,
            notification_type,
        ).max_requests,
        forall|i: int|
            limit_of(table, notification_type).max_requests <= i < times.len() ==> !(#[trigger] decisions(
                table,
                notification_type,
                recipient,
                times,
            )[i]),
    decreases times.len(),
{
    let limit = limit_of(table, notification_type);
    let next = after(table, notification_type, recipient, times[0]);
    let rest = times.drop_first();
    assert(table.contains_key(notification_type) ==> limit_valid(table[notification_type]));
    if rest.len() > 0 {
        lemma_decision_keeps_valid(table, notification_type, recipient, times[0]);
        assert forall|i: int| 0 <= i < rest.len() implies elapsed(
            counter_of(limit_of(next, notification_type), recipient, rest[0]),
            #[trigger] rest[i],
        ) <= limit_of(next, notification_type).per_duration by {
            assert(rest[i] == times[i + 1]);
        }
        lemma_quota_ceiling(next, notification_type, recipient, rest);
        assert forall|i: int| 0 <= i < times.len() implies #[trigger] decisions(
            table,
            notification_type,
            recipient,
            times,
        )[i] == (i < quota_left(limit, recipient)) by {
            if i > 0 {
                assert(decisions(table, notification_type, recipient, times)[i] == decisions(
                    next,
                    notification_type,
                    recipient,
                    rest,
                )[i - 1]);
            }
        }
    } else {
        assert(decisions(next, notification_type, recipient, rest).len() == 0);
    }
}

/// Window reset. A request that comes after the recipient's window has
/// ended is admitted, under any quota above zero, and opens a window at
/// that time with one request of the quota spent.
pub proof fn lemma_window_reset(
    table: Table,
    notification_type: Seq<char>,
    recipient: Seq<char>,
    now: u64,
)
    requires
        limit_of(table, notification_type).max_requests > 0,
        elapsed(counter_of(limit_of(table, notification_type), recipient, now), now) > limit_of(
            table,
            notification_type,
        ).per_duration,
    ensures
        admits(table, notification_type, recipient, now),
        after(table, notification_type, recipient, now)[notification_type].recipient_counters[recipient]
            == (RecipientCounter {
            allowed_requests: (limit_of(table, notification_type).max_requests - 1) as u32,
            last_request: Some(now),
        }),
{
}

/// Isolation of recipients. A request for one recipient leaves every other
/// recipient of the same notification type as it was: whether it has a
/// counter, what the counter holds, and how its next request is decided.
pub proof fn lemma_recipient_isolation(
    table: Table,
    notification_type: Seq<char>,
    recipient: Seq<char>,
    now: u64,
    other: Seq<char>,
    later: u64,
)
    requires
        other != recipient,
    ensures
        limit_of(
            after(table, notification_type, recipient, now),
            notification_type,
        ).recipient_counters.contains_key(other) == limit_of(
            table,
            notification_type,
        ).recipient_counters.contains_key(other),
        counter_of(limit_of(after(table, notification_type, recipient, now), notification_type), other, later)
            == counter_of(limit_of(table, notification_type), other, later),
        admits(after(table, notification_type, recipient, now), notification_type, other, later) == admits(
            table,
            notification_type,
            other,
            later,
        ),
{
}

/// Isolation of notification types. A request of one type leaves every
/// other type as it was: whether it has a limit, what the limit holds, and
/// how the next request of that type is decided, for any recipient.
pub proof fn lemma_type_isolation(
    table: Table,
    notification_type: Seq<char>,
    recipient: Seq<char>,
    now: u64,
    other_type: Seq<char>,
    other_recipient: Seq<char>,
    later: u64,
)
    requires
        other_type != notification_type,
    ensures
        after(table, notification_type, recipient, now).contains_key(other_type) == table.contains_key(
            other_type,
        ),
        limit_of(after(table, notification_type, recipient, now), other_type) == limit_of(table, other_type),
        admits(after(table, notification_type, recipient, now), other_type, other_recipient, later)
            == admits(table, other_type, other_recipient, later),
{
}

/// A recipient that has as many requests left as the run is long, under a
/// quota at least as large, is admitted at every request of the run,
/// whatever the times are.
pub proof fn lemma_enough_quota(
    table: Table,
    notification_type: Seq<char>,
    recipient: Seq<char>,
    times: Seq<u64>,
)
    requires
        times.len() <= quota_left(limit_of(table, notification_type), recipient),
        times.len() <= limit_of(table, notification_type).max_requests,
    ensures
        decisions(table, notification_type, recipient, times).len() == times.len(),
        forall|i: int|
            0 <= i < times.len() ==> #[trigger] decisions(table, notification_type, recipient, times)[i],
    decreases times.len(),
{
    if times.len() > 0 {
        let next = after(table, notification_type, recipient, times[0]);
        let rest = times.drop_first();
        lemma_enough_quota(next, notification_type, recipient, rest);
        assert forall|i: int| 0 <= i < times.len() implies #[trigger] decisions(
            table,
            notification_type,
            recipient,
            times,
        )[i] by {
            if i > 0 {
                assert(decisions(table, notification_type, recipient, times)[i] == decisions(
                    next,
                    notification_type,
                    recipient,
                    rest,
                )[i - 1]);
            }
        }
    }
}

/// Open by default. A notification type without a limit admits every
/// request of any run of up to `u32::MAX` requests for one recipient,
/// however close in time they are; from the first request on the type has
/// the default limit.
pub proof fn lemma_unconfigured_type_is_open(
    table: Table,
    notification_type: Seq<char>,
    recipient: Seq<char>,
    times: Seq<u64>,
)
    requires
        !table.contains_key(notification_type),
        times.len() <= u32::MAX,
    ensures
        decisions(table, notification_type, recipient, times).len() == times.len(),
        forall|i: int|
            0 <= i < times.len() ==> #[trigger] decisions(table, notification_type, recipient, times)[i],
        forall|now: u64|
            (#[trigger] after(table, notification_type, recipient, now))[notification_type].max_requests
                == u32::MAX && after(table, notification_type, recipient, now)[notification_type].per_duration
                == 1,
{
    lemma_enough_quota(table, notification_type, recipient, times);
}

/// A rejection changes nothing. The counter that a rejected request leaves
/// is the one it found; where the type had a limit and the recipient a
/// counter before, the whole table is as it was.
pub proof fn lemma_rejection_keeps_state(
    table: Table,
    notification_type: Seq<char>,
    recipient: Seq<char>,
    now: u64,
)
    requires
        !admits(table, notification_type, recipient, now),
    ensures
        after(table, notification_type, recipient, now)[notification_type].recipient_counters[recipient]
            == counter_of(limit_of(table, notification_type), recipient, now),
        table.contains_key(notification_type) && table[notification_type].recipient_counters.contains_key(
            recipient,
        ) ==> after(table, notification_type, recipient, now) == table,
{
    if table.contains_key(notification_type) && table[notification_type].recipient_counters.contains_key(
        recipient,
    ) {
        let limit = table[notification_type];
        assert(limit_after(limit, recipient, now).recipient_counters =~= limit.recipient_counters);
        assert(after(table, notification_type, recipient, now) =~= table);
    }
}

} // verus!
