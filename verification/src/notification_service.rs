//! The admission table and the decision taken on each notification attempt.

use crate::model::admits;
use crate::model::after;
use crate::model::counter_valid;
use crate::model::limit_admits;
use crate::model::limit_after;
use crate::model::limit_valid;
use crate::model::rejection_message;
use crate::model::table_valid;
use crate::model::RateLimitView;
use crate::model::RecipientCounter;
use crate::model::Table;
use vstd::hash_map::StringHashMap;
use vstd::prelude::*;
use vstd::string::StringExecFns;

verus! {

/// The quota of one notification type, with the counters of its recipients.
///
/// Counters live in `recipient_counters`; `recipient_slots` says which
/// position belongs to which recipient.
pub struct RateLimit {
    max_requests: u32,
    per_duration: u64,
    recipient_slots: StringHashMap<usize>,
    recipient_counters: Vec<RecipientCounter>,
}

impl View for RateLimit {
    type V = RateLimitView;

    closed spec fn view(&self) -> RateLimitView {
        RateLimitView {
            max_requests: self.max_requests,
            per_duration: self.per_duration,
            recipient_counters: Map::new(
                |recipient: Seq<char>| self.recipient_slots@.contains_key(recipient),
                |recipient: Seq<char>| self.recipient_counters@[self.recipient_slots@[recipient] as int],
            ),
        }
    }
}

impl RateLimit {
    /// Every recipient has a position of its own among the counters, and
    /// every counter is valid under the quota.
    pub closed spec fn wf(&self) -> bool {
        &&& forall|recipient: Seq<char>| #[trigger]
            self.recipient_slots@.contains_key(recipient) ==> self.recipient_slots@[recipient]
                < self.recipient_counters@.len()
        &&& forall|a: Seq<char>, b: Seq<char>|
            (#[trigger] self.recipient_slots@.contains_key(a)
                && #[trigger] self.recipient_slots@.contains_key(b)
                && self.recipient_slots@[a] == self.recipient_slots@[b]) ==> a == b
        &&& forall|i: int|
            0 <= i < self.recipient_counters@.len() ==> counter_valid(
                self.max_requests,
                #[trigger] self.recipient_counters@[i],
            )
    }

    /// What a well-formed limit stands for is a valid limit.
    pub proof fn lemma_wf_valid(&self)
        requires
            self.wf(),
        ensures
            limit_valid(self@),
    {
    }

    /// The quota per window.
    pub fn max_requests(&self) -> (quota: u32)
        ensures
            quota == self@.max_requests,
    {
        self.max_requests
    }

    /// The length of a window.
    pub fn per_duration(&self) -> (duration: u64)
        ensures
            duration == self@.per_duration,
    {
        self.per_duration
    }

    /// The counter of `recipient`, if a request for it was ever seen.
    pub fn counter(&self, recipient: &str) -> (found: Option<RecipientCounter>)
        requires
            self.wf(),
        ensures
            found == if self@.recipient_counters.contains_key(recipient@) {
                Some(self@.recipient_counters[recipient@])
            } else {
                None
            },
            found matches Some(counter) ==> counter_valid(self@.max_requests, counter),
    {
        match self.recipient_slots.get(recipient) {
            Some(slot) => Some(self.recipient_counters[*slot]),
            None => None,
        }
    }

    /// Decides one request for `recipient` at `now` and records it.
    fn record_request(&mut self, recipient: &str, now: u64) -> (admitted: bool)
        requires
            old(self).wf(),
        ensures
            final(self).wf(),
            final(self)@ == limit_after(old(self)@, recipient@, now),
            admitted == limit_admits(old(self)@, recipient@, now),
    {
        let slot: usize = match self.recipient_slots.get(recipient) {
            Some(known) => *known,
            None => {
                let next: usize = self.recipient_counters.len();
                self.recipient_counters.push(
                    RecipientCounter { allowed_requests: self.max_requests, last_request: Some(now) },
                );
                self.recipient_slots.insert(String::from_str(recipient), next);
                next
            },
        };
        let counter = self.recipient_counters[slot];
        let elapsed: u64 = match counter.last_request {
            Some(start) => if now >= start { now - start } else { 0 },
            None => 0,
        };
        let admitted = self.max_requests > 0 && (elapsed > self.per_duration
            || counter.allowed_requests > 0);
        if admitted {
            if elapsed <= self.per_duration {
                self.recipient_counters[slot] = RecipientCounter {
                    allowed_requests: counter.allowed_requests - 1,
                    last_request: counter.last_request,
                };
            } else {
                self.recipient_counters[slot] = RecipientCounter {
                    allowed_requests: self.max_requests - 1,
                    last_request: Some(now),
                };
            }
        }
        assert(self@.recipient_counters =~= limit_after(
            old(self)@,
            recipient@,
            now,
        ).recipient_counters);
        admitted
    }
}

/// The admission gate: one rate limit per notification type.
///
/// Limits live in `rate_limits`; `type_slots` says which position belongs
/// to which notification type.
pub struct NotificationService {
    type_slots: StringHashMap<usize>,
    rate_limits: Vec<RateLimit>,
}

impl View for NotificationService {
    type V = Table;

    closed spec fn view(&self) -> Table {
        Map::new(
            |notification_type: Seq<char>| self.type_slots@.contains_key(notification_type),
            |notification_type: Seq<char>| self.rate_limits@[self.type_slots@[notification_type] as int]@,
        )
    }
}

impl NotificationService {
    /// Every notification type has a position of its own among the limits,
    /// and every limit is well-formed.
    pub closed spec fn wf(&self) -> bool {
        &&& forall|notification_type: Seq<char>| #[trigger]
            self.type_slots@.contains_key(notification_type) ==> self.type_slots@[notification_type]
                < self.rate_limits@.len()
        &&& forall|a: Seq<char>, b: Seq<char>|
            (#[trigger] self.type_slots@.contains_key(a) && #[trigger] self.type_slots@.contains_key(b)
                && self.type_slots@[a] == self.type_slots@[b]) ==> a == b
        &&& forall|i: int| 0 <= i < self.rate_limits@.len() ==> (#[trigger] self.rate_limits@[i]).wf()
    }

    /// What a well-formed service stands for is a valid table.
    pub proof fn lemma_wf_valid(&self)
        requires
            self.wf(),
        ensures
            table_valid(self@),
    {
        assert forall|notification_type: Seq<char>| #[trigger]
            self@.contains_key(notification_type) implies limit_valid(self@[notification_type]) by {
            self.rate_limits@[self.type_slots@[notification_type] as int].lemma_wf_valid();
        }
    }

    /// A service without any rate limit.
    pub fn new() -> (service: Self)
        ensures
            service.wf(),
            service@ == Map::<Seq<char>, RateLimitView>::empty(),
    {
        let service = NotificationService { type_slots: StringHashMap::new(), rate_limits: Vec::new() };
        assert(service@ =~= Map::<Seq<char>, RateLimitView>::empty());
        service
    }

    /// A rate limit of `max_requests` per window of `per_duration` time
    /// units, with no recipient seen yet.
    pub fn create_rate_limit(max_requests: u32, per_duration: u64) -> (limit: RateLimit)
        ensures
            limit.wf(),
            limit@ == (RateLimitView {
                max_requests,
                per_duration,
                recipient_counters: Map::empty(),
            }),
    {
        let limit = RateLimit {
            max_requests,
            per_duration,
            recipient_slots: StringHashMap::new(),
            recipient_counters: Vec::new(),
        };
        assert(limit@.recipient_counters =~= Map::<Seq<char>, RecipientCounter>::empty());
        limit
    }

    /// Whether no notification type has a rate limit yet.
    pub fn is_empty(&self) -> (empty: bool)
        ensures
            empty == (self@ == Map::<Seq<char>, RateLimitView>::empty()),
    {
        let empty = self.type_slots.is_empty();
        proof {
            if empty {
                assert(self@ =~= Map::<Seq<char>, RateLimitView>::empty());
            } else {
                let witness = choose|k: Seq<char>| self.type_slots@.contains_key(k);
                assert(self@.contains_key(witness));
            }
        }
        empty
    }

    /// Installs `limit` for `notification_type` if the type has no limit
    /// yet, and says whether it did. A limit that a type once has, installed
    /// here or by its first request, stays.
    pub fn set_rate_limit(&mut self, notification_type: &str, limit: RateLimit) -> (installed: bool)
        requires
            old(self).wf(),
            limit.wf(),
        ensures
            final(self).wf(),
            installed == !old(self)@.contains_key(notification_type@),
            final(self)@ == if installed {
                old(self)@.insert(notification_type@, limit@)
            } else {
                old(self)@
            },
    {
        if self.type_slots.contains_key(notification_type) {
            return false;
        }
        let next: usize = self.rate_limits.len();
        self.rate_limits.push(limit);
        self.type_slots.insert(String::from_str(notification_type), next);
        assert(self@ =~= old(self)@.insert(notification_type@, limit@));
        true
    }

    /// The rate limit of `notification_type`, if it has one.
    pub fn rate_limit(&self, notification_type: &str) -> (found: Option<&RateLimit>)
        requires
            self.wf(),
        ensures
            found.is_some() == self@.contains_key(notification_type@),
            found matches Some(limit) ==> limit.wf() && limit@ == self@[notification_type@],
    {
        match self.type_slots.get(notification_type) {
            Some(slot) => Some(&self.rate_limits[*slot]),
            None => None,
        }
    }

    /// Decides whether a notification of `notification_type` may go to
    /// `recipient` at time `now`, and records the decision.
    ///
    /// A type without a limit gets the default limit; a recipient without
    /// a counter gets the full quota in a window that opens at `now`. The
    /// request is admitted unless the quota of the current window is used
    /// up; a rejection carries the type and the recipient.
    pub fn decide(
        &mut self,
        notification_type: &str,
        recipient: &str,
        now: u64,
    ) -> (decision: Result<(), String>)
        requires
            old(self).wf(),
        ensures
            final(self).wf(),
            final(self)@ == after(old(self)@, notification_type@, recipient@, now),
            decision.is_ok() == admits(old(self)@, notification_type@, recipient@, now),
            decision matches Err(reason) ==> reason@ == rejection_message(
                notification_type@,
                recipient@,
            ),
    {
        let slot: usize = match self.type_slots.get(notification_type) {
            Some(known) => *known,
            None => {
                let next: usize = self.rate_limits.len();
                self.rate_limits.push(Self::create_rate_limit(u32::MAX, 1));
                self.type_slots.insert(String::from_str(notification_type), next);
                next
            },
        };
        let admitted = self.rate_limits[slot].record_request(recipient, now);
        assert(self@ =~= after(old(self)@, notification_type@, recipient@, now));
        if admitted {
            Ok(())
        } else {
            Err(Self::rejection(notification_type, recipient))
        }
    }

    /// The reason given when a request of `notification_type` for
    /// `recipient` is rejected.
    pub fn rejection(notification_type: &str, recipient: &str) -> (reason: String)
        ensures
            reason@ == rejection_message(notification_type@, recipient@),
    {
        let mut reason = String::from_str("rate limit exceeded for ");
        reason.append(notification_type);
        reason.append(" to ");
        reason.append(recipient);
        reason
    }
}

} // verus!
