//! The leadership coordinator: an exclusive, time-bounded lease gates
//! which replica may run the reconciliation engine.
//!
//! The lease backend's two atomic operations — acquire-if-unheld-or-expired
//! and renew-if-held — are modeled here as pure transitions on a lease
//! record; the embedder (or a simulated backend) applies them atomically.
//! Each replica keeps a `LeaseHandle` whose `is_leader` accessor is
//! non-blocking; renewal failures demote the handle after a bounded number
//! of consecutive misses, and serving redirects continues regardless.

use vstd::prelude::*;

verus! {

/// The named lease record held by the backend: the current holder, when
/// it last renewed, and the lease duration granted to it. Times are the
/// backend's clock in seconds.
#[derive(Clone)]
pub struct LeaseRecord {
    pub holder: Option<String>,
    pub renewed_at: u64,
    pub lease_duration: u64,
}

#[verifier::ext_equal]
pub struct LeaseRecordView {
    pub holder: Option<Seq<char>>,
    pub renewed_at: u64,
    pub lease_duration: u64,
}

impl View for LeaseRecord {
    type V = LeaseRecordView;

    open spec fn view(&self) -> LeaseRecordView {
        LeaseRecordView {
            holder: self.holder.deep_view(),
            renewed_at: self.renewed_at,
            lease_duration: self.lease_duration,
        }
    }
}

/// Whether the record is free for the taking: never held, or held past
/// its expiry.
pub open spec fn spec_lease_expired(record: LeaseRecordView, now: u64) -> bool {
    record.holder is None || record.renewed_at + record.lease_duration <= now
}

/// Whether an identity holds a live lease at an instant.
pub open spec fn spec_holds_lease(record: LeaseRecordView, identity: Seq<char>, now: u64) -> bool {
    record.holder == Some(identity) && !spec_lease_expired(record, now)
}

/// The backend's atomic acquire-if-unheld-or-expired. The returned flag
/// says whether the caller now holds the lease; on success the record
/// names the caller and its clock restarts, otherwise the record is
/// untouched.
pub fn acquire_if_free(
    record: &LeaseRecord,
    identity: &String,
    now: u64,
    lease_duration: u64,
) -> (r: (LeaseRecord, bool))
    ensures
        r.1 == (spec_lease_expired(record@, now) || record@.holder == Some(identity@)),
        r.1 ==> r.0@ == (LeaseRecordView {
            holder: Some(identity@),
            renewed_at: now,
            lease_duration: lease_duration,
        }),
        !r.1 ==> r.0@ == record@,
{
    let free = match &record.holder {
        None => true,
        Some(h) => {
            let expired = record.renewed_at <= u64::MAX - record.lease_duration
                && record.renewed_at + record.lease_duration <= now;
            proof {
                if record.renewed_at > u64::MAX - record.lease_duration {
                    assert(record.renewed_at + record.lease_duration > u64::MAX >= now);
                }
            }
            expired || h.eq(identity)
        },
    };
    if free {
        (
            LeaseRecord {
                holder: Some(identity.clone()),
                renewed_at: now,
                lease_duration,
            },
            true,
        )
    } else {
        (clone_record(record), false)
    }
}

/// The backend's atomic renew-if-held: only the current holder can push
/// the renewal time forward; anyone else leaves the record untouched.
pub fn renew_if_held(record: &LeaseRecord, identity: &String, now: u64) -> (r: (LeaseRecord, bool))
    ensures
        r.1 == (record@.holder == Some(identity@)),
        r.1 ==> r.0@ == (LeaseRecordView { renewed_at: now, ..record@ }),
        !r.1 ==> r.0@ == record@,
{
    let held = match &record.holder {
        None => false,
        Some(h) => h.eq(identity),
    };
    if held {
        (
            LeaseRecord {
                holder: match &record.holder {
                    None => None,
                    Some(h) => Some(h.clone()),
                },
                renewed_at: now,
                lease_duration: record.lease_duration,
            },
            true,
        )
    } else {
        (clone_record(record), false)
    }
}

/// Copies a lease record field by field.
fn clone_record(record: &LeaseRecord) -> (r: LeaseRecord)
    ensures
        r@ == record@,
{
    LeaseRecord {
        holder: match &record.holder {
            None => None,
            Some(h) => Some(h.clone()),
        },
        renewed_at: record.renewed_at,
        lease_duration: record.lease_duration,
    }
}

/// A replica's view of its own leadership. `is_leader` reflects the last
/// observed lease state, not a cached intention: every acquire or renewal
/// outcome updates it, and a bounded run of renewal failures demotes the
/// replica so a brief window with zero leaders is possible but the engine
/// stops immediately.
pub struct LeaseHandle {
    pub identity: String,
    pub is_leader: bool,
    pub consecutive_failures: u64,
    pub max_failures: u64,
}

impl LeaseHandle {
    /// A fresh handle: not leader until an acquire succeeds. A handle
    /// tolerates up to `max_failures` consecutive renewal misses; at
    /// least one miss must demote.
    pub fn new(identity: String, max_failures: u64) -> (h: LeaseHandle)
        requires
            max_failures >= 1,
        ensures
            h.identity == identity,
            !h.is_leader,
            h.consecutive_failures == 0,
            h.max_failures == max_failures,
    {
        LeaseHandle { identity, is_leader: false, consecutive_failures: 0, max_failures }
    }

    /// Non-blocking leadership accessor; the engine's gate.
    pub fn is_leader(&self) -> (r: bool)
        ensures
            r == self.is_leader,
    {
        self.is_leader
    }

    /// Records the outcome of an acquire attempt.
    pub fn on_acquire(&mut self, acquired: bool)
        ensures
            final(self).is_leader == acquired,
            final(self).consecutive_failures == 0,
            final(self).identity == old(self).identity,
            final(self).max_failures == old(self).max_failures,
    {
        self.is_leader = acquired;
        self.consecutive_failures = 0;
    }

    /// Records a successful renewal: leadership is confirmed and the
    /// failure run resets.
    pub fn on_renew_success(&mut self)
        ensures
            final(self).is_leader,
            final(self).consecutive_failures == 0,
            final(self).identity == old(self).identity,
            final(self).max_failures == old(self).max_failures,
    {
        self.is_leader = true;
        self.consecutive_failures = 0;
    }

    /// Records a failed renewal. After `max_failures` consecutive misses
    /// the handle demotes itself: leadership is lost but the process
    /// lives on and keeps serving redirects.
    pub fn on_renew_failure(&mut self)
        ensures
            final(self).consecutive_failures == if old(self).consecutive_failures < u64::MAX {
                old(self).consecutive_failures + 1
            } else {
                old(self).consecutive_failures as int
            },
            final(self).is_leader == (old(self).is_leader && final(self).consecutive_failures
                < old(self).max_failures),
            final(self).identity == old(self).identity,
            final(self).max_failures == old(self).max_failures,
    {
        if self.consecutive_failures < u64::MAX {
            self.consecutive_failures = self.consecutive_failures + 1;
        }
        if self.consecutive_failures >= self.max_failures {
            self.is_leader = false;
        }
    }
}

/// Leadership exclusivity at the backend: the lease record names at most
/// one holder, so two distinct identities can never both hold a live
/// lease at the same instant.
pub proof fn lemma_lease_exclusive(
    record: LeaseRecordView,
    a: Seq<char>,
    b: Seq<char>,
    now: u64,
)
    requires
        a != b,
    ensures
        !(spec_holds_lease(record, a, now) && spec_holds_lease(record, b, now)),
{
}

/// An expired lease is free for any candidate: once the active holder's
/// renewals stall past the lease duration, a standby's next acquire
/// attempt succeeds.
pub proof fn lemma_expired_lease_is_acquirable(record: LeaseRecordView, now: u64)
    requires
        record.renewed_at + record.lease_duration <= now,
    ensures
        spec_lease_expired(record, now),
{
}

} // verus!
