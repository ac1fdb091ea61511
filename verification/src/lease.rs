//! The run-exclusion lease: a record in the shared store that says a run is
//! under way, honoured while it is fresh and taken over once it is stale.

use crate::timestamp::Timestamp;
use vstd::prelude::*;

verus! {

/// Seconds after which a lease that was never released counts as abandoned.
pub const STALENESS_SECS: i64 = 300;

/// What an attempt to take the lease reports to the run.
#[derive(Clone, Copy, Debug, PartialEq, Eq, Structural)]
pub enum LeaseStatus {
    /// The lease is now this run's.
    Acquired,
    /// Another run holds a fresh lease; this run has to end.
    Held,
}

/// What an attempt to take the lease does to the store.
#[derive(Clone, Copy, Debug, PartialEq, Eq, Structural)]
pub enum LeaseDecision {
    /// No lease is recorded: write one.
    Claim,
    /// The recorded lease is stale: delete it, then write one.
    Reclaim,
    /// The recorded lease is fresh: touch nothing.
    Held,
}

/// A lease taken at `acquired_at` is stale at `now` when it lies strictly
/// before the instant five minutes earlier than `now`.
pub open spec fn stale(acquired_at: Timestamp, now: Timestamp) -> bool {
    acquired_at.secs < now.secs - STALENESS_SECS || (acquired_at.secs == now.secs
        - STALENESS_SECS && acquired_at.nanos < now.nanos)
}

/// The decision for the recorded lease `current` at `now`.
pub open spec fn decision(current: Option<Timestamp>, now: Timestamp) -> LeaseDecision {
    match current {
        None => LeaseDecision::Claim,
        Some(acquired_at) => if stale(acquired_at, now) {
            LeaseDecision::Reclaim
        } else {
            LeaseDecision::Held
        },
    }
}

/// The lease record once the decision has been carried out.
pub open spec fn lease_after(current: Option<Timestamp>, now: Timestamp) -> Option<Timestamp> {
    match decision(current, now) {
        LeaseDecision::Held => current,
        _ => Some(now),
    }
}

impl LeaseDecision {
    /// The status that goes with the decision.
    pub open spec fn status_of(self) -> LeaseStatus {
        match self {
            LeaseDecision::Held => LeaseStatus::Held,
            _ => LeaseStatus::Acquired,
        }
    }

    /// Whether the decision deletes a record before it writes.
    pub open spec fn deletes(self) -> bool {
        self == LeaseDecision::Reclaim
    }

    /// Whether the decision writes a lease record.
    pub open spec fn writes(self) -> bool {
        self != LeaseDecision::Held
    }

    pub fn status(&self) -> (r: LeaseStatus)
        ensures
            r == self.status_of(),
    {
        match self {
            LeaseDecision::Held => LeaseStatus::Held,
            _ => LeaseStatus::Acquired,
        }
    }
}

/// Whether a lease taken at `acquired_at` is stale at `now`.
pub fn is_stale(acquired_at: &Timestamp, now: &Timestamp) -> (r: bool)
    ensures
        r == stale(*acquired_at, *now),
{
    match now.secs.checked_sub(STALENESS_SECS) {
        Some(limit) => acquired_at.secs < limit || (acquired_at.secs == limit && acquired_at.nanos
            < now.nanos),
        None => false,
    }
}

/// Decides an attempt to take the lease at `now`, given the acquisition time
/// of the lease that the store holds, if it holds one.
pub fn try_acquire(current: Option<Timestamp>, now: Timestamp) -> (r: LeaseDecision)
    ensures
        r == decision(current, now),
        current is None ==> r == LeaseDecision::Claim,
        current matches Some(at) && now.secs - at.secs < STALENESS_SECS ==> r == LeaseDecision::Held,
        current matches Some(at) && now.secs - at.secs > STALENESS_SECS ==> r
            == LeaseDecision::Reclaim,
{
    match current {
        None => LeaseDecision::Claim,
        Some(acquired_at) => if is_stale(&acquired_at, &now) {
            LeaseDecision::Reclaim
        } else {
            LeaseDecision::Held
        },
    }
}

/// A lease taken less than five minutes ago is honoured: the attempt reports
/// `Held`, deletes nothing, writes nothing, and the record stays as it was.
pub proof fn fresh_lease_excludes(acquired_at: Timestamp, now: Timestamp)
    requires
        now.secs - acquired_at.secs < STALENESS_SECS,
    ensures
        decision(Some(acquired_at), now) == LeaseDecision::Held,
        decision(Some(acquired_at), now).status_of() == LeaseStatus::Held,
        !decision(Some(acquired_at), now).deletes(),
        !decision(Some(acquired_at), now).writes(),
        lease_after(Some(acquired_at), now) == Some(acquired_at),
{
}

/// A lease taken more than five minutes ago is taken over: the attempt
/// reports `Acquired`, deletes the old record and writes one dated `now`.
pub proof fn stale_lease_is_reclaimed(acquired_at: Timestamp, now: Timestamp)
    requires
        now.secs - acquired_at.secs > STALENESS_SECS,
    ensures
        decision(Some(acquired_at), now) == LeaseDecision::Reclaim,
        decision(Some(acquired_at), now).status_of() == LeaseStatus::Acquired,
        decision(Some(acquired_at), now).deletes(),
        decision(Some(acquired_at), now).writes(),
        lease_after(Some(acquired_at), now) == Some(now),
{
}

/// With no lease on record the attempt succeeds and writes one dated `now`.
pub proof fn absent_lease_is_claimed(now: Timestamp)
    ensures
        decision(None, now) == LeaseDecision::Claim,
        decision(None, now).status_of() == LeaseStatus::Acquired,
        !decision(None, now).deletes(),
        lease_after(None, now) == Some(now),
{
}

} // verus!
