//! The shared store as the run sees it: two records under two keys, and
//! what each action of a run does to them.

use crate::lease::{decision, lease_after, stale, try_acquire, LeaseDecision, LeaseStatus};
use crate::run::{Action, ActionView};
use crate::timestamp::Timestamp;
use vstd::prelude::*;

verus! {

/// The key under which the watermark is kept.
pub const WATERMARK_KEY: &'static str = "newspenguin-rss.last_build_date";

/// The key under which the lease is kept.
pub const LEASE_KEY: &'static str = "newspenguin-rss.lock";

/// The two records. A record that is absent was never written, or was
/// deleted.
#[derive(Clone, Copy, Debug, PartialEq, Eq)]
pub struct Store {
    /// When the lease on record was acquired.
    pub lease: Option<Timestamp>,
    /// The build time of the last feed that was gone through.
    pub watermark: Option<Timestamp>,
}

/// The store after an action has been carried out. A write replaces the
/// record or creates it; a delete removes it if it is there; everything
/// else leaves the store alone.
pub open spec fn effect(store: Store, action: ActionView) -> Store {
    match action {
        ActionView::DeleteLease => Store { lease: None, ..store },
        ActionView::WriteLease(at) => Store { lease: Some(at), ..store },
        ActionView::WriteWatermark(at) => Store { watermark: Some(at), ..store },
        _ => store,
    }
}

/// The store after a sequence of actions, carried out in order.
pub open spec fn effects(store: Store, actions: Seq<ActionView>) -> Store
    decreases actions.len(),
{
    if actions.len() == 0 {
        store
    } else {
        effect(effects(store, actions.drop_last()), actions.last())
    }
}

impl Store {
    /// A store in which nothing was ever written.
    pub fn empty() -> (r: Store)
        ensures
            r == (Store { lease: None, watermark: None }),
    {
        Store { lease: None, watermark: None }
    }

    /// Tries to take the lease at `now`. Where no lease is on record one
    /// dated `now` is written. A lease that is not yet stale is honoured:
    /// the answer is `Held` and the store stays as it is. A stale lease is
    /// deleted and one dated `now` written in its place.
    pub fn try_acquire(&mut self, now: Timestamp) -> (status: LeaseStatus)
        ensures
            status == decision(old(self).lease, now).status_of(),
            final(self).lease == lease_after(old(self).lease, now),
            final(self).watermark == old(self).watermark,
            status == LeaseStatus::Held <==> (old(self).lease matches Some(at) && !stale(at, now)),
            status == LeaseStatus::Held ==> *final(self) == *old(self),
            status == LeaseStatus::Acquired ==> final(self).lease == Some(now),
    {
        match try_acquire(self.lease, now) {
            LeaseDecision::Held => LeaseStatus::Held,
            LeaseDecision::Claim => {
                self.apply(&Action::WriteLease(now));
                LeaseStatus::Acquired
            },
            LeaseDecision::Reclaim => {
                self.apply(&Action::DeleteLease);
                self.apply(&Action::WriteLease(now));
                LeaseStatus::Acquired
            },
        }
    }

    /// Deletes the lease, whether or not there is one.
    pub fn release(&mut self)
        ensures
            *final(self) == effect(*old(self), ActionView::DeleteLease),
            final(self).lease is None,
            final(self).watermark == old(self).watermark,
    {
        self.apply(&Action::DeleteLease);
    }

    /// The watermark on record: none if none was ever set.
    pub fn watermark(&self) -> (r: Option<Timestamp>)
        ensures
            r == self.watermark,
    {
        self.watermark
    }

    /// Sets the watermark, whether or not one is on record.
    pub fn set_watermark(&mut self, at: Timestamp)
        ensures
            *final(self) == effect(*old(self), ActionView::WriteWatermark(at)),
            final(self).watermark == Some(at),
            final(self).lease == old(self).lease,
    {
        self.apply(&Action::WriteWatermark(at));
    }

    /// Carries out an action on the records.
    pub fn apply(&mut self, action: &Action)
        ensures
            *final(self) == effect(*old(self), action@),
    {
        match action {
            Action::DeleteLease => {
                self.lease = None;
            },
            Action::WriteLease(at) => {
                self.lease = Some(*at);
            },
            Action::WriteWatermark(at) => {
                self.watermark = Some(*at);
            },
            _ => {},
        }
    }
}

/// Releasing the lease is idempotent, and allowed where there is none.
pub proof fn release_is_idempotent(store: Store)
    ensures
        effect(store, ActionView::DeleteLease).lease is None,
        effect(store, ActionView::DeleteLease).watermark == store.watermark,
        effect(effect(store, ActionView::DeleteLease), ActionView::DeleteLease) == effect(
            store,
            ActionView::DeleteLease,
        ),
{
}

/// Writing the watermark is an upsert, and the last write wins: the value
/// written is the value on record, whether or not there was one before, and
/// the lease is not touched.
pub proof fn watermark_write_wins(store: Store, first: Timestamp, second: Timestamp)
    ensures
        effect(store, ActionView::WriteWatermark(first)).watermark == Some(first),
        effect(store, ActionView::WriteWatermark(first)).lease == store.lease,
        effect(
            effect(store, ActionView::WriteWatermark(first)),
            ActionView::WriteWatermark(second),
        ).watermark == Some(second),
{
}

/// Carrying out one run of actions and then another is carrying out the
/// two in a row.
pub proof fn effects_concat(store: Store, first: Seq<ActionView>, second: Seq<ActionView>)
    ensures
        effects(store, first + second) == effects(effects(store, first), second),
    decreases second.len(),
{
    if second.len() == 0 {
        assert(first + second =~= first);
    } else {
        effects_concat(store, first, second.drop_last());
        assert((first + second).drop_last() =~= first + second.drop_last());
        assert((first + second).last() == second.last());
    }
}

/// Actions that neither write nor delete change nothing.
pub proof fn idle_actions_change_nothing(store: Store, actions: Seq<ActionView>)
    requires
        forall|i: int|
            0 <= i < actions.len() ==> effect(store, #[trigger] actions[i]) == store,
    ensures
        effects(store, actions) == store,
    decreases actions.len(),
{
    if actions.len() > 0 {
        idle_actions_change_nothing(store, actions.drop_last());
        assert(actions.last() == actions[actions.len() - 1]);
    }
}

/// Actions that only stop change nothing.
pub proof fn stops_change_nothing(store: Store, actions: Seq<ActionView>)
    requires
        forall|i: int| 0 <= i < actions.len() ==> actions[i] == ActionView::Stop,
    ensures
        effects(store, actions) == store,
    decreases actions.len(),
{
    if actions.len() > 0 {
        stops_change_nothing(store, actions.drop_last());
    }
}

} // verus!
