//! Comparing a snapshot with the watermark: what a run publishes and what
//! it records as the new watermark.

use crate::feed::{item_views, FeedItem, FeedItemView, FeedSnapshot, FeedSnapshotView};
use crate::selection::{select_new_items, selection, selection_excludes_boundary};
use crate::timestamp::Timestamp;
use vstd::prelude::*;

verus! {

/// The three situations a run can find.
#[derive(Clone, Copy, Debug, PartialEq, Eq, Structural)]
pub enum SyncCase {
    /// Nothing was ever synchronised.
    Bootstrap,
    /// The feed was not rebuilt since the watermark.
    NoChange,
    /// The feed was rebuilt after the watermark.
    Advance,
}

/// What a run does with a snapshot.
#[derive(Debug, PartialEq, Eq)]
pub struct SyncPlan {
    pub case: SyncCase,
    /// The items to publish, in publish order.
    pub queue: Vec<FeedItem>,
    /// The watermark to record once the queue has been gone through.
    pub watermark: Timestamp,
}

/// A plan as plain values.
pub struct SyncPlanView {
    pub case: SyncCase,
    pub queue: Seq<FeedItemView>,
    pub watermark: Timestamp,
}

impl View for SyncPlan {
    type V = SyncPlanView;

    open spec fn view(&self) -> SyncPlanView {
        SyncPlanView { case: self.case, queue: item_views(self.queue@), watermark: self.watermark }
    }
}

/// The case that a build time and a watermark make.
pub open spec fn case_of(build_timestamp: Timestamp, watermark: Option<Timestamp>) -> SyncCase {
    match watermark {
        None => SyncCase::Bootstrap,
        Some(mark) => if mark.before(build_timestamp) {
            SyncCase::Advance
        } else {
            SyncCase::NoChange
        },
    }
}

/// The plan for a snapshot under a watermark.
///
/// With no watermark the build time becomes the watermark and nothing is
/// published. With a watermark that the build time does not exceed, nothing
/// is published and the watermark is written again as it stands. Otherwise
/// the items published after the watermark go out, oldest first, and the
/// build time becomes the watermark.
pub open spec fn plan_of(snapshot: FeedSnapshotView, watermark: Option<Timestamp>) -> SyncPlanView {
    match watermark {
        None => SyncPlanView {
            case: SyncCase::Bootstrap,
            queue: Seq::empty(),
            watermark: snapshot.build_timestamp,
        },
        Some(mark) => if mark.before(snapshot.build_timestamp) {
            SyncPlanView {
                case: SyncCase::Advance,
                queue: selection(snapshot.items, mark),
                watermark: snapshot.build_timestamp,
            }
        } else {
            SyncPlanView { case: SyncCase::NoChange, queue: Seq::empty(), watermark: mark }
        },
    }
}

/// Plans a run for a snapshot under the recorded watermark.
pub fn reconcile(snapshot: &FeedSnapshot, watermark: Option<Timestamp>) -> (r: SyncPlan)
    ensures
        r@ == plan_of(snapshot@, watermark),
        r.case == case_of(snapshot.build_timestamp, watermark),
{
    match watermark {
        None => {
            let plan = SyncPlan {
                case: SyncCase::Bootstrap,
                queue: Vec::new(),
                watermark: snapshot.build_timestamp,
            };
            assert(plan@.queue =~= Seq::<FeedItemView>::empty());
            plan
        },
        Some(mark) => if mark.is_before(&snapshot.build_timestamp) {
            SyncPlan {
                case: SyncCase::Advance,
                queue: select_new_items(&snapshot.items, mark),
                watermark: snapshot.build_timestamp,
            }
        } else {
            let plan = SyncPlan { case: SyncCase::NoChange, queue: Vec::new(), watermark: mark };
            assert(plan@.queue =~= Seq::<FeedItemView>::empty());
            plan
        },
    }
}

/// The first run ever records the build time of the snapshot as the
/// watermark and publishes nothing, whatever the snapshot holds.
pub proof fn bootstrap_publishes_nothing(snapshot: FeedSnapshotView)
    ensures
        plan_of(snapshot, None).case == SyncCase::Bootstrap,
        plan_of(snapshot, None).queue.len() == 0,
        plan_of(snapshot, None).watermark == snapshot.build_timestamp,
{
}

/// A snapshot whose build time is the watermark publishes nothing and
/// leaves the watermark where it is, and so does one built before it.
pub proof fn unchanged_feed_publishes_nothing(snapshot: FeedSnapshotView, watermark: Timestamp)
    requires
        !watermark.before(snapshot.build_timestamp),
    ensures
        plan_of(snapshot, Some(watermark)).case == SyncCase::NoChange,
        plan_of(snapshot, Some(watermark)).queue.len() == 0,
        plan_of(snapshot, Some(watermark)).watermark == watermark,
{
}

/// Planning twice for a feed that did not change is planning once: the
/// second plan, made under the watermark of the first, publishes nothing
/// and keeps that watermark.
pub proof fn replanning_is_idempotent(snapshot: FeedSnapshotView, watermark: Option<Timestamp>)
    ensures
        ({
            let first = plan_of(snapshot, watermark);
            let second = plan_of(snapshot, Some(first.watermark));
            second.queue.len() == 0 && second.watermark == first.watermark
        }),
{
}

/// A rebuilt feed publishes exactly its selection and moves the watermark
/// to the build time. No item published at the old watermark is in it,
/// however far the build time has moved.
pub proof fn rebuilt_feed_advances(snapshot: FeedSnapshotView, watermark: Timestamp)
    requires
        watermark.before(snapshot.build_timestamp),
    ensures
        plan_of(snapshot, Some(watermark)).case == SyncCase::Advance,
        plan_of(snapshot, Some(watermark)).queue == selection(snapshot.items, watermark),
        plan_of(snapshot, Some(watermark)).watermark == snapshot.build_timestamp,
        forall|item: FeedItemView|
            item.published_at == watermark ==> !(#[trigger] plan_of(
                snapshot,
                Some(watermark),
            ).queue.contains(item)),
{
    selection_excludes_boundary(snapshot.items, watermark);
}

/// The watermark never moves back: the one a plan records is not before
/// the one it was made under.
pub proof fn watermark_never_decreases(snapshot: FeedSnapshotView, watermark: Timestamp)
    ensures
        !plan_of(snapshot, Some(watermark)).watermark.before(watermark),
{
}

} // verus!
