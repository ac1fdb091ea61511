//! Whole runs: what the machine asks for, in order, when it is fed a
//! sequence of events.

use crate::feed::{feed_of, FeedError, FeedItemView, FeedSnapshotView};
use crate::lease::{decision, LeaseDecision, STALENESS_SECS};
use crate::publish::{result_of, PublishResult};
use crate::reconcile::{plan_of, SyncCase, SyncPlanView};
use crate::run::{
    outcome_of, reading_of, step_of, ActionView, EventView, RunError, RunOutcome, RunStateView,
};
use crate::selection::{
    newest_first_goes_out_oldest_first, selection, selection_excludes_boundary,
};
use crate::store::{
    effects, effects_concat, idle_actions_change_nothing, stops_change_nothing, Store,
};
use crate::timestamp::Timestamp;
use vstd::prelude::*;

verus! {

/// The state reached from `state` after `events`, and the actions asked
/// for on the way, one for each event.
pub open spec fn run_of(state: RunStateView, events: Seq<EventView>) -> (
    RunStateView,
    Seq<ActionView>,
)
    decreases events.len(),
{
    if events.len() == 0 {
        (state, Seq::empty())
    } else {
        let (next, action) = step_of(state, events.first());
        let (last, rest) = run_of(next, events.drop_first());
        (last, seq![action] + rest)
    }
}

/// The events that report these answers of the endpoint.
pub open spec fn answers(statuses: Seq<u16>) -> Seq<EventView> {
    statuses.map_values(|status: u16| EventView::Published(status))
}

/// The results that these answers of the endpoint count as.
pub open spec fn results_of(statuses: Seq<u16>) -> Seq<PublishResult> {
    statuses.map_values(|status: u16| result_of(status))
}

/// The actions that post these items.
pub open spec fn posts(items: Seq<FeedItemView>) -> Seq<ActionView> {
    items.map_values(|item: FeedItemView| ActionView::Publish(item))
}

/// A run over one script and then another is the run over the first,
/// carried on from where it ended over the second.
pub proof fn run_of_concat(state: RunStateView, first: Seq<EventView>, second: Seq<EventView>)
    ensures
        run_of(state, first + second) == ({
            let (middle, head) = run_of(state, first);
            let (last, tail) = run_of(middle, second);
            (last, head + tail)
        }),
    decreases first.len(),
{
    if first.len() == 0 {
        assert(first + second =~= second);
        let (last, tail) = run_of(state, second);
        assert(Seq::<ActionView>::empty() + tail =~= tail);
    } else {
        let (next, action) = step_of(state, first.first());
        assert((first + second).first() == first.first());
        assert((first + second).drop_first() =~= first.drop_first() + second);
        run_of_concat(next, first.drop_first(), second);
        let (middle, head) = run_of(next, first.drop_first());
        let (last, tail) = run_of(middle, second);
        assert(seq![action] + (head + tail) =~= (seq![action] + head) + tail);
    }
}

/// A run over a single event is one step.
pub proof fn run_of_one(state: RunStateView, event: EventView)
    ensures
        run_of(state, seq![event]) == (step_of(state, event).0, seq![step_of(state, event).1]),
{
    let events = seq![event];
    assert(events.first() == event);
    assert(events.drop_first() =~= Seq::<EventView>::empty());
    let (next, action) = step_of(state, event);
    assert(run_of(next, events.drop_first()) == (next, Seq::<ActionView>::empty()));
    assert(seq![action] + Seq::<ActionView>::empty() =~= seq![action]);
}

/// A run that is over stays over: whatever is reported to it, it asks for
/// nothing more and its outcome stands.
pub proof fn finished_run_stays_finished(
    outcome: RunOutcome,
    results: Seq<PublishResult>,
    events: Seq<EventView>,
)
    ensures
        run_of(RunStateView::Done { outcome, results }, events).0 == (RunStateView::Done {
            outcome,
            results,
        }),
        run_of(RunStateView::Done { outcome, results }, events).1.len() == events.len(),
        forall|i: int|
            0 <= i < events.len() ==> #[trigger] run_of(
                RunStateView::Done { outcome, results },
                events,
            ).1[i] == ActionView::Stop,
    decreases events.len(),
{
    if events.len() > 0 {
        finished_run_stays_finished(outcome, results, events.drop_first());
    }
}

/// No answer of the endpoint stops the batch. From the moment the item at
/// position `results.len()` is being posted, a status for that item and for
/// every one after it, whatever the statuses are, takes the run through the
/// rest of the queue in order and on to the write of the watermark; each
/// status is noted as success exactly when it is 200.
pub proof fn batch_survives_every_status(
    queue: Seq<FeedItemView>,
    results: Seq<PublishResult>,
    watermark: Timestamp,
    statuses: Seq<u16>,
)
    requires
        results.len() < queue.len(),
        statuses.len() == queue.len() - results.len(),
    ensures
        run_of(RunStateView::Publishing { queue, results, watermark }, answers(statuses)) == (
            RunStateView::Recording {
                outcome: RunOutcome::Advanced,
                results: results + results_of(statuses),
            },
            posts(queue.skip(results.len() as int + 1)).push(
                ActionView::WriteWatermark(watermark),
            ),
        ),
    decreases statuses.len(),
{
    let state = RunStateView::Publishing { queue, results, watermark };
    let events = answers(statuses);
    let noted = results.push(result_of(statuses[0]));
    let remaining = queue.skip(results.len() as int + 1);
    assert(events.first() == EventView::Published(statuses[0]));
    assert(events.drop_first() =~= answers(statuses.drop_first()));
    assert(results + results_of(statuses) =~= noted + results_of(statuses.drop_first()));
    let (next, action) = step_of(state, events.first());
    let (last, rest) = run_of(next, events.drop_first());
    assert(events.len() > 0);
    assert(run_of(state, events) == (last, seq![action] + rest));
    if noted.len() < queue.len() {
        batch_survives_every_status(queue, noted, watermark, statuses.drop_first());
        let later = queue.skip(noted.len() as int + 1);
        assert(seq![ActionView::Publish(queue[noted.len() as int])] + posts(later).push(
            ActionView::WriteWatermark(watermark),
        ) =~= posts(remaining).push(ActionView::WriteWatermark(watermark)));
    } else {
        assert(statuses.drop_first().len() == 0);
        assert(events.drop_first().len() == 0);
        assert(rest =~= Seq::<ActionView>::empty());
        assert(results_of(statuses.drop_first()) =~= Seq::<PublishResult>::empty());
        assert(noted + Seq::<PublishResult>::empty() =~= noted);
        assert(seq![ActionView::WriteWatermark(watermark)] + Seq::<ActionView>::empty()
            =~= posts(remaining).push(ActionView::WriteWatermark(watermark)));
    }
}

/// Once the watermark is being written, two acknowledgements of the store
/// end the run: the lease is released and the outcome stands.
pub proof fn closing_steps(outcome: RunOutcome, results: Seq<PublishResult>)
    ensures
        run_of(
            RunStateView::Recording { outcome, results },
            seq![EventView::StoreDone, EventView::StoreDone],
        ) == (
            RunStateView::Done { outcome, results },
            seq![ActionView::DeleteLease, ActionView::Stop],
        ),
{
    let start = RunStateView::Recording { outcome, results };
    let one = seq![EventView::StoreDone];
    assert(one + one =~= seq![EventView::StoreDone, EventView::StoreDone]);
    run_of_concat(start, one, one);
    run_of_one(start, EventView::StoreDone);
    run_of_one(RunStateView::Releasing { outcome, results }, EventView::StoreDone);
    assert(seq![ActionView::DeleteLease] + seq![ActionView::Stop] =~= seq![
        ActionView::DeleteLease,
        ActionView::Stop,
    ]);
}

/// The events of a run from the answer of the watermark lookup to its end,
/// where the store refuses nothing and the endpoint always answers.
pub open spec fn script(row: Option<Seq<char>>, statuses: Seq<u16>) -> Seq<EventView> {
    seq![EventView::WatermarkRead(row)] + answers(statuses) + seq![
        EventView::StoreDone,
        EventView::StoreDone,
    ]
}

/// The actions that carry out a plan: its posts in order, the write of its
/// watermark, the release of the lease, and the stop.
pub open spec fn execution(plan: SyncPlanView) -> Seq<ActionView> {
    posts(plan.queue) + seq![
        ActionView::WriteWatermark(plan.watermark),
        ActionView::DeleteLease,
        ActionView::Stop,
    ]
}

/// A run carries out its plan, and nothing else. Given what the watermark
/// lookup reads, and one answer of the endpoint for each item of the plan,
/// whatever the answers are, the run posts the items of the plan in order,
/// then writes the watermark of the plan, then releases the lease. It ends
/// with the outcome of the plan's case and the result of each post.
pub proof fn run_follows_the_plan(
    snapshot: FeedSnapshotView,
    row: Option<Seq<char>>,
    watermark: Option<Timestamp>,
    statuses: Seq<u16>,
)
    requires
        reading_of(row) == Ok::<Option<Timestamp>, RunError>(watermark),
        statuses.len() == plan_of(snapshot, watermark).queue.len(),
    ensures
        run_of(RunStateView::AwaitingWatermark { snapshot }, script(row, statuses)) == (
            RunStateView::Done {
                outcome: outcome_of(plan_of(snapshot, watermark).case),
                results: results_of(statuses),
            },
            execution(plan_of(snapshot, watermark)),
        ),
{
    let start = RunStateView::AwaitingWatermark { snapshot };
    let read = EventView::WatermarkRead(row);
    let tail = seq![EventView::StoreDone, EventView::StoreDone];
    let plan = plan_of(snapshot, watermark);
    let queue = plan.queue;
    let closing = seq![ActionView::DeleteLease, ActionView::Stop];
    let wanted = execution(plan);
    assert(script(row, statuses) =~= seq![read] + (answers(statuses) + tail));
    run_of_concat(start, seq![read], answers(statuses) + tail);
    run_of_one(start, read);
    let (second, first_action) = step_of(start, read);
    run_of_concat(second, answers(statuses), tail);
    if queue.len() == 0 {
        closing_steps(outcome_of(plan.case), Seq::empty());
        assert(answers(statuses) =~= Seq::<EventView>::empty());
        assert(results_of(statuses) =~= Seq::<PublishResult>::empty());
        assert(posts(queue) =~= Seq::<ActionView>::empty());
        assert(seq![first_action] + (Seq::<ActionView>::empty() + closing) =~= wanted);
    } else {
        assert(plan.case == SyncCase::Advance);
        closing_steps(RunOutcome::Advanced, results_of(statuses));
        batch_survives_every_status(queue, Seq::empty(), plan.watermark, statuses);
        assert(Seq::<PublishResult>::empty() + results_of(statuses) =~= results_of(statuses));
        let later = posts(queue.skip(1)).push(ActionView::WriteWatermark(plan.watermark));
        assert(seq![first_action] + (later + closing) =~= wanted);
    }
}

/// The first run ever. With no watermark on record the run posts nothing,
/// writes the build time of the snapshot as the watermark, and releases the
/// lease, whatever the snapshot holds.
pub proof fn first_run_sets_the_watermark(snapshot: FeedSnapshotView)
    ensures
        run_of(RunStateView::AwaitingWatermark { snapshot }, script(None, Seq::empty())) == (
            RunStateView::Done { outcome: RunOutcome::Bootstrapped, results: Seq::empty() },
            seq![
                ActionView::WriteWatermark(snapshot.build_timestamp),
                ActionView::DeleteLease,
                ActionView::Stop,
            ],
        ),
{
    let statuses = Seq::<u16>::empty();
    run_follows_the_plan(snapshot, None, None, statuses);
    assert(results_of(statuses) =~= Seq::<PublishResult>::empty());
    assert(execution(plan_of(snapshot, None)) =~= seq![
        ActionView::WriteWatermark(snapshot.build_timestamp),
        ActionView::DeleteLease,
        ActionView::Stop,
    ]);
}

/// A run over a feed that was not rebuilt. With a watermark that the build
/// time of the snapshot does not exceed, the run posts nothing, writes the
/// watermark again as it stands, and releases the lease.
pub proof fn unchanged_run_keeps_the_watermark(
    snapshot: FeedSnapshotView,
    row: Seq<char>,
    watermark: Timestamp,
)
    requires
        reading_of(Some(row)) == Ok::<Option<Timestamp>, RunError>(Some(watermark)),
        !watermark.before(snapshot.build_timestamp),
    ensures
        run_of(RunStateView::AwaitingWatermark { snapshot }, script(Some(row), Seq::empty())) == (
            RunStateView::Done { outcome: RunOutcome::Unchanged, results: Seq::empty() },
            seq![
                ActionView::WriteWatermark(watermark),
                ActionView::DeleteLease,
                ActionView::Stop,
            ],
        ),
{
    let statuses = Seq::<u16>::empty();
    run_follows_the_plan(snapshot, Some(row), Some(watermark), statuses);
    assert(results_of(statuses) =~= Seq::<PublishResult>::empty());
    assert(execution(plan_of(snapshot, Some(watermark))) =~= seq![
        ActionView::WriteWatermark(watermark),
        ActionView::DeleteLease,
        ActionView::Stop,
    ]);
}

/// A run over a rebuilt feed. With a watermark before the build time, and
/// one answer of the endpoint for each selected item, whatever the answers
/// are, the run posts exactly the selection, oldest first, then moves the
/// watermark to the build time and releases the lease. It ends as advanced,
/// with the result of each post on record: a post that the endpoint turns
/// down neither stops the batch nor holds the watermark back.
pub proof fn advancing_run_posts_the_selection(
    snapshot: FeedSnapshotView,
    row: Seq<char>,
    watermark: Timestamp,
    statuses: Seq<u16>,
)
    requires
        reading_of(Some(row)) == Ok::<Option<Timestamp>, RunError>(Some(watermark)),
        watermark.before(snapshot.build_timestamp),
        statuses.len() == selection(snapshot.items, watermark).len(),
    ensures
        run_of(RunStateView::AwaitingWatermark { snapshot }, script(Some(row), statuses)) == (
            RunStateView::Done { outcome: RunOutcome::Advanced, results: results_of(statuses) },
            posts(selection(snapshot.items, watermark)) + seq![
                ActionView::WriteWatermark(snapshot.build_timestamp),
                ActionView::DeleteLease,
                ActionView::Stop,
            ],
        ),
{
    run_follows_the_plan(snapshot, Some(row), Some(watermark), statuses);
}

/// What a run that carries out a plan leaves in the store: the watermark
/// of the plan, and no lease.
pub proof fn executed_plan_in_the_store(store: Store, plan: SyncPlanView)
    ensures
        effects(store, execution(plan)) == (Store { lease: None, watermark: Some(plan.watermark) }),
{
    let closing = seq![
        ActionView::WriteWatermark(plan.watermark),
        ActionView::DeleteLease,
        ActionView::Stop,
    ];
    effects_concat(store, posts(plan.queue), closing);
    idle_actions_change_nothing(store, posts(plan.queue));
    reveal_with_fuel(effects, 4);
    assert(closing.drop_last() =~= seq![
        ActionView::WriteWatermark(plan.watermark),
        ActionView::DeleteLease,
    ]);
    assert(closing.drop_last().drop_last() =~= seq![ActionView::WriteWatermark(plan.watermark)]);
    assert(closing.drop_last().drop_last().drop_last() =~= Seq::<ActionView>::empty());
}

/// The events of a whole run that gets the lease, where the store refuses
/// nothing, the feed arrives and the endpoint always answers. A run that
/// takes over a stale lease hears from the store once more, for the delete.
pub open spec fn whole_script(
    lease_row: Option<Seq<char>>,
    now: Timestamp,
    reclaim: bool,
    body: Seq<u8>,
    row: Option<Seq<char>>,
    statuses: Seq<u16>,
) -> Seq<EventView> {
    seq![EventView::LeaseRead { row: lease_row, now }] + (if reclaim {
        seq![EventView::StoreDone]
    } else {
        Seq::empty()
    }) + seq![EventView::StoreDone, EventView::Fetched(body)] + script(row, statuses)
}

/// The actions of a whole run that gets the lease and carries out a plan.
pub open spec fn whole_execution(now: Timestamp, reclaim: bool, plan: SyncPlanView) -> Seq<
    ActionView,
> {
    (if reclaim {
        seq![ActionView::DeleteLease]
    } else {
        Seq::empty()
    }) + seq![ActionView::WriteLease(now), ActionView::Fetch, ActionView::ReadWatermark]
        + execution(plan)
}

/// A whole run, from the lease lookup to the release. Where the lease is
/// absent or stale, the document yields a snapshot and the stored watermark
/// can be read, the run takes the lease, fetches, reads the watermark and
/// carries out the plan for the snapshot under that watermark. It leaves
/// the store with the plan's watermark and without a lease.
pub proof fn whole_run_follows_the_plan(
    store: Store,
    lease_row: Option<Seq<char>>,
    current: Option<Timestamp>,
    now: Timestamp,
    body: Seq<u8>,
    snapshot: FeedSnapshotView,
    row: Option<Seq<char>>,
    watermark: Option<Timestamp>,
    statuses: Seq<u16>,
)
    requires
        reading_of(lease_row) == Ok::<Option<Timestamp>, RunError>(current),
        decision(current, now) != LeaseDecision::Held,
        feed_of(body) == Ok::<FeedSnapshotView, FeedError>(snapshot),
        reading_of(row) == Ok::<Option<Timestamp>, RunError>(watermark),
        statuses.len() == plan_of(snapshot, watermark).queue.len(),
    ensures
        ({
            let reclaim = decision(current, now) == LeaseDecision::Reclaim;
            let plan = plan_of(snapshot, watermark);
            &&& run_of(
                RunStateView::AwaitingLease,
                whole_script(lease_row, now, reclaim, body, row, statuses),
            ) == (
                RunStateView::Done { outcome: outcome_of(plan.case), results: results_of(statuses) },
                whole_execution(now, reclaim, plan),
            )
            &&& effects(store, whole_execution(now, reclaim, plan)) == (Store {
                lease: None,
                watermark: Some(plan.watermark),
            })
        }),
{
    let reclaim = decision(current, now) == LeaseDecision::Reclaim;
    let plan = plan_of(snapshot, watermark);
    let read = EventView::LeaseRead { row: lease_row, now };
    let done = EventView::StoreDone;
    let fetched = EventView::Fetched(body);
    let extra = if reclaim {
        seq![done]
    } else {
        Seq::<EventView>::empty()
    };
    let rest = script(row, statuses);
    let events = whole_script(lease_row, now, reclaim, body, row, statuses);
    let opening = if reclaim {
        seq![ActionView::DeleteLease]
    } else {
        Seq::<ActionView>::empty()
    };
    let middle = seq![ActionView::WriteLease(now), ActionView::Fetch, ActionView::ReadWatermark];
    let start = RunStateView::AwaitingLease;
    let waiting = RunStateView::AwaitingWatermark { snapshot };

    // the opening: up to the write of the lease
    run_of_one(start, read);
    let (second, first_action) = step_of(start, read);
    assert(run_of(second, extra) == (RunStateView::Claiming, if reclaim {
        seq![ActionView::WriteLease(now)]
    } else {
        Seq::<ActionView>::empty()
    })) by {
        if reclaim {
            run_of_one(second, done);
        }
    }
    // the middle: the lease is written, the document arrives
    run_of_one(RunStateView::Claiming, done);
    run_of_one(RunStateView::Fetching, fetched);
    run_of_concat(RunStateView::Claiming, seq![done], seq![fetched]);
    assert(seq![done] + seq![fetched] =~= seq![done, fetched]);
    // the rest: the plan is carried out
    run_follows_the_plan(snapshot, row, watermark, statuses);

    assert(events =~= seq![read] + (extra + (seq![done, fetched] + rest)));
    run_of_concat(start, seq![read], extra + (seq![done, fetched] + rest));
    run_of_concat(second, extra, seq![done, fetched] + rest);
    run_of_concat(RunStateView::Claiming, seq![done, fetched], rest);
    let wanted = whole_execution(now, reclaim, plan);
    assert(run_of(start, events).1 =~= wanted);

    // what the actions leave in the store
    effects_concat(store, opening + middle, execution(plan));
    executed_plan_in_the_store(effects(store, opening + middle), plan);
}

/// Mutual exclusion. A run that finds a lease acquired less than five
/// minutes ago ends at once as held. It asks for nothing but to stop,
/// whatever is reported to it afterwards, so the store is left exactly as
/// it was.
pub proof fn fresh_lease_ends_the_run(
    store: Store,
    row: Seq<char>,
    acquired_at: Timestamp,
    now: Timestamp,
    later: Seq<EventView>,
)
    requires
        reading_of(Some(row)) == Ok::<Option<Timestamp>, RunError>(Some(acquired_at)),
        now.secs - acquired_at.secs < STALENESS_SECS,
    ensures
        ({
            let (last, actions) = run_of(
                RunStateView::AwaitingLease,
                seq![EventView::LeaseRead { row: Some(row), now }] + later,
            );
            &&& last == RunStateView::Done { outcome: RunOutcome::Held, results: Seq::empty() }
            &&& forall|i: int| 0 <= i < actions.len() ==> actions[i] == ActionView::Stop
            &&& effects(store, actions) == store
        }),
{
    let read = EventView::LeaseRead { row: Some(row), now };
    run_of_concat(RunStateView::AwaitingLease, seq![read], later);
    run_of_one(RunStateView::AwaitingLease, read);
    finished_run_stays_finished(RunOutcome::Held, Seq::empty(), later);
    let actions = run_of(RunStateView::AwaitingLease, seq![read] + later).1;
    stops_change_nothing(store, actions);
}

/// Reclamation. A run that finds a lease acquired more than five minutes
/// ago deletes it, writes a lease of its own dated `now`, and goes on to
/// fetch the feed. The watermark is not touched.
pub proof fn stale_lease_is_taken_over(
    store: Store,
    row: Seq<char>,
    acquired_at: Timestamp,
    now: Timestamp,
)
    requires
        reading_of(Some(row)) == Ok::<Option<Timestamp>, RunError>(Some(acquired_at)),
        now.secs - acquired_at.secs > STALENESS_SECS,
    ensures
        ({
            let (last, actions) = run_of(
                RunStateView::AwaitingLease,
                seq![
                    EventView::LeaseRead { row: Some(row), now },
                    EventView::StoreDone,
                    EventView::StoreDone,
                ],
            );
            &&& last == RunStateView::Fetching
            &&& actions == seq![
                ActionView::DeleteLease,
                ActionView::WriteLease(now),
                ActionView::Fetch,
            ]
            &&& effects(store, actions) == (Store { lease: Some(now), watermark: store.watermark })
        }),
{
    let read = EventView::LeaseRead { row: Some(row), now };
    let done = EventView::StoreDone;
    let wanted = seq![ActionView::DeleteLease, ActionView::WriteLease(now), ActionView::Fetch];
    assert(seq![read] + (seq![done] + seq![done]) =~= seq![read, done, done]);
    run_of_concat(RunStateView::AwaitingLease, seq![read], seq![done] + seq![done]);
    run_of_one(RunStateView::AwaitingLease, read);
    run_of_concat(RunStateView::Reclaiming { now }, seq![done], seq![done]);
    run_of_one(RunStateView::Reclaiming { now }, done);
    run_of_one(RunStateView::Claiming, done);
    assert(seq![ActionView::DeleteLease] + (seq![ActionView::WriteLease(now)] + seq![
        ActionView::Fetch,
    ]) =~= wanted);
    reveal_with_fuel(effects, 4);
    assert(wanted.drop_last() =~= seq![ActionView::DeleteLease, ActionView::WriteLease(now)]);
    assert(wanted.drop_last().drop_last() =~= seq![ActionView::DeleteLease]);
    assert(wanted.drop_last().drop_last().drop_last() =~= Seq::<ActionView>::empty());
}

/// A run that finds no lease writes one dated `now` and goes on to fetch
/// the feed.
pub proof fn absent_lease_is_taken(store: Store, now: Timestamp)
    ensures
        ({
            let (last, actions) = run_of(
                RunStateView::AwaitingLease,
                seq![EventView::LeaseRead { row: None, now }, EventView::StoreDone],
            );
            &&& last == RunStateView::Fetching
            &&& actions == seq![ActionView::WriteLease(now), ActionView::Fetch]
            &&& effects(store, actions) == (Store { lease: Some(now), watermark: store.watermark })
        }),
{
    let read = EventView::LeaseRead { row: None, now };
    let done = EventView::StoreDone;
    let wanted = seq![ActionView::WriteLease(now), ActionView::Fetch];
    assert(seq![read] + seq![done] =~= seq![read, done]);
    run_of_concat(RunStateView::AwaitingLease, seq![read], seq![done]);
    run_of_one(RunStateView::AwaitingLease, read);
    run_of_one(RunStateView::Claiming, done);
    assert(seq![ActionView::WriteLease(now)] + seq![ActionView::Fetch] =~= wanted);
    reveal_with_fuel(effects, 3);
    assert(wanted.drop_last() =~= seq![ActionView::WriteLease(now)]);
    assert(wanted.drop_last().drop_last() =~= Seq::<ActionView>::empty());
}

/// A run whose fetch fails ends there. It asks for nothing but to stop, so
/// its lease stays on record until it is stale.
pub proof fn failed_fetch_keeps_the_lease(store: Store, later: Seq<EventView>)
    ensures
        ({
            let (last, actions) = run_of(
                RunStateView::Fetching,
                seq![EventView::FetchFailed] + later,
            );
            &&& last == RunStateView::Done {
                outcome: RunOutcome::Failed(RunError::Fetch),
                results: Seq::empty(),
            }
            &&& forall|i: int| 0 <= i < actions.len() ==> actions[i] == ActionView::Stop
            &&& effects(store, actions) == store
        }),
{
    let failed = EventView::FetchFailed;
    run_of_concat(RunStateView::Fetching, seq![failed], later);
    run_of_one(RunStateView::Fetching, failed);
    finished_run_stays_finished(RunOutcome::Failed(RunError::Fetch), Seq::empty(), later);
    let actions = run_of(RunStateView::Fetching, seq![failed] + later).1;
    stops_change_nothing(store, actions);
}

/// The action respects the watermark `mark`: it writes no watermark that
/// lies before it, and posts no item that was not published after it.
pub open spec fn respects(action: ActionView, mark: Timestamp) -> bool {
    match action {
        ActionView::WriteWatermark(at) => !at.before(mark),
        ActionView::Publish(item) => mark.before(item.published_at),
        _ => true,
    }
}

/// The state has the lookup of the watermark behind it, and holds nothing
/// that does not respect `mark`.
pub open spec fn past_lookup(state: RunStateView, mark: Timestamp) -> bool {
    match state {
        RunStateView::Publishing { queue, watermark, .. } => {
            &&& !watermark.before(mark)
            &&& forall|i: int| 0 <= i < queue.len() ==> mark.before((#[trigger] queue[i]).published_at)
        },
        RunStateView::Recording { .. } => true,
        RunStateView::Releasing { .. } => true,
        RunStateView::Done { .. } => true,
        _ => false,
    }
}

proof fn mark_is_respected_from(state: RunStateView, mark: Timestamp, events: Seq<EventView>)
    requires
        past_lookup(state, mark),
    ensures
        run_of(state, events).1.len() == events.len(),
        forall|i: int|
            0 <= i < events.len() ==> respects(#[trigger] run_of(state, events).1[i], mark),
    decreases events.len(),
{
    if events.len() > 0 {
        let (next, action) = step_of(state, events.first());
        mark_is_respected_from(next, mark, events.drop_first());
        let rest = run_of(next, events.drop_first()).1;
        let actions = run_of(state, events).1;
        assert(actions == seq![action] + rest);
        assert forall|i: int| 0 <= i < events.len() implies respects(#[trigger] actions[i], mark) by {
            if i > 0 {
                assert(actions[i] == rest[i - 1]);
            }
        }
    }
}

/// The watermark is respected throughout. Whatever a run is told after it
/// has read the watermark, it never asks to have an earlier watermark
/// written, and it never posts an item that was published at the watermark
/// or before it, however far the build time has moved.
pub proof fn watermark_is_respected(
    snapshot: FeedSnapshotView,
    row: Seq<char>,
    mark: Timestamp,
    later: Seq<EventView>,
)
    requires
        reading_of(Some(row)) == Ok::<Option<Timestamp>, RunError>(Some(mark)),
    ensures
        ({
            let actions = run_of(
                RunStateView::AwaitingWatermark { snapshot },
                seq![EventView::WatermarkRead(Some(row))] + later,
            ).1;
            forall|i: int| 0 <= i < actions.len() ==> respects(#[trigger] actions[i], mark)
        }),
{
    let start = RunStateView::AwaitingWatermark { snapshot };
    let read = EventView::WatermarkRead(Some(row));
    selection_excludes_boundary(snapshot.items, mark);
    run_of_concat(start, seq![read], later);
    run_of_one(start, read);
    let (next, action) = step_of(start, read);
    mark_is_respected_from(next, mark, later);
    let rest = run_of(next, later).1;
    let actions = run_of(start, seq![read] + later).1;
    assert(actions == seq![action] + rest);
    assert forall|i: int| 0 <= i < actions.len() implies respects(#[trigger] actions[i], mark) by {
        if i > 0 {
            assert(actions[i] == rest[i - 1]);
        }
    }
}

/// A run over a snapshot that lists three new items newest first, built
/// after the watermark: the three are posted oldest first, whatever the
/// endpoint answers, and the build time becomes the watermark.
pub proof fn newest_first_run_posts_oldest_first(
    newest: FeedItemView,
    middle: FeedItemView,
    oldest: FeedItemView,
    build_timestamp: Timestamp,
    row: Seq<char>,
    watermark: Timestamp,
    statuses: Seq<u16>,
)
    requires
        reading_of(Some(row)) == Ok::<Option<Timestamp>, RunError>(Some(watermark)),
        watermark.before(oldest.published_at),
        oldest.published_at.before(middle.published_at),
        middle.published_at.before(newest.published_at),
        watermark.before(build_timestamp),
        statuses.len() == 3,
    ensures
        run_of(
            RunStateView::AwaitingWatermark {
                snapshot: FeedSnapshotView { items: seq![newest, middle, oldest], build_timestamp },
            },
            script(Some(row), statuses),
        ) == (
            RunStateView::Done { outcome: RunOutcome::Advanced, results: results_of(statuses) },
            seq![
                ActionView::Publish(oldest),
                ActionView::Publish(middle),
                ActionView::Publish(newest),
                ActionView::WriteWatermark(build_timestamp),
                ActionView::DeleteLease,
                ActionView::Stop,
            ],
        ),
{
    let snapshot = FeedSnapshotView { items: seq![newest, middle, oldest], build_timestamp };
    newest_first_goes_out_oldest_first(newest, middle, oldest, watermark);
    advancing_run_posts_the_selection(snapshot, row, watermark, statuses);
    assert(posts(seq![oldest, middle, newest]) + seq![
        ActionView::WriteWatermark(build_timestamp),
        ActionView::DeleteLease,
        ActionView::Stop,
    ] =~= seq![
        ActionView::Publish(oldest),
        ActionView::Publish(middle),
        ActionView::Publish(newest),
        ActionView::WriteWatermark(build_timestamp),
        ActionView::DeleteLease,
        ActionView::Stop,
    ]);
}

} // verus!
