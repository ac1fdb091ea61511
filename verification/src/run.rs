//! One run of the synchroniser, as a state machine. The machine decides;
//! whoever drives it does the work it asks for (reads the store, fetches
//! the feed, posts an item) and hands back what happened.

use crate::feed::{
    feed_of, item_views, parse_feed, text_of, FeedError, FeedItem, FeedItemView, FeedSnapshot,
    FeedSnapshotView,
};
use crate::lease::{decision, try_acquire, LeaseDecision};
use crate::publish::{classify, result_of, PublishResult};
use crate::reconcile::{plan_of, reconcile, SyncCase, SyncPlanView};
use crate::timestamp::{parsed, Timestamp};
use vstd::prelude::*;

verus! {

/// Why a run failed.
#[derive(Clone, Copy, Debug, PartialEq, Eq, Structural)]
pub enum RunError {
    /// The store refused a lookup, a write or a delete.
    Store,
    /// The feed could not be fetched, or what came back is no feed.
    Fetch,
    /// A timestamp of the feed or of the store is missing or malformed.
    DateParse,
    /// The posting endpoint gave no answer at all. An answer with a status
    /// other than 200 is no error.
    Publish,
    /// The event handed in does not answer what the machine asked for.
    Protocol,
}

/// How a run ended.
#[derive(Clone, Copy, Debug, PartialEq, Eq, Structural)]
pub enum RunOutcome {
    /// Another run holds the lease. Nothing was touched.
    Held,
    /// First run ever: the watermark was set, nothing was published.
    Bootstrapped,
    /// The feed was not rebuilt: the watermark was written again.
    Unchanged,
    /// The new items were handed to the endpoint and the watermark moved.
    Advanced,
    /// The run stopped where the error arose. A lease that it had taken is
    /// left on record and lapses by itself.
    Failed(RunError),
}

/// What the machine asks its driver to do next.
#[derive(Debug, PartialEq, Eq)]
pub enum Action {
    /// Look up the lease record and read the clock.
    ReadLease,
    /// Delete the lease record, whether or not there is one.
    DeleteLease,
    /// Write a lease record acquired at the given time.
    WriteLease(Timestamp),
    /// Fetch the feed document.
    Fetch,
    /// Look up the watermark record.
    ReadWatermark,
    /// Post the item to the endpoint.
    Publish(FeedItem),
    /// Write the watermark, whether or not there was one before.
    WriteWatermark(Timestamp),
    /// Nothing is left to do.
    Stop,
}

/// What the driver reports back.
#[derive(Debug, PartialEq, Eq)]
pub enum Event {
    /// The lease lookup went through: the acquisition time as the store
    /// holds it, if there is a record, and the time of the lookup.
    LeaseRead { row: Option<String>, now: Timestamp },
    /// The write or delete went through.
    StoreDone,
    /// The store refused the operation.
    StoreFailed,
    /// The body of the fetched document.
    Fetched(Vec<u8>),
    /// The document could not be fetched.
    FetchFailed,
    /// The watermark lookup went through: the value as the store holds it,
    /// if there is one.
    WatermarkRead(Option<String>),
    /// The endpoint answered with this status.
    Published(u16),
    /// The endpoint could not be reached.
    PublishFailed,
}

/// Where a run stands. Each state but the last waits for the answer to the
/// action that led to it.
#[derive(Debug, PartialEq, Eq)]
pub enum RunState {
    /// The lease lookup is under way.
    AwaitingLease,
    /// The stale lease is being deleted.
    Reclaiming { now: Timestamp },
    /// The lease of this run is being written.
    Claiming,
    /// The feed is being fetched.
    Fetching,
    /// The watermark lookup is under way.
    AwaitingWatermark { snapshot: FeedSnapshot },
    /// The item of `queue` at position `results.len()` is being posted.
    Publishing { queue: Vec<FeedItem>, results: Vec<PublishResult>, watermark: Timestamp },
    /// The watermark is being written.
    Recording { outcome: RunOutcome, results: Vec<PublishResult> },
    /// The lease is being released.
    Releasing { outcome: RunOutcome, results: Vec<PublishResult> },
    /// The run is over. `results` holds how each attempted post ended, in
    /// publish order.
    Done { outcome: RunOutcome, results: Vec<PublishResult> },
}

/// An action as plain values.
pub enum ActionView {
    ReadLease,
    DeleteLease,
    WriteLease(Timestamp),
    Fetch,
    ReadWatermark,
    Publish(FeedItemView),
    WriteWatermark(Timestamp),
    Stop,
}

/// An event as plain values.
pub enum EventView {
    LeaseRead { row: Option<Seq<char>>, now: Timestamp },
    StoreDone,
    StoreFailed,
    Fetched(Seq<u8>),
    FetchFailed,
    WatermarkRead(Option<Seq<char>>),
    Published(u16),
    PublishFailed,
}

/// A state as plain values.
pub enum RunStateView {
    AwaitingLease,
    Reclaiming { now: Timestamp },
    Claiming,
    Fetching,
    AwaitingWatermark { snapshot: FeedSnapshotView },
    Publishing { queue: Seq<FeedItemView>, results: Seq<PublishResult>, watermark: Timestamp },
    Recording { outcome: RunOutcome, results: Seq<PublishResult> },
    Releasing { outcome: RunOutcome, results: Seq<PublishResult> },
    Done { outcome: RunOutcome, results: Seq<PublishResult> },
}

impl View for Action {
    type V = ActionView;

    open spec fn view(&self) -> ActionView {
        match *self {
            Action::ReadLease => ActionView::ReadLease,
            Action::DeleteLease => ActionView::DeleteLease,
            Action::WriteLease(at) => ActionView::WriteLease(at),
            Action::Fetch => ActionView::Fetch,
            Action::ReadWatermark => ActionView::ReadWatermark,
            Action::Publish(item) => ActionView::Publish(item@),
            Action::WriteWatermark(at) => ActionView::WriteWatermark(at),
            Action::Stop => ActionView::Stop,
        }
    }
}

impl View for Event {
    type V = EventView;

    open spec fn view(&self) -> EventView {
        match *self {
            Event::LeaseRead { row, now } => EventView::LeaseRead { row: text_of(row), now },
            Event::StoreDone => EventView::StoreDone,
            Event::StoreFailed => EventView::StoreFailed,
            Event::Fetched(body) => EventView::Fetched(body@),
            Event::FetchFailed => EventView::FetchFailed,
            Event::WatermarkRead(row) => EventView::WatermarkRead(text_of(row)),
            Event::Published(status) => EventView::Published(status),
            Event::PublishFailed => EventView::PublishFailed,
        }
    }
}

impl View for RunState {
    type V = RunStateView;

    open spec fn view(&self) -> RunStateView {
        match *self {
            RunState::AwaitingLease => RunStateView::AwaitingLease,
            RunState::Reclaiming { now } => RunStateView::Reclaiming { now },
            RunState::Claiming => RunStateView::Claiming,
            RunState::Fetching => RunStateView::Fetching,
            RunState::AwaitingWatermark { snapshot } => RunStateView::AwaitingWatermark {
                snapshot: snapshot@,
            },
            RunState::Publishing { queue, results, watermark } => RunStateView::Publishing {
                queue: item_views(queue@),
                results: results@,
                watermark,
            },
            RunState::Recording { outcome, results } => RunStateView::Recording {
                outcome,
                results: results@,
            },
            RunState::Releasing { outcome, results } => RunStateView::Releasing {
                outcome,
                results: results@,
            },
            RunState::Done { outcome, results } => RunStateView::Done { outcome, results: results@ },
        }
    }
}

/// The run error that a feed error counts as: a bad date is a date error,
/// everything else a fetch error.
pub open spec fn run_error_of(e: FeedError) -> RunError {
    match e {
        FeedError::BadDate => RunError::DateParse,
        _ => RunError::Fetch,
    }
}

/// The outcome that goes with a case of the plan.
pub open spec fn outcome_of(case: SyncCase) -> RunOutcome {
    match case {
        SyncCase::Bootstrap => RunOutcome::Bootstrapped,
        SyncCase::NoChange => RunOutcome::Unchanged,
        SyncCase::Advance => RunOutcome::Advanced,
    }
}

/// What a stored timestamp says: nothing where there is no record, an
/// error where the record is not in the accepted layout.
pub open spec fn reading_of(row: Option<Seq<char>>) -> Result<Option<Timestamp>, RunError> {
    match row {
        None => Ok(None),
        Some(text) => match parsed(text) {
            Some(at) => Ok(Some(at)),
            None => Err(RunError::DateParse),
        },
    }
}

/// The run ends here.
pub open spec fn ended(outcome: RunOutcome, results: Seq<PublishResult>) -> (
    RunStateView,
    ActionView,
) {
    (RunStateView::Done { outcome, results }, ActionView::Stop)
}

/// The start of the plan's execution: the first post, or, with nothing to
/// post, the write of the watermark.
pub open spec fn begun(plan: SyncPlanView) -> (RunStateView, ActionView) {
    if plan.queue.len() > 0 {
        (
            RunStateView::Publishing {
                queue: plan.queue,
                results: Seq::empty(),
                watermark: plan.watermark,
            },
            ActionView::Publish(plan.queue[0]),
        )
    } else {
        (
            RunStateView::Recording { outcome: outcome_of(plan.case), results: Seq::empty() },
            ActionView::WriteWatermark(plan.watermark),
        )
    }
}

/// The first state of every run, and the first thing it asks for.
pub open spec fn started() -> (RunStateView, ActionView) {
    (RunStateView::AwaitingLease, ActionView::ReadLease)
}

/// The transition function: the state that follows `state` on `event`,
/// and what the machine asks for next.
pub open spec fn step_of(state: RunStateView, event: EventView) -> (RunStateView, ActionView) {
    match state {
        RunStateView::AwaitingLease => match event {
            EventView::LeaseRead { row, now } => match reading_of(row) {
                Err(e) => ended(RunOutcome::Failed(e), Seq::empty()),
                Ok(current) => match decision(current, now) {
                    LeaseDecision::Claim => (RunStateView::Claiming, ActionView::WriteLease(now)),
                    LeaseDecision::Reclaim => (
                        RunStateView::Reclaiming { now },
                        ActionView::DeleteLease,
                    ),
                    LeaseDecision::Held => ended(RunOutcome::Held, Seq::empty()),
                },
            },
            EventView::StoreFailed => ended(RunOutcome::Failed(RunError::Store), Seq::empty()),
            _ => ended(RunOutcome::Failed(RunError::Protocol), Seq::empty()),
        },
        RunStateView::Reclaiming { now } => match event {
            EventView::StoreDone => (RunStateView::Claiming, ActionView::WriteLease(now)),
            EventView::StoreFailed => ended(RunOutcome::Failed(RunError::Store), Seq::empty()),
            _ => ended(RunOutcome::Failed(RunError::Protocol), Seq::empty()),
        },
        RunStateView::Claiming => match event {
            EventView::StoreDone => (RunStateView::Fetching, ActionView::Fetch),
            EventView::StoreFailed => ended(RunOutcome::Failed(RunError::Store), Seq::empty()),
            _ => ended(RunOutcome::Failed(RunError::Protocol), Seq::empty()),
        },
        RunStateView::Fetching => match event {
            EventView::Fetched(body) => match feed_of(body) {
                Ok(snapshot) => (
                    RunStateView::AwaitingWatermark { snapshot },
                    ActionView::ReadWatermark,
                ),
                Err(e) => ended(RunOutcome::Failed(run_error_of(e)), Seq::empty()),
            },
            EventView::FetchFailed => ended(RunOutcome::Failed(RunError::Fetch), Seq::empty()),
            _ => ended(RunOutcome::Failed(RunError::Protocol), Seq::empty()),
        },
        RunStateView::AwaitingWatermark { snapshot } => match event {
            EventView::WatermarkRead(row) => match reading_of(row) {
                Err(e) => ended(RunOutcome::Failed(e), Seq::empty()),
                Ok(watermark) => begun(plan_of(snapshot, watermark)),
            },
            EventView::StoreFailed => ended(RunOutcome::Failed(RunError::Store), Seq::empty()),
            _ => ended(RunOutcome::Failed(RunError::Protocol), Seq::empty()),
        },
        RunStateView::Publishing { queue, results, watermark } => match event {
            EventView::Published(status) => {
                let results = results.push(result_of(status));
                if results.len() < queue.len() {
                    (
                        RunStateView::Publishing { queue, results, watermark },
                        ActionView::Publish(queue[results.len() as int]),
                    )
                } else {
                    (
                        RunStateView::Recording { outcome: RunOutcome::Advanced, results },
                        ActionView::WriteWatermark(watermark),
                    )
                }
            },
            EventView::PublishFailed => ended(RunOutcome::Failed(RunError::Publish), results),
            _ => ended(RunOutcome::Failed(RunError::Protocol), results),
        },
        RunStateView::Recording { outcome, results } => match event {
            EventView::StoreDone => (
                RunStateView::Releasing { outcome, results },
                ActionView::DeleteLease,
            ),
            EventView::StoreFailed => ended(RunOutcome::Failed(RunError::Store), results),
            _ => ended(RunOutcome::Failed(RunError::Protocol), results),
        },
        RunStateView::Releasing { outcome, results } => match event {
            EventView::StoreDone => ended(outcome, results),
            EventView::StoreFailed => ended(RunOutcome::Failed(RunError::Store), results),
            _ => ended(RunOutcome::Failed(RunError::Protocol), results),
        },
        RunStateView::Done { outcome, results } => ended(outcome, results),
    }
}

/// Reads a timestamp as the store holds it.
pub fn read_timestamp(row: &Option<String>) -> (r: Result<Option<Timestamp>, RunError>)
    ensures
        r == reading_of(text_of(*row)),
{
    match row {
        None => Ok(None),
        Some(text) => match Timestamp::parse(text.as_str()) {
            Some(at) => Ok(Some(at)),
            None => Err(RunError::DateParse),
        },
    }
}

/// The run error that a feed error counts as.
pub fn run_error(e: FeedError) -> (r: RunError)
    ensures
        r == run_error_of(e),
{
    match e {
        FeedError::BadDate => RunError::DateParse,
        _ => RunError::Fetch,
    }
}

/// The outcome that goes with a case of the plan.
pub fn outcome(case: SyncCase) -> (r: RunOutcome)
    ensures
        r == outcome_of(case),
{
    match case {
        SyncCase::Bootstrap => RunOutcome::Bootstrapped,
        SyncCase::NoChange => RunOutcome::Unchanged,
        SyncCase::Advance => RunOutcome::Advanced,
    }
}

/// Ends the run with an outcome and the results noted so far.
fn end(outcome: RunOutcome, results: Vec<PublishResult>) -> (r: (RunState, Action))
    ensures
        (r.0@, r.1@) == ended(outcome, results@),
{
    (RunState::Done { outcome, results }, Action::Stop)
}

/// Ends a run that has posted nothing with an error.
fn fail(error: RunError) -> (r: (RunState, Action))
    ensures
        (r.0@, r.1@) == ended(RunOutcome::Failed(error), Seq::empty()),
{
    end(RunOutcome::Failed(error), Vec::new())
}

impl Event {
    /// The report of a lease lookup, stamped with the time of the clock,
    /// which is never a leap second.
    pub fn lease_read(row: Option<String>) -> (e: Event)
        ensures
            e matches Event::LeaseRead { row: kept, now } && kept == row && !now.is_leap(),
    {
        Event::LeaseRead { row, now: Timestamp::now() }
    }
}

impl RunState {
    /// The outcome of a run that is over; none while it is under way.
    pub open spec fn finished_with(self) -> Option<RunOutcome> {
        match self {
            RunState::Done { outcome, .. } => Some(outcome),
            _ => None,
        }
    }

    /// How the run ended, once it has.
    pub fn outcome(&self) -> (r: Option<RunOutcome>)
        ensures
            r == self.finished_with(),
            r is Some <==> self@ is Done,
    {
        match self {
            RunState::Done { outcome, .. } => Some(*outcome),
            _ => None,
        }
    }

    /// Begins a run: the first state, and the first thing to do.
    pub fn start() -> (r: (RunState, Action))
        ensures
            (r.0@, r.1@) == started(),
    {
        (RunState::AwaitingLease, Action::ReadLease)
    }

    /// Moves the run on by one event: the state that follows, and what to
    /// do next.
    pub fn step(self, event: Event) -> (r: (RunState, Action))
        ensures
            (r.0@, r.1@) == step_of(self@, event@),
    {
        match self {
            RunState::AwaitingLease => match event {
                Event::LeaseRead { row, now } => on_lease_read(&row, now),
                Event::StoreFailed => fail(RunError::Store),
                _ => fail(RunError::Protocol),
            },
            RunState::Reclaiming { now } => match event {
                Event::StoreDone => (RunState::Claiming, Action::WriteLease(now)),
                Event::StoreFailed => fail(RunError::Store),
                _ => fail(RunError::Protocol),
            },
            RunState::Claiming => match event {
                Event::StoreDone => (RunState::Fetching, Action::Fetch),
                Event::StoreFailed => fail(RunError::Store),
                _ => fail(RunError::Protocol),
            },
            RunState::Fetching => match event {
                Event::Fetched(body) => on_fetched(&body),
                Event::FetchFailed => fail(RunError::Fetch),
                _ => fail(RunError::Protocol),
            },
            RunState::AwaitingWatermark { snapshot } => match event {
                Event::WatermarkRead(row) => on_watermark_read(&snapshot, &row),
                Event::StoreFailed => fail(RunError::Store),
                _ => fail(RunError::Protocol),
            },
            RunState::Publishing { queue, results, watermark } => match event {
                Event::Published(status) => on_published(queue, results, watermark, status),
                Event::PublishFailed => end(RunOutcome::Failed(RunError::Publish), results),
                _ => end(RunOutcome::Failed(RunError::Protocol), results),
            },
            RunState::Recording { outcome, results } => match event {
                Event::StoreDone => (RunState::Releasing { outcome, results }, Action::DeleteLease),
                Event::StoreFailed => end(RunOutcome::Failed(RunError::Store), results),
                _ => end(RunOutcome::Failed(RunError::Protocol), results),
            },
            RunState::Releasing { outcome, results } => match event {
                Event::StoreDone => end(outcome, results),
                Event::StoreFailed => end(RunOutcome::Failed(RunError::Store), results),
                _ => end(RunOutcome::Failed(RunError::Protocol), results),
            },
            RunState::Done { outcome, results } => end(outcome, results),
        }
    }
}

/// The lease lookup has answered: take the lease, take it over, or end.
pub fn on_lease_read(row: &Option<String>, now: Timestamp) -> (r: (RunState, Action))
    ensures
        (r.0@, r.1@) == step_of(
            RunStateView::AwaitingLease,
            EventView::LeaseRead { row: text_of(*row), now },
        ),
{
    match read_timestamp(row) {
        Err(e) => fail(e),
        Ok(current) => match try_acquire(current, now) {
            LeaseDecision::Claim => (RunState::Claiming, Action::WriteLease(now)),
            LeaseDecision::Reclaim => (RunState::Reclaiming { now }, Action::DeleteLease),
            LeaseDecision::Held => end(RunOutcome::Held, Vec::new()),
        },
    }
}

/// The document has arrived: make a snapshot of it, or end.
pub fn on_fetched(body: &Vec<u8>) -> (r: (RunState, Action))
    ensures
        (r.0@, r.1@) == step_of(RunStateView::Fetching, EventView::Fetched(body@)),
{
    match parse_feed(body.as_slice()) {
        Ok(snapshot) => (RunState::AwaitingWatermark { snapshot }, Action::ReadWatermark),
        Err(e) => fail(run_error(e)),
    }
}

/// The watermark lookup has answered: plan the run and begin it.
pub fn on_watermark_read(snapshot: &FeedSnapshot, row: &Option<String>) -> (r: (RunState, Action))
    ensures
        (r.0@, r.1@) == step_of(
            RunStateView::AwaitingWatermark { snapshot: snapshot@ },
            EventView::WatermarkRead(text_of(*row)),
        ),
{
    match read_timestamp(row) {
        Err(e) => fail(e),
        Ok(watermark) => {
            let plan = reconcile(snapshot, watermark);
            if plan.queue.len() > 0 {
                let first = plan.queue[0].clone();
                (
                    RunState::Publishing {
                        queue: plan.queue,
                        results: Vec::new(),
                        watermark: plan.watermark,
                    },
                    Action::Publish(first),
                )
            } else {
                (
                    RunState::Recording { outcome: outcome(plan.case), results: Vec::new() },
                    Action::WriteWatermark(plan.watermark),
                )
            }
        },
    }
}

/// The endpoint has answered for one item: note the result, then post the
/// next item or, after the last, write the watermark. No answer stops the
/// batch.
pub fn on_published(
    queue: Vec<FeedItem>,
    results: Vec<PublishResult>,
    watermark: Timestamp,
    status: u16,
) -> (r: (RunState, Action))
    ensures
        (r.0@, r.1@) == step_of(
            RunStateView::Publishing { queue: item_views(queue@), results: results@, watermark },
            EventView::Published(status),
        ),
{
    let mut results = results;
    results.push(classify(status));
    if results.len() < queue.len() {
        let next = queue[results.len()].clone();
        (RunState::Publishing { queue, results, watermark }, Action::Publish(next))
    } else {
        (
            RunState::Recording { outcome: RunOutcome::Advanced, results },
            Action::WriteWatermark(watermark),
        )
    }
}

} // verus!
