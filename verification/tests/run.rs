use newspenguin_rss::feed::{FeedItem, FeedSnapshot};
use newspenguin_rss::publish::PublishResult;
use newspenguin_rss::run::{
    on_fetched, on_lease_read, on_published, on_watermark_read, outcome, read_timestamp,
    run_error, Action, Event, RunError, RunOutcome, RunState,
};
use newspenguin_rss::feed::FeedError;
use newspenguin_rss::reconcile::SyncCase;
use newspenguin_rss::timestamp::Timestamp;

fn at(text: &str) -> Timestamp {
    Timestamp::parse(text).unwrap()
}

fn item(title: &str, published: &str) -> FeedItem {
    FeedItem {
        title: String::from(title),
        description: String::from("words"),
        link: format!("https://example.org/{}", title),
        published: String::from(published),
        published_at: at(published),
    }
}

fn document(build: &str, items: &[(&str, &str)]) -> Vec<u8> {
    let mut xml = String::from("<rss version=\"2.0\"><channel><title>News</title>");
    xml.push_str(&format!("<lastBuildDate>{}</lastBuildDate>", build));
    for (title, date) in items {
        xml.push_str(&format!(
            "<item><title>{}</title><description>words</description>\
             <link>https://example.org/{}</link><pubDate>{}</pubDate></item>",
            title, title, date
        ));
    }
    xml.push_str("</channel></rss>");
    xml.into_bytes()
}

/// The store, the feed and the endpoint of a test, all in memory.
struct World {
    lease: Option<String>,
    watermark: Option<String>,
    now: Timestamp,
    feed: Option<Vec<u8>>,
    statuses: Vec<u16>,
    posted: Vec<String>,
    log: Vec<String>,
    store_fails_at: Option<usize>,
    store_calls: usize,
}

impl World {
    fn new(now: &str) -> World {
        World {
            lease: None,
            watermark: None,
            now: at(now),
            feed: None,
            statuses: Vec::new(),
            posted: Vec::new(),
            log: Vec::new(),
            store_fails_at: None,
            store_calls: 0,
        }
    }

    fn store(&mut self) -> bool {
        self.store_calls += 1;
        self.store_fails_at != Some(self.store_calls)
    }

    fn perform(&mut self, action: Action) -> Option<Event> {
        match action {
            Action::ReadLease => {
                self.log.push(String::from("read lease"));
                if !self.store() {
                    return Some(Event::StoreFailed);
                }
                Some(Event::LeaseRead { row: self.lease.clone(), now: self.now })
            }
            Action::DeleteLease => {
                self.log.push(String::from("delete lease"));
                if !self.store() {
                    return Some(Event::StoreFailed);
                }
                self.lease = None;
                Some(Event::StoreDone)
            }
            Action::WriteLease(acquired_at) => {
                self.log.push(String::from("write lease"));
                if !self.store() {
                    return Some(Event::StoreFailed);
                }
                self.lease = Some(acquired_at.to_text().unwrap());
                Some(Event::StoreDone)
            }
            Action::Fetch => {
                self.log.push(String::from("fetch"));
                match &self.feed {
                    Some(body) => Some(Event::Fetched(body.clone())),
                    None => Some(Event::FetchFailed),
                }
            }
            Action::ReadWatermark => {
                self.log.push(String::from("read watermark"));
                if !self.store() {
                    return Some(Event::StoreFailed);
                }
                Some(Event::WatermarkRead(self.watermark.clone()))
            }
            Action::Publish(item) => {
                self.log.push(format!("publish {}", item.title));
                let status = if self.posted.len() < self.statuses.len() {
                    self.statuses[self.posted.len()]
                } else {
                    200
                };
                self.posted.push(item.title);
                if status == 0 {
                    Some(Event::PublishFailed)
                } else {
                    Some(Event::Published(status))
                }
            }
            Action::WriteWatermark(value) => {
                self.log.push(String::from("write watermark"));
                if !self.store() {
                    return Some(Event::StoreFailed);
                }
                self.watermark = Some(value.to_text().unwrap());
                Some(Event::StoreDone)
            }
            Action::Stop => None,
        }
    }

    fn run(&mut self) -> (RunOutcome, Vec<PublishResult>) {
        let (mut state, mut action) = RunState::start();
        let mut steps = 0;
        while let Some(event) = self.perform(action) {
            let (next, then) = state.step(event);
            state = next;
            action = then;
            steps += 1;
            assert!(steps < 1000);
        }
        match state {
            RunState::Done { outcome, results } => (outcome, results),
            other => panic!("stopped in {:?}", other),
        }
    }
}

fn log(entries: &[&str]) -> Vec<String> {
    entries.iter().map(|s| String::from(*s)).collect()
}

const T0: &str = "2024-01-01 00:00:00";
const T1: &str = "2024-01-01 01:00:00";
const T2: &str = "2024-01-01 02:00:00";
const T3: &str = "2024-01-01 03:00:00";
const T4: &str = "2024-01-01 04:00:00";
const T5: &str = "2024-01-01 05:00:00";
const NOW: &str = "2024-01-01 06:00:00";

#[test]
fn run_begins_with_the_lease_lookup() {
    let (state, action) = RunState::start();
    assert_eq!(state, RunState::AwaitingLease);
    assert_eq!(action, Action::ReadLease);
    assert_eq!(state.outcome(), None);
}

#[test]
fn bootstrap_run() {
    let mut world = World::new(NOW);
    world.feed = Some(document(T0, &[("two", T2), ("one", T1)]));
    let (outcome, results) = world.run();
    assert_eq!(outcome, RunOutcome::Bootstrapped);
    assert!(results.is_empty());
    assert!(world.posted.is_empty());
    assert_eq!(world.watermark, Some(String::from(T0)));
    assert_eq!(world.lease, None);
    assert_eq!(
        world.log,
        log(&["read lease", "write lease", "fetch", "read watermark", "write watermark", "delete lease"])
    );
}

#[test]
fn unchanged_run() {
    let mut world = World::new(NOW);
    world.watermark = Some(String::from(T0));
    world.feed = Some(document(T0, &[("two", T2), ("one", T1)]));
    let (outcome, results) = world.run();
    assert_eq!(outcome, RunOutcome::Unchanged);
    assert!(results.is_empty());
    assert!(world.posted.is_empty());
    assert_eq!(world.watermark, Some(String::from(T0)));
    assert_eq!(world.lease, None);
    assert_eq!(
        world.log,
        log(&["read lease", "write lease", "fetch", "read watermark", "write watermark", "delete lease"])
    );
}

#[test]
fn run_over_a_feed_built_before_the_watermark_does_not_move_it_back() {
    let mut world = World::new(NOW);
    world.watermark = Some(String::from(T3));
    world.feed = Some(document(T1, &[("four", T4)]));
    let (outcome, _) = world.run();
    assert_eq!(outcome, RunOutcome::Unchanged);
    assert!(world.posted.is_empty());
    assert_eq!(world.watermark, Some(String::from(T3)));
}

#[test]
fn advancing_run_posts_oldest_first() {
    let mut world = World::new(NOW);
    world.watermark = Some(String::from(T1));
    world.feed = Some(document(T5, &[("four", T4), ("three", T3), ("two", T2)]));
    let (outcome, results) = world.run();
    assert_eq!(outcome, RunOutcome::Advanced);
    assert_eq!(world.posted, log(&["two", "three", "four"]));
    assert_eq!(results, vec![PublishResult::Success; 3]);
    assert_eq!(world.watermark, Some(String::from(T5)));
    assert_eq!(world.lease, None);
    assert_eq!(
        world.log,
        log(&[
            "read lease",
            "write lease",
            "fetch",
            "read watermark",
            "publish two",
            "publish three",
            "publish four",
            "write watermark",
            "delete lease",
        ])
    );
}

#[test]
fn advancing_run_skips_the_item_at_the_watermark() {
    let mut world = World::new(NOW);
    world.watermark = Some(String::from(T2));
    world.feed = Some(document(T5, &[("three", T3), ("two", T2), ("one", T1)]));
    let (outcome, _) = world.run();
    assert_eq!(outcome, RunOutcome::Advanced);
    assert_eq!(world.posted, log(&["three"]));
    assert_eq!(world.watermark, Some(String::from(T5)));
}

#[test]
fn failed_post_does_not_stop_the_batch() {
    let mut world = World::new(NOW);
    world.watermark = Some(String::from(T1));
    world.feed = Some(document(T5, &[("three", T3), ("two", T2)]));
    world.statuses = vec![500, 200];
    let (outcome, results) = world.run();
    assert_eq!(outcome, RunOutcome::Advanced);
    assert_eq!(world.posted, log(&["two", "three"]));
    assert_eq!(results, vec![PublishResult::Failure, PublishResult::Success]);
    assert_eq!(world.watermark, Some(String::from(T5)));
    assert_eq!(world.lease, None);
}

#[test]
fn batch_in_which_every_post_fails_still_moves_the_watermark() {
    let mut world = World::new(NOW);
    world.watermark = Some(String::from(T1));
    world.feed = Some(document(T5, &[("three", T3), ("two", T2)]));
    world.statuses = vec![403, 201];
    let (outcome, results) = world.run();
    assert_eq!(outcome, RunOutcome::Advanced);
    assert_eq!(results, vec![PublishResult::Failure, PublishResult::Failure]);
    assert_eq!(world.watermark, Some(String::from(T5)));
}

#[test]
fn second_run_posts_nothing_again() {
    let mut world = World::new(NOW);
    world.watermark = Some(String::from(T1));
    world.feed = Some(document(T5, &[("three", T3), ("two", T2)]));
    world.run();
    assert_eq!(world.posted.len(), 2);
    let (outcome, _) = world.run();
    assert_eq!(outcome, RunOutcome::Unchanged);
    assert_eq!(world.posted.len(), 2);
    assert_eq!(world.watermark, Some(String::from(T5)));
}

#[test]
fn fresh_lease_ends_the_run_and_nothing_is_touched() {
    let mut world = World::new(NOW);
    world.lease = Some(String::from("2024-01-01 05:56:00"));
    world.watermark = Some(String::from(T1));
    world.feed = Some(document(T5, &[("two", T2)]));
    let (outcome, results) = world.run();
    assert_eq!(outcome, RunOutcome::Held);
    assert!(results.is_empty());
    assert_eq!(world.log, log(&["read lease"]));
    assert_eq!(world.lease, Some(String::from("2024-01-01 05:56:00")));
    assert_eq!(world.watermark, Some(String::from(T1)));
    assert!(world.posted.is_empty());
}

#[test]
fn stale_lease_is_deleted_and_written_anew() {
    let mut world = World::new(NOW);
    world.lease = Some(String::from("2024-01-01 05:54:00"));
    world.watermark = Some(String::from(T1));
    world.statuses = vec![0];
    world.feed = Some(document(T5, &[("two", T2)]));
    let (outcome, _) = world.run();
    assert_eq!(outcome, RunOutcome::Failed(RunError::Publish));
    assert_eq!(
        world.log,
        log(&["read lease", "delete lease", "write lease", "fetch", "read watermark", "publish two"])
    );
    assert_eq!(world.lease, Some(String::from(NOW)));
    assert_eq!(world.watermark, Some(String::from(T1)));
}

#[test]
fn lease_of_exactly_five_minutes_is_still_honoured() {
    let mut world = World::new(NOW);
    world.lease = Some(String::from("2024-01-01 05:55:00"));
    let (outcome, _) = world.run();
    assert_eq!(outcome, RunOutcome::Held);
}

#[test]
fn failed_fetch_leaves_the_lease() {
    let mut world = World::new(NOW);
    world.watermark = Some(String::from(T1));
    let (outcome, _) = world.run();
    assert_eq!(outcome, RunOutcome::Failed(RunError::Fetch));
    assert_eq!(world.log, log(&["read lease", "write lease", "fetch"]));
    assert_eq!(world.lease, Some(String::from(NOW)));
    assert_eq!(world.watermark, Some(String::from(T1)));
}

#[test]
fn document_that_is_no_feed_fails_the_run() {
    let mut world = World::new(NOW);
    world.feed = Some(b"<html/>".to_vec());
    let (outcome, _) = world.run();
    assert_eq!(outcome, RunOutcome::Failed(RunError::Fetch));
    assert_eq!(world.lease, Some(String::from(NOW)));
}

#[test]
fn bad_item_date_fails_the_run() {
    let mut world = World::new(NOW);
    world.watermark = Some(String::from(T1));
    world.feed = Some(document(T5, &[("three", T3), ("two", "Mon, 01 Jan 2024 02:00:00 GMT")]));
    let (outcome, _) = world.run();
    assert_eq!(outcome, RunOutcome::Failed(RunError::DateParse));
    assert!(world.posted.is_empty());
    assert_eq!(world.watermark, Some(String::from(T1)));
    assert_eq!(world.lease, Some(String::from(NOW)));
}

#[test]
fn bad_build_date_fails_the_run() {
    let mut world = World::new(NOW);
    world.feed = Some(document("Mon, 01 Jan 2024 02:00:00 GMT", &[]));
    let (outcome, _) = world.run();
    assert_eq!(outcome, RunOutcome::Failed(RunError::DateParse));
    assert_eq!(world.watermark, None);
}

#[test]
fn malformed_stored_watermark_fails_the_run() {
    let mut world = World::new(NOW);
    world.watermark = Some(String::from("once upon a time"));
    world.feed = Some(document(T5, &[("two", T2)]));
    let (outcome, _) = world.run();
    assert_eq!(outcome, RunOutcome::Failed(RunError::DateParse));
    assert!(world.posted.is_empty());
    assert_eq!(world.watermark, Some(String::from("once upon a time")));
}

#[test]
fn malformed_stored_lease_fails_the_run() {
    let mut world = World::new(NOW);
    world.lease = Some(String::from("?"));
    let (outcome, _) = world.run();
    assert_eq!(outcome, RunOutcome::Failed(RunError::DateParse));
    assert_eq!(world.log, log(&["read lease"]));
}

#[test]
fn store_failure_fails_the_run_wherever_it_comes() {
    for failing in 1..=5 {
        let mut world = World::new(NOW);
        world.watermark = Some(String::from(T1));
        world.feed = Some(document(T5, &[("two", T2)]));
        world.store_fails_at = Some(failing);
        let (outcome, _) = world.run();
        assert_eq!(outcome, RunOutcome::Failed(RunError::Store));
    }
    let mut world = World::new(NOW);
    world.watermark = Some(String::from(T1));
    world.feed = Some(document(T5, &[("two", T2)]));
    world.store_fails_at = Some(6);
    let (outcome, _) = world.run();
    assert_eq!(outcome, RunOutcome::Advanced);
}

#[test]
fn store_failure_on_the_watermark_write_leaves_the_lease() {
    let mut world = World::new(NOW);
    world.watermark = Some(String::from(T1));
    world.feed = Some(document(T5, &[("two", T2)]));
    world.store_fails_at = Some(4);
    let (outcome, results) = world.run();
    assert_eq!(outcome, RunOutcome::Failed(RunError::Store));
    assert_eq!(results, vec![PublishResult::Success]);
    assert_eq!(world.posted, log(&["two"]));
    assert_eq!(world.watermark, Some(String::from(T1)));
    assert_eq!(world.lease, Some(String::from(NOW)));
}

#[test]
fn unreachable_endpoint_stops_the_run() {
    let mut world = World::new(NOW);
    world.watermark = Some(String::from(T1));
    world.feed = Some(document(T5, &[("three", T3), ("two", T2)]));
    world.statuses = vec![500, 0];
    let (outcome, results) = world.run();
    assert_eq!(outcome, RunOutcome::Failed(RunError::Publish));
    assert_eq!(results, vec![PublishResult::Failure]);
    assert_eq!(world.watermark, Some(String::from(T1)));
    assert_eq!(world.lease, Some(String::from(NOW)));
}

#[test]
fn event_out_of_turn_is_a_protocol_error() {
    let (state, _) = RunState::start();
    let (state, action) = state.step(Event::Published(200));
    assert_eq!(state.outcome(), Some(RunOutcome::Failed(RunError::Protocol)));
    assert_eq!(action, Action::Stop);
    let (state, _) = RunState::Claiming.step(Event::FetchFailed);
    assert_eq!(state.outcome(), Some(RunOutcome::Failed(RunError::Protocol)));
    let (state, _) = RunState::Fetching.step(Event::StoreDone);
    assert_eq!(state.outcome(), Some(RunOutcome::Failed(RunError::Protocol)));
}

#[test]
fn finished_run_stays_finished() {
    let done = RunState::Done { outcome: RunOutcome::Held, results: Vec::new() };
    let (state, action) = done.step(Event::StoreDone);
    assert_eq!(state, RunState::Done { outcome: RunOutcome::Held, results: Vec::new() });
    assert_eq!(action, Action::Stop);
    let (state, action) = state.step(Event::Fetched(Vec::new()));
    assert_eq!(state.outcome(), Some(RunOutcome::Held));
    assert_eq!(action, Action::Stop);
}

#[test]
fn steps_of_the_lease_phase() {
    let now = at(NOW);
    assert_eq!(on_lease_read(&None, now), (RunState::Claiming, Action::WriteLease(now)));
    assert_eq!(
        on_lease_read(&Some(String::from("2024-01-01 05:00:00")), now),
        (RunState::Reclaiming { now }, Action::DeleteLease)
    );
    assert_eq!(
        on_lease_read(&Some(String::from("2024-01-01 05:59:59")), now),
        (RunState::Done { outcome: RunOutcome::Held, results: Vec::new() }, Action::Stop)
    );
    assert_eq!(
        RunState::Reclaiming { now }.step(Event::StoreDone),
        (RunState::Claiming, Action::WriteLease(now))
    );
    assert_eq!(RunState::Claiming.step(Event::StoreDone), (RunState::Fetching, Action::Fetch));
}

#[test]
fn step_on_the_document() {
    let (state, action) = on_fetched(&document(T5, &[("two", T2)]));
    assert_eq!(action, Action::ReadWatermark);
    match state {
        RunState::AwaitingWatermark { snapshot } => {
            assert_eq!(snapshot.build_timestamp, at(T5));
            assert_eq!(snapshot.items, vec![item("two", T2)]);
        }
        other => panic!("in {:?}", other),
    }
}

#[test]
fn step_on_the_watermark() {
    let snapshot = FeedSnapshot { items: vec![item("three", T3), item("two", T2)], build_timestamp: at(T5) };
    let (state, action) = on_watermark_read(&snapshot, &Some(String::from(T1)));
    assert_eq!(action, Action::Publish(item("two", T2)));
    assert_eq!(
        state,
        RunState::Publishing {
            queue: vec![item("two", T2), item("three", T3)],
            results: Vec::new(),
            watermark: at(T5),
        }
    );
    let (state, action) = on_watermark_read(&snapshot, &None);
    assert_eq!(action, Action::WriteWatermark(at(T5)));
    assert_eq!(state, RunState::Recording { outcome: RunOutcome::Bootstrapped, results: Vec::new() });
}

#[test]
fn step_on_an_answer_of_the_endpoint() {
    let queue = vec![item("two", T2), item("three", T3)];
    let (state, action) = on_published(queue, Vec::new(), at(T5), 503);
    assert_eq!(action, Action::Publish(item("three", T3)));
    let (queue, results) = match state {
        RunState::Publishing { queue, results, watermark } => {
            assert_eq!(watermark, at(T5));
            (queue, results)
        }
        other => panic!("in {:?}", other),
    };
    assert_eq!(results, vec![PublishResult::Failure]);
    let (state, action) = on_published(queue, results, at(T5), 200);
    assert_eq!(action, Action::WriteWatermark(at(T5)));
    assert_eq!(
        state,
        RunState::Recording {
            outcome: RunOutcome::Advanced,
            results: vec![PublishResult::Failure, PublishResult::Success],
        }
    );
}

#[test]
fn stored_timestamps() {
    assert_eq!(read_timestamp(&None), Ok(None));
    assert_eq!(read_timestamp(&Some(String::from(T1))), Ok(Some(at(T1))));
    assert_eq!(read_timestamp(&Some(String::from("x"))), Err(RunError::DateParse));
}

#[test]
fn feed_errors_as_run_errors() {
    assert_eq!(run_error(FeedError::Undecodable), RunError::Fetch);
    assert_eq!(run_error(FeedError::Unreadable), RunError::Fetch);
    assert_eq!(run_error(FeedError::Incomplete), RunError::Fetch);
    assert_eq!(run_error(FeedError::BadDate), RunError::DateParse);
}

#[test]
fn cases_as_outcomes() {
    assert_eq!(outcome(SyncCase::Bootstrap), RunOutcome::Bootstrapped);
    assert_eq!(outcome(SyncCase::NoChange), RunOutcome::Unchanged);
    assert_eq!(outcome(SyncCase::Advance), RunOutcome::Advanced);
}

#[test]
fn lease_report_without_a_row() {
    match Event::lease_read(None) {
        Event::LeaseRead { row, .. } => assert_eq!(row, None),
        other => panic!("got {:?}", other),
    }
}

#[test]
fn lease_report_is_stamped_by_the_clock() {
    let event = Event::lease_read(Some(String::from(T1)));
    match event {
        Event::LeaseRead { row, now } => {
            assert_eq!(row, Some(String::from(T1)));
            assert!(at("2020-01-01 00:00:00").is_before(&now));
            assert!(now.nanos < 1_000_000_000);
        }
        other => panic!("got {:?}", other),
    }
}
