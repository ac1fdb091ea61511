use newspenguin_rss::feed::{FeedItem, FeedSnapshot};
use newspenguin_rss::reconcile::{reconcile, SyncCase};
use newspenguin_rss::selection::{filter_new, reversed, select_new_items};
use newspenguin_rss::timestamp::Timestamp;

fn at(text: &str) -> Timestamp {
    Timestamp::parse(text).unwrap()
}

fn item(title: &str, published: &str) -> FeedItem {
    FeedItem {
        title: String::from(title),
        description: String::from("words"),
        link: format!("https://example.org/{}", title),
        published: String::from(published),
        published_at: at(published),
    }
}

fn titles(items: &[FeedItem]) -> Vec<String> {
    items.iter().map(|i| i.title.clone()).collect()
}

fn names(list: &[&str]) -> Vec<String> {
    list.iter().map(|s| String::from(*s)).collect()
}

const T0: &str = "2024-01-01 00:00:00";
const T1: &str = "2024-01-01 01:00:00";
const T2: &str = "2024-01-01 02:00:00";
const T3: &str = "2024-01-01 03:00:00";
const T4: &str = "2024-01-01 04:00:00";
const T5: &str = "2024-01-01 05:00:00";

#[test]
fn selection_is_chronological() {
    let items = vec![item("four", T4), item("three", T3), item("two", T2)];
    let selected = select_new_items(&items, at(T1));
    assert_eq!(titles(&selected), names(&["two", "three", "four"]));
}

#[test]
fn selection_leaves_out_what_is_not_newer() {
    let items = vec![item("four", T4), item("three", T3), item("two", T2), item("one", T1)];
    let selected = select_new_items(&items, at(T2));
    assert_eq!(titles(&selected), names(&["three", "four"]));
}

#[test]
fn item_at_the_watermark_is_not_selected() {
    let items = vec![item("at", T2)];
    assert!(select_new_items(&items, at(T2)).is_empty());
    let items = vec![item("after", T3), item("at", T2), item("before", T1)];
    assert_eq!(titles(&select_new_items(&items, at(T2))), names(&["after"]));
}

#[test]
fn items_that_share_a_time_are_all_selected() {
    let items = vec![item("b", T3), item("a", T3)];
    assert_eq!(titles(&select_new_items(&items, at(T2))), names(&["a", "b"]));
}

#[test]
fn selection_reverses_feed_order_whatever_the_times() {
    let items = vec![item("x", T3), item("y", T5), item("z", T1), item("w", T4)];
    assert_eq!(titles(&select_new_items(&items, at(T2))), names(&["w", "y", "x"]));
}

#[test]
fn selection_of_nothing() {
    let items: Vec<FeedItem> = Vec::new();
    assert!(select_new_items(&items, at(T0)).is_empty());
    let old = vec![item("one", T1), item("zero", T0)];
    assert!(select_new_items(&old, at(T4)).is_empty());
}

#[test]
fn selection_sees_nanoseconds() {
    let mut late = item("late", T2);
    late.published_at = Timestamp::new(at(T2).secs, 1);
    let items = vec![late, item("on time", T2)];
    assert_eq!(titles(&select_new_items(&items, at(T2))), names(&["late"]));
}

#[test]
fn filter_keeps_feed_order() {
    let items = vec![item("four", T4), item("one", T1), item("three", T3)];
    assert_eq!(titles(&filter_new(&items, at(T2))), names(&["four", "three"]));
}

#[test]
fn reversed_turns_the_order_round() {
    let items = vec![item("a", T1), item("b", T2), item("c", T3)];
    assert_eq!(titles(&reversed(items)), names(&["c", "b", "a"]));
    assert!(reversed(Vec::new()).is_empty());
    assert_eq!(titles(&reversed(vec![item("a", T1)])), names(&["a"]));
}

fn snapshot(build: &str, items: Vec<FeedItem>) -> FeedSnapshot {
    FeedSnapshot { items, build_timestamp: at(build) }
}

#[test]
fn bootstrap_plan() {
    let feed = snapshot(T0, vec![item("two", T2), item("one", T1)]);
    let plan = reconcile(&feed, None);
    assert_eq!(plan.case, SyncCase::Bootstrap);
    assert!(plan.queue.is_empty());
    assert_eq!(plan.watermark, at(T0));
}

#[test]
fn no_change_plan() {
    let feed = snapshot(T0, vec![item("two", T2), item("one", T1)]);
    let plan = reconcile(&feed, Some(at(T0)));
    assert_eq!(plan.case, SyncCase::NoChange);
    assert!(plan.queue.is_empty());
    assert_eq!(plan.watermark, at(T0));
}

#[test]
fn plan_for_a_feed_built_before_the_watermark_keeps_the_watermark() {
    let feed = snapshot(T1, vec![item("four", T4)]);
    let plan = reconcile(&feed, Some(at(T3)));
    assert_eq!(plan.case, SyncCase::NoChange);
    assert!(plan.queue.is_empty());
    assert_eq!(plan.watermark, at(T3));
}

#[test]
fn advance_plan() {
    let feed = snapshot(T5, vec![item("four", T4), item("three", T3), item("two", T2)]);
    let plan = reconcile(&feed, Some(at(T1)));
    assert_eq!(plan.case, SyncCase::Advance);
    assert_eq!(titles(&plan.queue), names(&["two", "three", "four"]));
    assert_eq!(plan.watermark, at(T5));
}

#[test]
fn advance_plan_leaves_out_the_item_at_the_watermark() {
    let feed = snapshot(T5, vec![item("three", T3), item("two", T2)]);
    let plan = reconcile(&feed, Some(at(T2)));
    assert_eq!(plan.case, SyncCase::Advance);
    assert_eq!(titles(&plan.queue), names(&["three"]));
    assert_eq!(plan.watermark, at(T5));
}

#[test]
fn advance_plan_with_nothing_new() {
    let feed = snapshot(T5, vec![item("one", T1)]);
    let plan = reconcile(&feed, Some(at(T2)));
    assert_eq!(plan.case, SyncCase::Advance);
    assert!(plan.queue.is_empty());
    assert_eq!(plan.watermark, at(T5));
}

#[test]
fn planning_again_after_a_plan_changes_nothing() {
    let feed = snapshot(T5, vec![item("four", T4), item("three", T3)]);
    let first = reconcile(&feed, Some(at(T1)));
    let second = reconcile(&feed, Some(first.watermark));
    assert_eq!(second.case, SyncCase::NoChange);
    assert!(second.queue.is_empty());
    assert_eq!(second.watermark, first.watermark);
}
