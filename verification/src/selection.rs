//! Which items of a snapshot are new, and the order in which they go out.

use crate::feed::{item_views, FeedItem, FeedItemView};
use crate::timestamp::Timestamp;
use vstd::prelude::*;

verus! {

/// An item is new when it was published strictly after the watermark.
pub open spec fn is_new(item: FeedItemView, watermark: Timestamp) -> bool {
    watermark.before(item.published_at)
}

/// The new items, in feed order.
pub open spec fn newer_than(items: Seq<FeedItemView>, watermark: Timestamp) -> Seq<FeedItemView> {
    items.filter(|item: FeedItemView| is_new(item, watermark))
}

/// The new items in publish order: feed order reversed, so that a feed that
/// lists its newest item first is published oldest first.
pub open spec fn selection(items: Seq<FeedItemView>, watermark: Timestamp) -> Seq<FeedItemView> {
    newer_than(items, watermark).reverse()
}

/// The items of `items` that were published strictly after `watermark`, in
/// feed order.
pub fn filter_new(items: &Vec<FeedItem>, watermark: Timestamp) -> (r: Vec<FeedItem>)
    ensures
        item_views(r@) == newer_than(item_views(items@), watermark),
{
    let ghost views = item_views(items@);
    let ghost pred = |item: FeedItemView| is_new(item, watermark);
    let mut picked: Vec<FeedItem> = Vec::new();
    let mut i: usize = 0;
    proof {
        reveal(Seq::filter);
        assert(views.take(0).filter(pred) =~= Seq::<FeedItemView>::empty());
        assert(item_views(picked@) =~= Seq::<FeedItemView>::empty());
    }
    while i < items.len()
        invariant
            0 <= i <= items.len(),
            views == item_views(items@),
            pred == |item: FeedItemView| is_new(item, watermark),
            item_views(picked@) == views.take(i as int).filter(pred),
        decreases items.len() - i,
    {
        let ghost before = picked@;
        let item = &items[i];
        let fresh = watermark.is_before(&item.published_at);
        if fresh {
            picked.push(item.clone());
        }
        proof {
            reveal(Seq::filter);
            let upto = views.take(i as int + 1);
            assert(upto.drop_last() =~= views.take(i as int));
            assert(upto.last() == items@[i as int]@);
            if fresh {
                assert(item_views(picked@) =~= item_views(before).push(items@[i as int]@));
            }
        }
        i += 1;
    }
    proof {
        assert(views.take(items.len() as int) =~= views);
    }
    picked
}

/// The same items in the opposite order.
pub fn reversed(items: Vec<FeedItem>) -> (r: Vec<FeedItem>)
    ensures
        r@ == items@.reverse(),
{
    let ghost whole = items@;
    let mut rest = items;
    let mut out: Vec<FeedItem> = Vec::new();
    while rest.len() > 0
        invariant
            rest@.len() + out@.len() == whole.len(),
            rest@ == whole.take(rest@.len() as int),
            forall|j: int| 0 <= j < out@.len() ==> out@[j] == whole[whole.len() - 1 - j],
        decreases rest.len(),
    {
        match rest.pop() {
            Some(item) => {
                out.push(item);
            },
            None => {},
        }
    }
    proof {
        assert(out@ =~= whole.reverse());
    }
    out
}

/// The items to publish for a watermark: those published strictly after it,
/// in the opposite of feed order.
pub fn select_new_items(items: &Vec<FeedItem>, watermark: Timestamp) -> (r: Vec<FeedItem>)
    ensures
        item_views(r@) == selection(item_views(items@), watermark),
{
    let picked = filter_new(items, watermark);
    let ghost kept = picked@;
    let out = reversed(picked);
    proof {
        assert(item_views(out@) =~= item_views(kept).reverse());
    }
    out
}

/// What the filter keeps is new and comes from the snapshot.
proof fn kept_are_new_items(items: Seq<FeedItemView>, watermark: Timestamp)
    ensures
        forall|j: int|
            0 <= j < newer_than(items, watermark).len() ==> {
                let item = #[trigger] newer_than(items, watermark)[j];
                is_new(item, watermark) && items.contains(item)
            },
    decreases items.len(),
{
    reveal(Seq::filter);
    let kept = newer_than(items, watermark);
    if items.len() > 0 {
        let front = items.drop_last();
        kept_are_new_items(front, watermark);
        let inner = newer_than(front, watermark);
        assert forall|j: int| 0 <= j < kept.len() implies {
            let item = #[trigger] kept[j];
            is_new(item, watermark) && items.contains(item)
        } by {
            if j < inner.len() {
                assert(kept[j] == inner[j]);
                let k = choose|k: int| 0 <= k < front.len() && front[k] == inner[j];
                assert(items[k] == kept[j]);
            } else {
                assert(kept[j] == items.last());
                assert(items[items.len() - 1] == kept[j]);
            }
        }
    }
}

/// Every selected item was published strictly after the watermark, and is
/// an item of the snapshot. In particular an item published exactly at the
/// watermark is never selected.
pub proof fn selection_excludes_boundary(items: Seq<FeedItemView>, watermark: Timestamp)
    ensures
        forall|i: int|
            0 <= i < selection(items, watermark).len() ==> {
                let item = #[trigger] selection(items, watermark)[i];
                &&& watermark.before(item.published_at)
                &&& item.published_at != watermark
                &&& items.contains(item)
            },
        forall|item: FeedItemView|
            item.published_at == watermark ==> !(#[trigger] selection(items, watermark).contains(
                item,
            )),
{
    let pred = |item: FeedItemView| is_new(item, watermark);
    let kept = newer_than(items, watermark);
    let sel = selection(items, watermark);
    kept_are_new_items(items, watermark);
    assert forall|i: int| 0 <= i < sel.len() implies {
        let item = #[trigger] sel[i];
        &&& watermark.before(item.published_at)
        &&& item.published_at != watermark
        &&& items.contains(item)
    } by {
        let j = kept.len() - 1 - i;
        assert(sel[i] == kept[j]);
    }
    assert forall|item: FeedItemView| item.published_at == watermark implies !(
    #[trigger] sel.contains(item)) by {
        if sel.contains(item) {
            let i = choose|i: int| 0 <= i < sel.len() && sel[i] == item;
            assert(watermark.before(sel[i].published_at));
        }
    }
}

/// Every item of the snapshot that was published strictly after the
/// watermark is selected, and nothing is selected twice over: the selection
/// is exactly as long as the run of new items.
pub proof fn selection_keeps_every_new_item(items: Seq<FeedItemView>, watermark: Timestamp)
    ensures
        selection(items, watermark).len() == newer_than(items, watermark).len(),
        selection(items, watermark).len() <= items.len(),
        forall|i: int|
            0 <= i < items.len() && watermark.before((#[trigger] items[i]).published_at)
                ==> selection(items, watermark).contains(items[i]),
{
    let pred = |item: FeedItemView| is_new(item, watermark);
    let kept = newer_than(items, watermark);
    let sel = selection(items, watermark);
    items.lemma_filter_len(pred);
    assert forall|i: int|
        0 <= i < items.len() && watermark.before((#[trigger] items[i]).published_at) implies sel.contains(
        items[i],
    ) by {
        assert(pred(items[i]));
        items.lemma_filter_contains(pred, i);
        let j = choose|j: int| 0 <= j < kept.len() && kept[j] == items[i];
        assert(sel[kept.len() - 1 - j] == kept[j]);
    }
}

/// Where every item is new, every item is kept.
pub proof fn all_new_keeps_all(items: Seq<FeedItemView>, watermark: Timestamp)
    requires
        forall|i: int| 0 <= i < items.len() ==> watermark.before((#[trigger] items[i]).published_at),
    ensures
        newer_than(items, watermark) == items,
        selection(items, watermark) == items.reverse(),
    decreases items.len(),
{
    reveal(Seq::filter);
    if items.len() > 0 {
        all_new_keeps_all(items.drop_last(), watermark);
        assert(is_new(items.last(), watermark));
        assert(items.drop_last().push(items.last()) =~= items);
    }
}

/// A snapshot that lists three new items newest first is published oldest
/// first: the order of the three is turned round, and none is left out.
pub proof fn newest_first_goes_out_oldest_first(
    newest: FeedItemView,
    middle: FeedItemView,
    oldest: FeedItemView,
    watermark: Timestamp,
)
    requires
        watermark.before(oldest.published_at),
        oldest.published_at.before(middle.published_at),
        middle.published_at.before(newest.published_at),
    ensures
        selection(seq![newest, middle, oldest], watermark) == seq![oldest, middle, newest],
{
    let items = seq![newest, middle, oldest];
    all_new_keeps_all(items, watermark);
    assert(items.reverse() =~= seq![oldest, middle, newest]);
}

} // verus!
