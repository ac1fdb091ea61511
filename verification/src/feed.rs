//! The feed snapshot: what one fetch of the feed document yields, checked
//! and dated.

use crate::timestamp::{parsed, Timestamp};
use vstd::prelude::*;
use vstd::string::StringSliceAdditionalSpecFns;
use vstd::utf8::{decode_utf8, encode_utf8_decode_utf8, valid_utf8};

verus! {

/// One `<item>` of the document as the reader hands it over, each element
/// present or not.
#[derive(Debug, PartialEq, Eq)]
pub struct RawItem {
    pub title: Option<String>,
    pub description: Option<String>,
    pub link: Option<String>,
    pub pub_date: Option<String>,
}

/// The channel as the reader hands it over: its build date and its items in
/// document order.
#[derive(Debug, PartialEq, Eq)]
pub struct RawChannel {
    pub last_build_date: Option<String>,
    pub items: Vec<RawItem>,
}

/// One entry of the feed.
#[derive(Debug, PartialEq, Eq)]
pub struct FeedItem {
    pub title: String,
    pub description: String,
    pub link: String,
    /// The publication time as the feed wrote it.
    pub published: String,
    /// The publication time that `published` denotes.
    pub published_at: Timestamp,
}

/// One fetch of the feed: the items in feed order, newest first, and the
/// time at which the source last rebuilt the feed.
#[derive(Debug, PartialEq, Eq)]
pub struct FeedSnapshot {
    pub items: Vec<FeedItem>,
    pub build_timestamp: Timestamp,
}

/// Why a document yields no snapshot.
#[derive(Clone, Copy, Debug, PartialEq, Eq, Structural)]
pub enum FeedError {
    /// The bytes are not UTF-8.
    Undecodable,
    /// The reader found no channel in the text.
    Unreadable,
    /// An item lacks its title, its description or its link.
    Incomplete,
    /// The build date or an item's publication date is missing or not in
    /// the accepted layout.
    BadDate,
}

/// A raw item as plain values.
pub struct RawItemView {
    pub title: Option<Seq<char>>,
    pub description: Option<Seq<char>>,
    pub link: Option<Seq<char>>,
    pub pub_date: Option<Seq<char>>,
}

/// A raw channel as plain values.
pub struct RawChannelView {
    pub last_build_date: Option<Seq<char>>,
    pub items: Seq<RawItemView>,
}

/// An entry of the feed as plain values.
pub struct FeedItemView {
    pub title: Seq<char>,
    pub description: Seq<char>,
    pub link: Seq<char>,
    pub published: Seq<char>,
    pub published_at: Timestamp,
}

/// A snapshot as plain values.
pub struct FeedSnapshotView {
    pub items: Seq<FeedItemView>,
    pub build_timestamp: Timestamp,
}

/// The characters of an optional string.
pub open spec fn text_of(s: Option<String>) -> Option<Seq<char>> {
    match s {
        Some(t) => Some(t@),
        None => None,
    }
}

impl View for RawItem {
    type V = RawItemView;

    open spec fn view(&self) -> RawItemView {
        RawItemView {
            title: text_of(self.title),
            description: text_of(self.description),
            link: text_of(self.link),
            pub_date: text_of(self.pub_date),
        }
    }
}

impl View for RawChannel {
    type V = RawChannelView;

    open spec fn view(&self) -> RawChannelView {
        RawChannelView {
            last_build_date: text_of(self.last_build_date),
            items: self.items@.map_values(|item: RawItem| item@),
        }
    }
}

impl View for FeedItem {
    type V = FeedItemView;

    open spec fn view(&self) -> FeedItemView {
        FeedItemView {
            title: self.title@,
            description: self.description@,
            link: self.link@,
            published: self.published@,
            published_at: self.published_at,
        }
    }
}

/// The views of a run of items, in the same order.
pub open spec fn item_views(items: Seq<FeedItem>) -> Seq<FeedItemView> {
    items.map_values(|item: FeedItem| item@)
}

impl View for FeedSnapshot {
    type V = FeedSnapshotView;

    open spec fn view(&self) -> FeedSnapshotView {
        FeedSnapshotView {
            items: item_views(self.items@),
            build_timestamp: self.build_timestamp,
        }
    }
}

impl Clone for FeedItem {
    fn clone(&self) -> (r: Self)
        ensures
            r == *self,
    {
        FeedItem {
            title: self.title.clone(),
            description: self.description.clone(),
            link: self.link.clone(),
            published: self.published.clone(),
            published_at: self.published_at,
        }
    }
}

/// The timestamp that a date element denotes: none where the element is
/// missing or its text is not in the accepted layout.
pub open spec fn date_of(element: Option<Seq<char>>) -> Option<Timestamp> {
    match element {
        Some(text) => parsed(text),
        None => None,
    }
}

/// What is wrong with an item, if anything. A missing text element is
/// reported before a bad date.
pub open spec fn item_fault(raw: RawItemView) -> Option<FeedError> {
    if raw.title is None || raw.description is None || raw.link is None {
        Some(FeedError::Incomplete)
    } else if date_of(raw.pub_date) is None {
        Some(FeedError::BadDate)
    } else {
        None
    }
}

/// The entry that a faultless item becomes.
pub open spec fn item_of(raw: RawItemView) -> FeedItemView {
    FeedItemView {
        title: raw.title->0,
        description: raw.description->0,
        link: raw.link->0,
        published: raw.pub_date->0,
        published_at: date_of(raw.pub_date)->0,
    }
}

/// `k` is the place of the first item with a fault.
pub open spec fn first_fault_at(items: Seq<RawItemView>, k: int) -> bool {
    &&& 0 <= k < items.len()
    &&& item_fault(items[k]) is Some
    &&& forall|j: int| 0 <= j < k ==> item_fault(#[trigger] items[j]) is None
}

/// The snapshot that a channel yields. The build date is looked at first,
/// then the items in order; the first fault found is the one reported.
pub open spec fn snapshot_of(raw: RawChannelView) -> Result<FeedSnapshotView, FeedError> {
    match date_of(raw.last_build_date) {
        None => Err(FeedError::BadDate),
        Some(build_timestamp) => if exists|k: int| first_fault_at(raw.items, k) {
            Err(item_fault(raw.items[choose|k: int| first_fault_at(raw.items, k)])->0)
        } else {
            Ok(
                FeedSnapshotView {
                    items: raw.items.map_values(|item: RawItemView| item_of(item)),
                    build_timestamp,
                },
            )
        },
    }
}

/// The error that `rss::Channel::read_from` reports.
#[verifier::external_type_specification]
#[verifier::external_body]
pub struct ExRssError(rss::Error);

/// What `rss::Channel::read_from` makes of a document: `None` where it
/// reports an error, else the channel it read, as far as this library looks
/// at it (the build date, and of each item the title, the description, the
/// link and the publication date).
pub uninterp spec fn rss_read(document: Seq<char>) -> Option<RawChannelView>;

/// Calls `core::str::from_utf8`. Trusted: it answers with a string exactly
/// when the bytes are valid UTF-8, and the string then has those bytes.
#[verifier::external_body]
fn utf8_text(bytes: &[u8]) -> (r: Option<&str>)
    ensures
        r is Some <==> valid_utf8(bytes@),
        r matches Some(text) ==> text.spec_bytes() == bytes@,
{
    core::str::from_utf8(bytes).ok()
}

/// Calls `rss::Channel::read_from` on the bytes of `document`. Trusted: the
/// outcome is the reader's, with the channel copied field by field through
/// its accessors `last_build_date`, `items`, `title`, `description`, `link`
/// and `pub_date`.
#[verifier::external_body]
fn read_channel(document: &str) -> (r: Result<RawChannel, rss::Error>)
    ensures
        r is Ok <==> rss_read(document@) is Some,
        r matches Ok(channel) ==> rss_read(document@) == Some(channel@),
{
    let channel = rss::Channel::read_from(document.as_bytes())?;
    let items = channel.items().iter().map(|item| RawItem {
        title: item.title().map(String::from),
        description: item.description().map(String::from),
        link: item.link().map(String::from),
        pub_date: item.pub_date().map(String::from),
    });
    Ok(RawChannel {
        last_build_date: channel.last_build_date().map(String::from),
        items: items.collect(),
    })
}

/// The snapshot that the bytes of a fetched document yield.
pub open spec fn feed_of(body: Seq<u8>) -> Result<FeedSnapshotView, FeedError> {
    if !valid_utf8(body) {
        Err(FeedError::Undecodable)
    } else {
        match rss_read(decode_utf8(body)) {
            None => Err(FeedError::Unreadable),
            Some(raw) => snapshot_of(raw),
        }
    }
}

/// Turns the body of a fetched document into a snapshot: decodes it, reads
/// the channel, then checks and dates the channel.
pub fn parse_feed(body: &[u8]) -> (r: Result<FeedSnapshot, FeedError>)
    ensures
        match r {
            Ok(snapshot) => feed_of(body@) == Ok::<FeedSnapshotView, FeedError>(snapshot@),
            Err(e) => feed_of(body@) == Err::<FeedSnapshotView, FeedError>(e),
        },
{
    let document = match utf8_text(body) {
        Some(text) => text,
        None => { return Err(FeedError::Undecodable); },
    };
    proof {
        encode_utf8_decode_utf8(document@);
    }
    match read_channel(document) {
        Ok(raw) => FeedSnapshot::from_raw(&raw),
        Err(_) => Err(FeedError::Unreadable),
    }
}

impl FeedItem {
    /// Checks and dates one item.
    pub fn from_raw(raw: &RawItem) -> (r: Result<FeedItem, FeedError>)
        ensures
            match r {
                Ok(item) => item_fault(raw@) is None && item@ == item_of(raw@),
                Err(e) => item_fault(raw@) == Some(e),
            },
    {
        let title = match &raw.title {
            Some(text) => text.clone(),
            None => { return Err(FeedError::Incomplete); },
        };
        let description = match &raw.description {
            Some(text) => text.clone(),
            None => { return Err(FeedError::Incomplete); },
        };
        let link = match &raw.link {
            Some(text) => text.clone(),
            None => { return Err(FeedError::Incomplete); },
        };
        let published = match &raw.pub_date {
            Some(text) => text.clone(),
            None => { return Err(FeedError::BadDate); },
        };
        match Timestamp::parse(published.as_str()) {
            Some(published_at) => Ok(FeedItem { title, description, link, published, published_at }),
            None => Err(FeedError::BadDate),
        }
    }
}

impl FeedSnapshot {
    /// Checks and dates a whole channel.
    pub fn from_raw(raw: &RawChannel) -> (r: Result<FeedSnapshot, FeedError>)
        ensures
            match r {
                Ok(snapshot) => snapshot_of(raw@) == Ok::<FeedSnapshotView, FeedError>(snapshot@),
                Err(e) => snapshot_of(raw@) == Err::<FeedSnapshotView, FeedError>(e),
            },
    {
        let build_timestamp = match &raw.last_build_date {
            Some(text) => match Timestamp::parse(text.as_str()) {
                Some(at) => at,
                None => { return Err(FeedError::BadDate); },
            },
            None => { return Err(FeedError::BadDate); },
        };
        let mut items: Vec<FeedItem> = Vec::new();
        let mut i: usize = 0;
        while i < raw.items.len()
            invariant
                0 <= i <= raw.items.len(),
                items@.len() == i,
                raw@.items.len() == raw.items.len(),
                date_of(raw@.last_build_date) == Some(build_timestamp),
                forall|j: int| 0 <= j < i ==> item_fault(#[trigger] raw@.items[j]) is None,
                forall|j: int| 0 <= j < i ==> (#[trigger] items@[j])@ == item_of(raw@.items[j]),
            decreases raw.items.len() - i,
        {
            match FeedItem::from_raw(&raw.items[i]) {
                Ok(item) => {
                    items.push(item);
                },
                Err(e) => {
                    proof {
                        let at = i as int;
                        assert(raw@.items[at] == raw.items@[at]@);
                        assert(first_fault_at(raw@.items, at));
                        let k = choose|k: int| first_fault_at(raw@.items, k);
                        assert(k == at);
                    }
                    return Err(e);
                },
            }
            i += 1;
        }
        let snapshot = FeedSnapshot { items, build_timestamp };
        proof {
            assert(!exists|k: int| first_fault_at(raw@.items, k));
            assert(snapshot@.items =~= raw@.items.map_values(|item: RawItemView| item_of(item)));
        }
        Ok(snapshot)
    }
}

} // verus!
