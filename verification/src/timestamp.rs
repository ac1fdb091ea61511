//! Calendar timestamps at the precision the feed and the store use.

use vstd::prelude::*;

verus! {

/// The one textual layout accepted for every timestamp that is read from the
/// feed or from the store.
pub const TIMESTAMP_FORMAT: &'static str = "%Y-%m-%d %H:%M:%S";

/// What `chrono::NaiveDateTime::parse_from_str` makes of `text` under
/// `format`: `None` where it reports an error, else the date and time it
/// read, as seconds since the epoch and nanoseconds past the second.
pub uninterp spec fn naive_parse(text: Seq<char>, format: Seq<char>) -> Option<(i64, u32)>;

/// What `Display` of `chrono::NaiveDateTime` writes for the date and time
/// that lies `secs` seconds and `nanos` nanoseconds after the epoch: `None`
/// where chrono's calendar has no such date and time.
pub uninterp spec fn naive_display(secs: i64, nanos: u32) -> Option<Seq<char>>;

/// Calls `chrono::NaiveDateTime::parse_from_str`. Trusted: the result is
/// chrono's, with the value it read handed over as `timestamp()` and
/// `timestamp_subsec_nanos()` of that same value taken as UTC. The format is
/// limited to the one layout this library reads, which holds no item that
/// makes chrono's parser leave its ordinary path.
#[verifier::external_body]
fn parse_naive(text: &str, format: &str) -> (r: Option<(i64, u32)>)
    requires
        format@ == TIMESTAMP_FORMAT@,
    ensures
        r == naive_parse(text@, format@),
{
    chrono::NaiveDateTime::parse_from_str(text, format)
        .ok()
        .map(|at| (at.and_utc().timestamp(), at.and_utc().timestamp_subsec_nanos()))
}

/// Calls `to_string` (that is, `Display`) on the `chrono::NaiveDateTime`
/// that `chrono::DateTime::from_timestamp` makes of the two numbers. Trusted:
/// the text is chrono's, and there is none exactly where `from_timestamp`
/// finds the numbers out of range.
#[verifier::external_body]
fn display_naive(secs: i64, nanos: u32) -> (r: Option<String>)
    ensures
        r is Some <==> naive_display(secs, nanos) is Some,
        r matches Some(s) ==> naive_display(secs, nanos) == Some(s@),
{
    chrono::DateTime::from_timestamp(secs, nanos).map(|at| at.naive_utc().to_string())
}

/// Calls `chrono::Utc::now` and hands the instant over as `timestamp()` and
/// `timestamp_subsec_nanos()`. Trusted: chrono builds the instant from the
/// system clock's whole seconds and the fraction of a second beyond them,
/// so the nanosecond part is below one billion. Nothing is claimed of the
/// instant itself. chrono stops the program if the system clock is set
/// before 1970.
#[verifier::external_body]
fn utc_now() -> (r: (i64, u32))
    ensures
        r.1 < 1_000_000_000,
{
    let at = chrono::Utc::now();
    (at.timestamp(), at.timestamp_subsec_nanos())
}

/// The timestamp that `text` denotes in the accepted layout, if any.
pub open spec fn parsed(text: Seq<char>) -> Option<Timestamp> {
    match naive_parse(text, TIMESTAMP_FORMAT@) {
        Some((secs, nanos)) => Some(Timestamp { secs, nanos }),
        None => None,
    }
}

/// The text under which `at` is stored, if the calendar reaches it.
pub open spec fn rendered(at: Timestamp) -> Option<Seq<char>> {
    naive_display(at.secs, at.nanos)
}

/// An instant, held as the two numbers by which instants are ordered: whole
/// non-leap seconds since 1970-01-01 00:00:00, and the nanoseconds past that
/// second. A leap second is the second before it with a nanosecond part of
/// one billion or more.
#[derive(Clone, Copy, Debug, PartialEq, Eq, Structural)]
pub struct Timestamp {
    pub secs: i64,
    pub nanos: u32,
}

impl Timestamp {
    /// Whether the instant is a leap second: the nanosecond part has run
    /// on past the end of its second.
    pub open spec fn is_leap(self) -> bool {
        self.nanos >= 1_000_000_000
    }

    /// Strictly earlier: by seconds first, by nanoseconds within one second.
    pub open spec fn before(self, other: Timestamp) -> bool {
        self.secs < other.secs || (self.secs == other.secs && self.nanos < other.nanos)
    }

    /// The instant `nanos` nanoseconds past second `secs`.
    pub fn new(secs: i64, nanos: u32) -> (t: Timestamp)
        ensures
            t == (Timestamp { secs, nanos }),
    {
        Timestamp { secs, nanos }
    }

    /// Reads a timestamp written as `YYYY-MM-DD HH:MM:SS`.
    pub fn parse(text: &str) -> (r: Option<Timestamp>)
        ensures
            r == parsed(text@),
    {
        match parse_naive(text, TIMESTAMP_FORMAT) {
            Some((secs, nanos)) => Some(Timestamp { secs, nanos }),
            None => None,
        }
    }

    /// Writes the timestamp as the store holds it. `None` only for numbers
    /// that lie outside the calendar.
    pub fn to_text(&self) -> (r: Option<String>)
        ensures
            r is Some <==> rendered(*self) is Some,
            r matches Some(s) ==> rendered(*self) == Some(s@),
    {
        display_naive(self.secs, self.nanos)
    }

    /// Reads the clock. Which instant it reads depends on when it is
    /// asked; the clock counts whole seconds and the fraction beyond them,
    /// so its reading is never a leap second.
    pub(crate) fn now() -> (r: Timestamp)
        ensures
            !r.is_leap(),
    {
        let (secs, nanos) = utc_now();
        Timestamp { secs, nanos }
    }

    /// Whether `self` is strictly earlier than `other`.
    pub fn is_before(&self, other: &Timestamp) -> (r: bool)
        ensures
            r == self.before(*other),
    {
        self.secs < other.secs || (self.secs == other.secs && self.nanos < other.nanos)
    }
}

} // verus!
