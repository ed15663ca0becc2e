//! Points in time, as `chrono` reads and prints them.

use vstd::prelude::*;

verus! {

/// A point in time on the UTC time line, held as `chrono` takes it apart:
/// the whole seconds since the start of 1970 and the nanoseconds into the
/// second.
#[derive(Debug, Clone, Copy, PartialEq, Eq, Structural)]
pub struct Instant {
    pub seconds: i64,
    pub nanos: u32,
}

/// The RFC 3339 text that `chrono` prints for a point in time, with as many
/// fractional digits as it needs and `Z` for the offset; nothing where
/// `chrono` holds no such point in time.
pub uninterp spec fn instant_text(seconds: int, nanos: int) -> Option<Seq<char>>;

/// The point in time that `chrono` reads from a text, if it reads one: its
/// seconds, then its nanoseconds.
pub uninterp spec fn parsed_instant(text: Seq<char>) -> Option<(int, int)>;

/// `chrono` holds points in time whose year has at most six digits;
/// none of them is further than this many seconds from the start of 1970.
pub const FARTHEST_SECOND: i64 = 9_000_000_000_000;

impl Instant {
    /// Whether the numbers are in the range of the points in time that
    /// `chrono` holds.
    pub open spec fn in_range(&self) -> bool {
        &&& -FARTHEST_SECOND <= self.seconds <= FARTHEST_SECOND
        &&& self.nanos < 2_000_000_000
    }

    /// Whether `chrono` holds the point in time: it can print it, and reads
    /// it back from what it printed.
    pub open spec fn valid(&self) -> bool {
        &&& instant_text(self.seconds as int, self.nanos as int) matches Some(text)
        &&& parsed_instant(text) == Some((self.seconds as int, self.nanos as int))
        &&& self.in_range()
    }

    /// The nanoseconds from the start of 1970 to the point in time.
    pub open spec fn nanoseconds(&self) -> int {
        self.seconds * 1_000_000_000 + self.nanos
    }
}

/// The whole milliseconds from `start` to `end`, a part of a millisecond
/// left out; negative where `end` is the earlier one.
pub open spec fn whole_millis_between(start: Instant, end: Instant) -> int {
    let nanos = end.nanoseconds() - start.nanoseconds();
    if nanos >= 0 {
        nanos / 1_000_000
    } else {
        -((-nanos) / 1_000_000)
    }
}

/// `Utc::now`, taken apart by `DateTime::timestamp` and
/// `DateTime::timestamp_subsec_nanos`: the current point in time.
#[verifier::external_body]
pub(crate) fn now() -> (instant: Instant)
    ensures
        instant.valid(),
{
    let current = chrono::Utc::now();
    Instant { seconds: current.timestamp(), nanos: current.timestamp_subsec_nanos() }
}

/// `DateTime::from_timestamp` and `DateTime::to_rfc3339_opts` with
/// `SecondsFormat::AutoSi` and `Z`: the text of the point in time, where
/// `chrono` holds it; `chrono` reads the text back as the same point in time.
#[verifier::external_body]
pub(crate) fn to_text(instant: &Instant) -> (text: Option<String>)
    ensures
        text is Some <==> instant_text(instant.seconds as int, instant.nanos as int) is Some,
        text matches Some(s) ==> instant_text(instant.seconds as int, instant.nanos as int) == Some(
            s@,
        ) && parsed_instant(s@) == Some((instant.seconds as int, instant.nanos as int)),
{
    chrono::DateTime::from_timestamp(instant.seconds, instant.nanos).map(
        |at| at.to_rfc3339_opts(chrono::SecondsFormat::AutoSi, true),
    )
}

/// `str::parse` into a `DateTime<Utc>`, taken apart as in [`now`]: the point
/// in time that an RFC 3339 text names, and nothing for any other text.
#[verifier::external_body]
pub(crate) fn parse(text: &str) -> (instant: Option<Instant>)
    ensures
        instant is Some <==> parsed_instant(text@) is Some,
        instant matches Some(at) ==> parsed_instant(text@) == Some(
            (at.seconds as int, at.nanos as int),
        ) && at.valid(),
{
    text.parse::<chrono::DateTime<chrono::Utc>>().ok().map(
        |at| Instant { seconds: at.timestamp(), nanos: at.timestamp_subsec_nanos() },
    )
}

/// The whole milliseconds from `start` to `end`.
pub fn millis_between(start: &Instant, end: &Instant) -> (millis: i64)
    requires
        start.in_range(),
        end.in_range(),
    ensures
        millis == whole_millis_between(*start, *end),
{
    let from: i128 = (start.seconds as i128) * 1_000_000_000 + (start.nanos as i128);
    let to: i128 = (end.seconds as i128) * 1_000_000_000 + (end.nanos as i128);
    if to >= from {
        let whole: i128 = (to - from) / 1_000_000;
        whole as i64
    } else {
        let whole: i128 = (from - to) / 1_000_000;
        let back: i64 = whole as i64;
        -back
    }
}

} // verus!
