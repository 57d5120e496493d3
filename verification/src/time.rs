//! Instants on the UTC time line, kept as nanoseconds since the Unix epoch,
//! and the calendar-date text the service reads and writes.
use vstd::prelude::*;
use std::str::FromStr;

verus! {

/// Earliest instant the service can hold: -377705023201 s after the epoch.
pub const MIN_NANOS: i128 = -377705023201 * 1_000_000_000;

/// Latest instant the service can hold: 253402207200.999999999 s after the epoch.
pub const MAX_NANOS: i128 = 253402207200 * 1_000_000_000 + 999_999_999;

/// Nanoseconds in one hour.
pub const HOUR_NANOS: i128 = 3_600_000_000_000;

/// Whether `n` nanoseconds after the epoch is an instant the service can hold.
pub open spec fn in_time_range(n: int) -> bool {
    MIN_NANOS <= n <= MAX_NANOS
}

/// An instant, in whole nanoseconds since 1970-01-01T00:00:00Z, always inside
/// the range that `jiff::Timestamp` represents.
#[derive(Clone, Copy, Debug, PartialEq, Eq)]
pub struct Timestamp {
    nanos: i128,
}

impl View for Timestamp {
    type V = int;

    closed spec fn view(&self) -> int {
        self.nanos as int
    }
}

/// The instant `n` nanoseconds after the epoch, for `n` in range.
pub closed spec fn stamp(n: int) -> Timestamp {
    Timestamp { nanos: n as i128 }
}

/// The instant of a nanosecond count that fits the representation has that
/// count.
pub broadcast proof fn lemma_stamp_view(n: int)
    requires
        i128::MIN <= n <= i128::MAX,
    ensures
        #[trigger] stamp(n)@ == n,
{
}

/// A nanosecond count fits 128 bits.
pub proof fn lemma_view_bounds(t: Timestamp)
    ensures
        i128::MIN <= t@ <= i128::MAX,
{
}

impl Timestamp {
    #[verifier::type_invariant]
    closed spec fn within_range(self) -> bool {
        MIN_NANOS <= self.nanos && self.nanos <= MAX_NANOS
    }

    /// The instant `nanos` nanoseconds after the epoch, or `None` where it
    /// lies outside the range.
    pub fn from_nanosecond(nanos: i128) -> (r: Option<Timestamp>)
        ensures
            r is Some <==> in_time_range(nanos as int),
            r matches Some(t) ==> t@ == nanos && t == stamp(nanos as int),
    {
        if MIN_NANOS <= nanos && nanos <= MAX_NANOS {
            Some(Timestamp { nanos })
        } else {
            None
        }
    }

    /// Nanoseconds since the epoch.
    pub fn as_nanosecond(&self) -> (n: i128)
        ensures
            n == self@,
            in_time_range(n as int),
    {
        proof {
            use_type_invariant(self);
        }
        self.nanos
    }

    /// Whether this instant comes strictly before `other`.
    pub fn is_before(&self, other: &Timestamp) -> (r: bool)
        ensures
            r == (self@ < other@),
    {
        self.nanos < other.nanos
    }

    /// The instant `hours` hours later.
    pub fn plus_hours(&self, hours: u8) -> (r: Timestamp)
        requires
            self@ + hours * HOUR_NANOS <= MAX_NANOS,
        ensures
            r@ == self@ + hours * HOUR_NANOS,
            r == stamp(self@ + hours * HOUR_NANOS),
    {
        proof {
            use_type_invariant(self);
        }
        Timestamp { nanos: self.nanos + (hours as i128) * HOUR_NANOS }
    }
}

/// What `jiff` makes of `text` read as a civil date (`jiff::civil::Date`'s
/// `FromStr`), placed at the time of day `hour:minute:second`
/// (`civil::Time::new`) in the time zone of fixed offset `offset_seconds`
/// east of UTC (`tz::Offset::from_seconds`, `TimeZone::fixed`): the
/// nanoseconds since the epoch of that instant, or `None` where the text is
/// no date, the time or offset is refused, or the instant is out of range.
pub uninterp spec fn civil_instant_of(
    text: Seq<char>,
    hour: int,
    minute: int,
    second: int,
    offset_seconds: int,
) -> Option<int>;

/// The instant a `YYYY-MM-DD` date stands for in requests: midnight at the
/// start of that day, in UTC.
pub open spec fn utc_midnight_of(text: Seq<char>) -> Option<int> {
    civil_instant_of(text, 0, 0, 0, 0)
}

/// The text that `jiff::Timestamp::strftime(pattern)` writes for the instant
/// `nanos` nanoseconds after the epoch, read in UTC; `None` where
/// `jiff::Timestamp::from_nanosecond` refuses the count.
pub uninterp spec fn strftime_text(nanos: int, pattern: Seq<char>) -> Option<Seq<char>>;

/// The date text of an instant, as the service writes it: its UTC calendar
/// date as `YYYY-MM-DD`, and the empty text for an instant `jiff` cannot
/// hold.
pub open spec fn date_text(nanos: int) -> Seq<char> {
    match strftime_text(nanos, "%Y-%m-%d"@) {
        Some(text) => text,
        None => Seq::empty(),
    }
}

/// Reads `text` as a civil date with `jiff::civil::Date::from_str`, places it
/// at `hour:minute:second` (`civil::Time::new`, `to_datetime`) in the fixed
/// offset `offset_seconds` (`tz::Offset::from_seconds`, `TimeZone::fixed`,
/// `to_zoned`) and takes its instant (`timestamp`, `as_nanosecond`). The
/// contract claims that the result is what `civil_instant_of` names for the
/// arguments, and nothing more.
#[verifier::external_body]
fn civil_instant(text: &str, hour: i8, minute: i8, second: i8, offset_seconds: i32) -> (r: Option<Timestamp>)
    ensures
        r is None ==> civil_instant_of(text@, hour as int, minute as int, second as int, offset_seconds as int) is None,
        r matches Some(t) ==> civil_instant_of(text@, hour as int, minute as int, second as int, offset_seconds as int)
            == Some(t@),
{
    let date = jiff::civil::Date::from_str(text).ok()?;
    let time = jiff::civil::Time::new(hour, minute, second, 0).ok()?;
    let offset = jiff::tz::Offset::from_seconds(offset_seconds).ok()?;
    let zoned = date.to_datetime(time).to_zoned(jiff::tz::TimeZone::fixed(offset)).ok()?;
    Some(Timestamp { nanos: zoned.timestamp().as_nanosecond() })
}

/// Writes the instant `t` with `jiff::Timestamp::from_nanosecond` and
/// `strftime(pattern)`, which reads the instant in UTC and never fails. The
/// contract claims that the result is what `strftime_text` names for the
/// instant and the pattern.
#[verifier::external_body]
fn strftime_instant(t: &Timestamp, pattern: &str) -> (r: Option<String>)
    ensures
        r is None ==> strftime_text(t@, pattern@) is None,
        r matches Some(s) ==> strftime_text(t@, pattern@) == Some(s@),
{
    match jiff::Timestamp::from_nanosecond(t.nanos) {
        Ok(ts) => Some(ts.strftime(pattern).to_string()),
        Err(_) => None,
    }
}

/// Reads a `YYYY-MM-DD` date as midnight UTC of that day; `None` where the
/// text is no such date.
pub fn parse_date(text: &str) -> (r: Option<Timestamp>)
    ensures
        utc_midnight_of(text@) is Some <==> r is Some,
        r matches Some(t) ==> utc_midnight_of(text@) == Some(t@),
{
    civil_instant(text, 0, 0, 0, 0)
}

/// Writes the UTC calendar date of `t` as `YYYY-MM-DD`.
pub fn format_date(t: &Timestamp) -> (r: String)
    ensures
        r@ == date_text(t@),
{
    match strftime_instant(t, "%Y-%m-%d") {
        Some(text) => text,
        None => String::new(),
    }
}

} // verus!
