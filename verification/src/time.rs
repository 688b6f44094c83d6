//! Instants on the UTC time line, held as plain integers.

use vstd::prelude::*;

verus! {

/// An instant: whole seconds since the Unix epoch plus the nanoseconds into
/// that second. Instants are ordered by `secs`, then by `nanos`.
#[derive(Clone, Copy, Debug, PartialEq, Eq, Structural)]
pub struct Timestamp {
    pub secs: i64,
    pub nanos: u32,
}

impl Timestamp {
    /// `self` is at or before `other`.
    pub open spec fn not_after(self, other: Timestamp) -> bool {
        self.secs < other.secs || (self.secs == other.secs && self.nanos <= other.nanos)
    }

    /// The instant `seconds` later, or earlier for a negative number.
    pub open spec fn shifted(self, seconds: int) -> Timestamp
        recommends
            i64::MIN <= self.secs + seconds <= i64::MAX,
    {
        Timestamp { secs: (self.secs + seconds) as i64, nanos: self.nanos }
    }

    /// Whether `self` is at or before `other`.
    pub fn at_or_before(&self, other: &Timestamp) -> (r: bool)
        ensures
            r == self.not_after(*other),
    {
        self.secs < other.secs || (self.secs == other.secs && self.nanos <= other.nanos)
    }

    /// The instant `seconds` after `self`.
    pub fn plus_seconds(&self, seconds: i64) -> (r: Timestamp)
        requires
            i64::MIN <= self.secs + seconds <= i64::MAX,
        ensures
            r == self.shifted(seconds as int),
    {
        Timestamp { secs: self.secs + seconds, nanos: self.nanos }
    }
}

/// Whether `chrono` has a date and time for the instant `nanos` nanoseconds
/// into the second `secs` after the epoch: whether
/// `DateTime::from_timestamp(secs, nanos)` is `Some`.
pub uninterp spec fn representable(secs: i64, nanos: u32) -> bool;

/// Calls `chrono::DateTime::from_timestamp` and reads the result back through
/// `timestamp` and `timestamp_subsec_nanos`. `chrono` refuses seconds beyond
/// the dates it can hold and nanoseconds that make no second; an accepted
/// instant reads back as the seconds and nanoseconds given.
#[verifier::external_body]
pub(crate) fn instant_at(secs: i64, nanos: u32) -> (r: Option<Timestamp>)
    ensures
        r is Some <==> representable(secs, nanos),
        r matches Some(t) ==> t.secs == secs && t.nanos == nanos,
{
    chrono::DateTime::from_timestamp(secs, nanos).map(
        |d| Timestamp { secs: d.timestamp(), nanos: d.timestamp_subsec_nanos() },
    )
}

/// The instant that `chrono` reads from `text` as an RFC 3339 date and time,
/// or the `Display` text of its error.
pub uninterp spec fn rfc3339_instant(text: Seq<char>) -> Result<Timestamp, Seq<char>>;

/// The instant that `chrono` reads from `text` in its relaxed RFC 3339 form,
/// which also takes a space between date and time, or the `Display` text of
/// its error.
pub uninterp spec fn relaxed_instant(text: Seq<char>) -> Result<Timestamp, Seq<char>>;

/// The plain form of a parse result.
pub open spec fn instant_view(r: Result<Timestamp, String>) -> Result<Timestamp, Seq<char>> {
    match r {
        Ok(t) => Ok(t),
        Err(why) => Err(why@),
    }
}

/// Calls `chrono::DateTime::parse_from_rfc3339` and reads the instant through
/// `timestamp` and `timestamp_subsec_nanos`, an error through its `Display`.
/// The text alone decides the outcome, which the contract names.
#[verifier::external_body]
pub(crate) fn parse_rfc3339(text: &str) -> (r: Result<Timestamp, String>)
    ensures
        instant_view(r) == rfc3339_instant(text@),
{
    chrono::DateTime::parse_from_rfc3339(text).map(
        |d| Timestamp { secs: d.timestamp(), nanos: d.timestamp_subsec_nanos() },
    ).map_err(|e| e.to_string())
}

/// Calls `str::parse` for a `chrono::DateTime<chrono::FixedOffset>`, the
/// parser behind `chrono`'s serde support, and reads the result as
/// `parse_rfc3339` does. The text alone decides the outcome, which the
/// contract names.
#[verifier::external_body]
pub(crate) fn parse_relaxed(text: &str) -> (r: Result<Timestamp, String>)
    ensures
        instant_view(r) == relaxed_instant(text@),
{
    text.parse::<chrono::DateTime<chrono::FixedOffset>>().map(
        |d| Timestamp { secs: d.timestamp(), nanos: d.timestamp_subsec_nanos() },
    ).map_err(|e| e.to_string())
}

/// A day, as year, month and day of the month.
pub open spec fn day_pattern() -> Seq<char> {
    "%Y-%m-%d"@
}

/// A day with the hour and the minute.
pub open spec fn minute_pattern() -> Seq<char> {
    "%Y-%m-%d %H:%M"@
}

/// What `chrono` writes for the UTC date and time of `t` under the `strftime`
/// pattern `pattern`, or `None` where it has no date and time for `t`.
pub uninterp spec fn calendar_text(t: Timestamp, pattern: Seq<char>) -> Option<Seq<char>>;

/// Calls `chrono::DateTime::from_timestamp` and, on the date and time it
/// gives, `format` with `pattern`, and renders the result by its `Display`.
/// The instant and the pattern decide the text, which the contract names;
/// there is a text exactly where `chrono` has a date and time for the
/// instant. Only the two patterns of this library are admitted: rendering
/// panics on a pattern that `chrono` cannot read.
#[verifier::external_body]
pub(crate) fn format_instant(t: &Timestamp, pattern: &str) -> (r: Option<String>)
    requires
        pattern@ == day_pattern() || pattern@ == minute_pattern(),
    ensures
        r.deep_view() == calendar_text(*t, pattern@),
        r is Some <==> representable(t.secs, t.nanos),
{
    chrono::DateTime::from_timestamp(t.secs, t.nanos).map(|d| d.format(pattern).to_string())
}

/// The text of a date on screen: what the calendar writes, or nothing where
/// it has no date for the instant.
pub open spec fn shown_date(t: Timestamp, pattern: Seq<char>) -> Seq<char> {
    match calendar_text(t, pattern) {
        Some(text) => text,
        None => Seq::empty(),
    }
}

/// The day of `t`, as in `2024-01-15`.
pub fn day_text(t: &Timestamp) -> (s: String)
    ensures
        s@ == shown_date(*t, day_pattern()),
{
    match format_instant(t, "%Y-%m-%d") {
        Some(text) => text,
        None => String::new(),
    }
}

/// The day and minute of `t`, as in `2024-01-15 10:30`.
pub fn minute_text(t: &Timestamp) -> (s: String)
    ensures
        s@ == shown_date(*t, minute_pattern()),
{
    match format_instant(t, "%Y-%m-%d %H:%M") {
        Some(text) => text,
        None => String::new(),
    }
}

} // verus!
