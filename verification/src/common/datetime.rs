//! Calendar parsing through `chrono`, reduced to plain numbers.
use vstd::prelude::*;

verus! {

/// A wall-clock date and time without a time zone, as the number of whole
/// seconds since 1970-01-01 00:00:00 on that clock and the nanoseconds past
/// that second (above 999,999,999 only inside a leap second).
#[derive(Clone, Copy, Debug, PartialEq, Eq, Structural)]
pub struct LocalDateTime {
    /// Whole seconds since 1970-01-01 00:00:00 of the same clock.
    pub secs: i64,
    /// Nanoseconds past `secs`.
    pub nanos: u32,
}

/// What `chrono::NaiveDateTime::parse_from_str` yields for a text and a
/// format, reduced to a [`LocalDateTime`]; `None` where it reports an error.
pub uninterp spec fn chrono_naive_datetime_parse(text: Seq<char>, fmt: Seq<char>) -> Option<LocalDateTime>;

/// What `chrono::NaiveDate::parse_from_str` yields for a text and a format,
/// reduced to the seconds since 1970-01-01 of that date's midnight; `None`
/// where it reports an error.
pub uninterp spec fn chrono_naive_date_parse(text: Seq<char>, fmt: Seq<char>) -> Option<i64>;

/// Parses a naive date and time with `chrono::NaiveDateTime::parse_from_str`.
///
/// The result is a function of the text and the format alone; the contract
/// names it and says nothing of chrono's format language. The parsed value is
/// read back with chrono's `and_utc().timestamp()` and
/// `timestamp_subsec_nanos()`, which count the wall clock as if it were UTC.
#[verifier::external_body]
pub(crate) fn parse_naive_datetime(text: &str, fmt: &str) -> (r: Option<LocalDateTime>)
    ensures
        r == chrono_naive_datetime_parse(text@, fmt@),
{
    chrono::NaiveDateTime::parse_from_str(text, fmt).ok().map(|dt| {
        let utc = dt.and_utc();
        LocalDateTime { secs: utc.timestamp(), nanos: utc.timestamp_subsec_nanos() }
    })
}

/// Parses a naive date with `chrono::NaiveDate::parse_from_str`.
///
/// The result is a function of the text and the format alone; the contract
/// names it and says nothing of chrono's format language. The date is read
/// back as the `and_utc().timestamp()` of its midnight.
#[verifier::external_body]
pub(crate) fn parse_naive_date(text: &str, fmt: &str) -> (r: Option<i64>)
    ensures
        r == chrono_naive_date_parse(text@, fmt@),
{
    chrono::NaiveDate::parse_from_str(text, fmt).ok().map(|d| {
        d.and_time(chrono::NaiveTime::MIN).and_utc().timestamp()
    })
}

} // verus!
