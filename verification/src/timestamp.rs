//! Naive date-times and the signed span between two of them. Reading a
//! date-time from text and subtracting two of them is the work of `chrono`.

use crate::error::{viewed, ScanError, ScanFailure};
use chrono::{Datelike, NaiveDate, NaiveDateTime, Timelike};
use vstd::prelude::*;
use vstd::string::StringExecFns;

verus! {

/// A date and a time of day without a time zone, field by field.
///
/// A leap second is held the way chrono holds it: `second == 59` together with
/// a `nanosecond` of at least 1_000_000_000.
#[derive(Clone, Copy, Debug, PartialEq, Eq, Structural)]
pub struct Timestamp {
    pub year: i32,
    pub month: u32,
    pub day: u32,
    pub hour: u32,
    pub minute: u32,
    pub second: u32,
    pub nanosecond: u32,
}

/// A signed span of time in whole seconds; negative where the end lies before
/// the start.
#[derive(Clone, Copy, Debug, PartialEq, Eq, Structural)]
pub struct Duration {
    pub seconds: i64,
}

/// The layout of a timestamp in a trace line: `YYYY-MM-DD HH:MM:SS`.
pub open spec fn layout() -> Seq<char> {
    "%Y-%m-%d %H:%M:%S"@
}

/// What `chrono::NaiveDateTime::parse_from_str` makes of `text` under `layout`:
/// the fields of the date-time it returns, or `None` where it reports an error.
pub uninterp spec fn parsed_timestamp(text: Seq<char>, layout: Seq<char>) -> Option<Timestamp>;

/// The whole seconds that chrono counts from `from` to `to`, as `num_seconds`
/// gives them for the difference of the two date-times; `None` where one of the
/// two is not a date-time that chrono can hold (a thirtieth of February, a
/// twenty-fifth hour).
pub uninterp spec fn elapsed_seconds(from: Timestamp, to: Timestamp) -> Option<i64>;

/// Calls `chrono::NaiveDateTime::parse_from_str` on `text` and `layout` and
/// copies the fields of the date-time out. The contract only names the result:
/// it is what chrono makes of these two strings.
#[verifier::external_body]
fn chrono_parse(text: &str, layout: &str) -> (r: Option<Timestamp>)
    ensures
        r == parsed_timestamp(text@, layout@),
{
    match NaiveDateTime::parse_from_str(text, layout) {
        Ok(t) => Some(
            Timestamp {
                year: t.year(),
                month: t.month(),
                day: t.day(),
                hour: t.hour(),
                minute: t.minute(),
                second: t.second(),
                nanosecond: t.nanosecond(),
            },
        ),
        Err(_) => None,
    }
}

/// Rebuilds the two date-times with `chrono::NaiveDate::from_ymd_opt` and
/// `and_hms_nano_opt`, subtracts the first from the second and takes
/// `num_seconds` of the difference. The contract only names the result; it is
/// `None` where chrono refuses to build one of the two.
#[verifier::external_body]
fn chrono_elapsed(from: &Timestamp, to: &Timestamp) -> (r: Option<i64>)
    ensures
        r == elapsed_seconds(*from, *to),
{
    let start = NaiveDate::from_ymd_opt(from.year, from.month, from.day)?
        .and_hms_nano_opt(from.hour, from.minute, from.second, from.nanosecond)?;
    let end = NaiveDate::from_ymd_opt(to.year, to.month, to.day)?
        .and_hms_nano_opt(to.hour, to.minute, to.second, to.nanosecond)?;
    Some((end - start).num_seconds())
}

/// The timestamp that `text` spells in the fixed layout.
pub open spec fn timestamp_of(text: Seq<char>) -> Option<Timestamp> {
    parsed_timestamp(text, layout())
}

/// What reading `text` as a timestamp comes to: the timestamp, or the text
/// that could not be read.
pub open spec fn reading(text: Seq<char>) -> Result<Timestamp, ScanFailure> {
    match timestamp_of(text) {
        Some(t) => Ok(t),
        None => Err(ScanFailure::Unparsable { text }),
    }
}

/// A count of seconds as a duration. Where there is no count, because one of
/// the two timestamps is none that a calendar holds, a timestamp is missing.
pub open spec fn span(elapsed: Option<i64>) -> Result<Duration, ScanFailure> {
    match elapsed {
        Some(seconds) => Ok(Duration { seconds }),
        None => Err(ScanFailure::MissingTimestamp),
    }
}

/// The duration from `from` to `to`.
pub open spec fn difference(from: Timestamp, to: Timestamp) -> Result<Duration, ScanFailure> {
    span(elapsed_seconds(from, to))
}

/// Reads a timestamp written as `YYYY-MM-DD HH:MM:SS`.
pub fn parse_datetime(dt: &str) -> (r: Result<Timestamp, ScanError>)
    ensures
        viewed(r) == reading(dt@),
{
    match chrono_parse(dt, "%Y-%m-%d %H:%M:%S") {
        Some(t) => Ok(t),
        None => Err(ScanError::Unparsable { text: String::from_str(dt) }),
    }
}

impl Duration {
    /// The duration of a count of seconds, if there is one.
    pub fn from_elapsed(elapsed: Option<i64>) -> (r: Result<Duration, ScanError>)
        ensures
            viewed(r) == span(elapsed),
    {
        match elapsed {
            Some(seconds) => Ok(Duration { seconds }),
            None => Err(ScanError::MissingTimestamp),
        }
    }
}

/// The time from `from` to `to`, negative where `to` is the earlier one.
pub fn between(from: &Timestamp, to: &Timestamp) -> (r: Result<Duration, ScanError>)
    ensures
        viewed(r) == difference(*from, *to),
{
    Duration::from_elapsed(chrono_elapsed(from, to))
}

} // verus!
