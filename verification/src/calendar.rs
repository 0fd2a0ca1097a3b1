//! The parsers of the `chrono` crate, each behind a contract that names its
//! result.
//!
//! Nothing in this file is proved: the contracts record what the rest of
//! the library takes from `chrono`. Each parser is a function of its
//! arguments alone, which is what gives its result a name. What it returns
//! is handed on as plain fields: the date and time as a clock at the parsed
//! offset shows them, and the offset in seconds east of UTC.

use crate::moment::{Date, Time, Timestamp};
use crate::text::names_lowest_year_spec;
use chrono::{Datelike, Timelike};
use vstd::prelude::*;

verus! {

/// What `chrono::DateTime::parse_from_rfc3339` makes of `s`.
pub uninterp spec fn rfc3339_parsed(s: Seq<char>) -> Option<Timestamp>;

/// What `chrono::DateTime::parse_from_rfc2822` makes of `s`.
pub uninterp spec fn rfc2822_parsed(s: Seq<char>) -> Option<Timestamp>;

/// What `chrono::DateTime::parse_from_str` makes of `s` under the strftime
/// layout `layout`.
pub uninterp spec fn zoned_parsed(s: Seq<char>, layout: Seq<char>) -> Option<Timestamp>;

/// What `chrono::NaiveDateTime::parse_from_str` makes of `s` under `layout`.
pub uninterp spec fn naive_datetime_parsed(s: Seq<char>, layout: Seq<char>) -> Option<(Date, Time)>;

/// What `chrono::NaiveDate::parse_from_str` makes of `s` under `layout`.
pub uninterp spec fn naive_date_parsed(s: Seq<char>, layout: Seq<char>) -> Option<Date>;

/// The layouts with date, time and offset that the recognizers use.
pub open spec fn zoned_layout(layout: Seq<char>) -> bool {
    ||| layout == "%Y-%m-%d %H:%M:%S%.3f %z"@
    ||| layout == "%a %b %d %H:%M:%S %z %Y"@
}

/// The layout with date and time, and no offset, that the recognizers use.
pub open spec fn naive_datetime_layout(layout: Seq<char>) -> bool {
    layout == "%Y-%m-%d %H:%M:%S%.3f"@
}

/// The layouts of a date alone that the recognizers use.
pub open spec fn date_layout(layout: Seq<char>) -> bool {
    ||| layout == "%b %d %Y"@
    ||| layout == "%b %e %Y"@
    ||| layout == "%B %d %Y"@
    ||| layout == "%B %e %Y"@
    ||| layout == "%b %d, %Y"@
    ||| layout == "%b %e, %Y"@
    ||| layout == "%B %d, %Y"@
    ||| layout == "%B %e, %Y"@
    ||| layout == "%m/%d/%Y"@
    ||| layout == "%d.%m.%Y"@
}

/// Whether `s` ends with the characters of `tail`.
pub open spec fn ends_with(s: Seq<char>, tail: Seq<char>) -> bool {
    tail.len() <= s.len() && s.skip(s.len() - tail.len()) =~= tail
}

/// Calls `chrono::DateTime::parse_from_rfc3339` and reads the fields of what
/// it returns; an error becomes `None`.
///
/// Trusted: the call returns for every text. Its result depends on the text
/// alone. The date is one of the calendar, the time one of the clock, and
/// the offset less than a day, as `chrono` holds no other. A text that is
/// accepted and ends in `Z` has offset zero: the offset is the last thing
/// that the grammar reads, and `Z` is its spelling of UTC.
#[verifier::external_body]
pub(crate) fn rfc3339(s: &str) -> (r: Option<Timestamp>)
    ensures
        r == rfc3339_parsed(s@),
        r matches Some(t) ==> t.well_formed(),
        r matches Some(t) ==> (ends_with(s@, "Z"@) ==> t.offset == 0),
{
    match chrono::DateTime::parse_from_rfc3339(s) {
        Ok(d) => Some(Timestamp {
            date: Date { year: d.year(), month: d.month(), day: d.day() },
            time: Time {
                hour: d.hour(),
                minute: d.minute(),
                second: d.second(),
                nanosecond: d.nanosecond(),
            },
            offset: d.offset().local_minus_utc(),
        }),
        Err(_) => None,
    }
}

/// Calls `chrono::DateTime::parse_from_rfc2822` and reads the fields of what
/// it returns; an error becomes `None`.
///
/// Trusted: the call returns for every text. Its result depends on the text
/// alone. The date is one of the calendar, the time one of the clock, and
/// the offset less than a day, as `chrono` holds no other. A text that is
/// accepted and ends in `+0000` has offset zero: nothing but the zone can
/// stand last and end in a digit, and a zone in digits is a sign and four
/// of them.
#[verifier::external_body]
pub(crate) fn rfc2822(s: &str) -> (r: Option<Timestamp>)
    ensures
        r == rfc2822_parsed(s@),
        r matches Some(t) ==> t.well_formed(),
        r matches Some(t) ==> (ends_with(s@, "+0000"@) ==> t.offset == 0),
{
    match chrono::DateTime::parse_from_rfc2822(s) {
        Ok(d) => Some(Timestamp {
            date: Date { year: d.year(), month: d.month(), day: d.day() },
            time: Time {
                hour: d.hour(),
                minute: d.minute(),
                second: d.second(),
                nanosecond: d.nanosecond(),
            },
            offset: d.offset().local_minus_utc(),
        }),
        Err(_) => None,
    }
}

/// Calls `chrono::DateTime::parse_from_str` with the strftime layout
/// `layout` and reads the fields of what it returns; an error becomes `None`.
///
/// Trusted: under the layouts admitted here the call returns for every
/// text that does not write out the year -262144. That year is the lowest
/// that `chrono` holds: a leap second on its first day, moved to UTC, can
/// lie before the calendar, and `chrono` then panics. No other year can
/// come from a text without that year in it, as the layouts read the year
/// from a sign and digits alone. The result depends on text and layout
/// alone. The date is one of the calendar, the time one of the clock, and
/// the offset less than a day, as `chrono` holds no other.
#[verifier::external_body]
pub(crate) fn zoned(s: &str, layout: &str) -> (r: Option<Timestamp>)
    requires
        zoned_layout(layout@),
        !names_lowest_year_spec(s@),
    ensures
        r == zoned_parsed(s@, layout@),
        r matches Some(t) ==> t.well_formed(),
{
    match chrono::DateTime::parse_from_str(s, layout) {
        Ok(d) => Some(Timestamp {
            date: Date { year: d.year(), month: d.month(), day: d.day() },
            time: Time {
                hour: d.hour(),
                minute: d.minute(),
                second: d.second(),
                nanosecond: d.nanosecond(),
            },
            offset: d.offset().local_minus_utc(),
        }),
        Err(_) => None,
    }
}

/// Calls `chrono::NaiveDateTime::parse_from_str` with the strftime layout
/// `layout` and reads the fields of what it returns; an error becomes `None`.
///
/// Trusted: under the layout admitted here the call returns for every
/// text. Its result depends on text and layout alone. The date is one of
/// the calendar and the time one of the clock, as `chrono` holds no other.
#[verifier::external_body]
pub(crate) fn naive_datetime(s: &str, layout: &str) -> (r: Option<(Date, Time)>)
    requires
        naive_datetime_layout(layout@),
    ensures
        r == naive_datetime_parsed(s@, layout@),
        r matches Some(dt) ==> dt.0.well_formed() && dt.1.well_formed(),
{
    match chrono::NaiveDateTime::parse_from_str(s, layout) {
        Ok(d) => Some((
            Date { year: d.year(), month: d.month(), day: d.day() },
            Time {
                hour: d.hour(),
                minute: d.minute(),
                second: d.second(),
                nanosecond: d.nanosecond(),
            },
        )),
        Err(_) => None,
    }
}

/// Calls `chrono::NaiveDate::parse_from_str` with the strftime layout
/// `layout` and reads the fields of what it returns; an error becomes `None`.
///
/// Trusted: under the layouts admitted here the call returns for every
/// text. Its result depends on text and layout alone. The date is one of
/// the calendar, as `chrono` holds no other.
#[verifier::external_body]
pub(crate) fn naive_date(s: &str, layout: &str) -> (r: Option<Date>)
    requires
        date_layout(layout@),
    ensures
        r == naive_date_parsed(s@, layout@),
        r matches Some(d) ==> d.well_formed(),
{
    match chrono::NaiveDate::parse_from_str(s, layout) {
        Ok(d) => Some(Date { year: d.year(), month: d.month(), day: d.day() }),
        Err(_) => None,
    }
}

} // verus!
