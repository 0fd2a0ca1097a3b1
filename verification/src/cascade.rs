//! The ordered list of recognizers and the walk through it.
//!
//! Every recognizer sees the same trimmed input. The first one that accepts
//! it decides the result; the ones after it are not asked. By rank:
//!
//! | rank | reads | as |
//! |---|---|---|
//! | 0 | the text | RFC 3339 |
//! | 1 | its first 20 bytes | RFC 3339 |
//! | 2 | its first 19 bytes and `Z` | RFC 3339 |
//! | 3 | the text | `%Y-%m-%d %H:%M:%S%.3f %z` |
//! | 4 | the text | `%Y-%m-%d %H:%M:%S%.3f`, taken as UTC |
//! | 5 | its first 16 bytes and `:00Z` | RFC 3339 |
//! | 6 | its first 13 bytes and `:00:00Z` | RFC 3339 |
//! | 7 | its first 10 bytes and `T00:00:00Z` | RFC 3339 |
//! | 8 | the text | RFC 2822 |
//! | 9 | the text and ` +0000` | RFC 2822 |
//! | 10 | the text and `:00 +0000` | RFC 2822 |
//! | 11 | the text and `:00:00 +0000` | RFC 2822 |
//! | 12 | the text and ` 00:00:00 +0000` | RFC 2822 |
//! | 13 | the text | `%a %b %d %H:%M:%S %z %Y` |
//! | 14 to 23 | the text | a date alone, taken as midnight UTC: `%b %d %Y`, `%b %e %Y`, `%B %d %Y`, `%B %e %Y`, the same four with a comma after the day, `%m/%d/%Y`, `%d.%m.%Y` |
//!
//! A recognizer that reads the first bytes of the text rejects a text that
//! is shorter, or in which the last of these bytes is not the last of a
//! character. The recognizers of ranks 3 and 13 reject a text that writes
//! out the year -262144, the lowest of the calendar.

use crate::calendar::{
    date_layout, ends_with, naive_date, naive_date_parsed, naive_datetime, naive_datetime_layout,
    naive_datetime_parsed, rfc2822, rfc2822_parsed, rfc3339, rfc3339_parsed, zoned, zoned_layout,
    zoned_parsed,
};
use crate::moment::{Time, Timestamp};
use crate::text::{cut, cut_spec, names_lowest_year, names_lowest_year_spec, suffix, trimmed};
use vstd::prelude::*;
use vstd::string::*;

verus! {

/// The number of recognizers. Their ranks run from 0, tried first, to
/// `RECOGNIZERS - 1`.
pub const RECOGNIZERS: usize = 24;

/// What `offset_datetime` returns: date, time and offset as `layout` reads
/// them from `s`, and `None` for a text that writes out the year -262144.
pub open spec fn offset_datetime_spec(s: Seq<char>, layout: Seq<char>) -> Option<Timestamp> {
    if names_lowest_year_spec(s) {
        None
    } else {
        zoned_parsed(s, layout)
    }
}

/// What `utc_datetime` returns: date and time as `layout` reads them from
/// `s`, taken to be UTC.
pub open spec fn utc_datetime_spec(s: Seq<char>, layout: Seq<char>) -> Option<Timestamp> {
    match naive_datetime_parsed(s, layout) {
        Some(found) => Some(Timestamp::utc_spec(found.0, found.1)),
        None => None,
    }
}

/// What `utc_date` returns: midnight UTC of the day that `layout` reads
/// from `s`.
pub open spec fn utc_date_spec(s: Seq<char>, layout: Seq<char>) -> Option<Timestamp> {
    match naive_date_parsed(s, layout) {
        Some(date) => Some(Timestamp::utc_spec(date, Time::midnight_spec())),
        None => None,
    }
}

/// Reads date, time and offset from `string`. A text that writes out the
/// year -262144 is rejected unread: that year is the lowest of the
/// calendar, and a time in it may lie before the calendar once it is moved
/// to UTC.
pub(crate) fn offset_datetime(string: &str, format: &str) -> (r: Option<Timestamp>)
    requires
        zoned_layout(format@),
    ensures
        r == offset_datetime_spec(string@, format@),
        r matches Some(t) ==> t.well_formed(),
{
    if names_lowest_year(string) {
        None
    } else {
        zoned(string, format)
    }
}

/// Reads a date and time without offset from `string` and takes them to be
/// UTC.
pub(crate) fn utc_datetime(string: &str, format: &str) -> (r: Option<Timestamp>)
    requires
        naive_datetime_layout(format@),
    ensures
        r == utc_datetime_spec(string@, format@),
        r matches Some(t) ==> t.well_formed() && t.offset == 0,
{
    match naive_datetime(string, format) {
        Some((date, time)) => Some(Timestamp::utc(date, time)),
        None => None,
    }
}

/// Reads a date from `string` and returns its midnight, taken to be UTC.
pub(crate) fn utc_date(string: &str, format: &str) -> (r: Option<Timestamp>)
    requires
        date_layout(format@),
    ensures
        r == utc_date_spec(string@, format@),
        r matches Some(t) ==> t.well_formed() && t.offset == 0,
{
    match naive_date(string, format) {
        Some(date) => Some(Timestamp::utc(date, Time::midnight())),
        None => None,
    }
}

/// What the first `len` bytes of `text`, followed by `tail`, are as an
/// RFC 3339 timestamp; `None` where `text` cannot be cut there.
pub open spec fn rfc3339_head_spec(text: Seq<char>, len: nat, tail: Seq<char>) -> Option<
    Timestamp,
> {
    match cut_spec(text, len) {
        Some(head) => rfc3339_parsed(head + tail),
        None => None,
    }
}

/// What the recognizer of rank `rank` makes of the trimmed input `text`.
/// No rank from `RECOGNIZERS` on accepts anything.
pub open spec fn attempt(rank: int, text: Seq<char>) -> Option<Timestamp> {
    if rank == 0 {
        rfc3339_parsed(text)
    } else if rank == 1 {
        match cut_spec(text, 20) {
            Some(head) => rfc3339_parsed(head),
            None => None,
        }
    } else if rank == 2 {
        rfc3339_head_spec(text, 19, "Z"@)
    } else if rank == 3 {
        offset_datetime_spec(text, "%Y-%m-%d %H:%M:%S%.3f %z"@)
    } else if rank == 4 {
        utc_datetime_spec(text, "%Y-%m-%d %H:%M:%S%.3f"@)
    } else if rank == 5 {
        rfc3339_head_spec(text, 16, ":00Z"@)
    } else if rank == 6 {
        rfc3339_head_spec(text, 13, ":00:00Z"@)
    } else if rank == 7 {
        rfc3339_head_spec(text, 10, "T00:00:00Z"@)
    } else if rank == 8 {
        rfc2822_parsed(text)
    } else if rank == 9 {
        rfc2822_parsed(text + " +0000"@)
    } else if rank == 10 {
        rfc2822_parsed(text + ":00 +0000"@)
    } else if rank == 11 {
        rfc2822_parsed(text + ":00:00 +0000"@)
    } else if rank == 12 {
        rfc2822_parsed(text + " 00:00:00 +0000"@)
    } else if rank == 13 {
        offset_datetime_spec(text, "%a %b %d %H:%M:%S %z %Y"@)
    } else if rank == 14 {
        utc_date_spec(text, "%b %d %Y"@)
    } else if rank == 15 {
        utc_date_spec(text, "%b %e %Y"@)
    } else if rank == 16 {
        utc_date_spec(text, "%B %d %Y"@)
    } else if rank == 17 {
        utc_date_spec(text, "%B %e %Y"@)
    } else if rank == 18 {
        utc_date_spec(text, "%b %d, %Y"@)
    } else if rank == 19 {
        utc_date_spec(text, "%b %e, %Y"@)
    } else if rank == 20 {
        utc_date_spec(text, "%B %d, %Y"@)
    } else if rank == 21 {
        utc_date_spec(text, "%B %e, %Y"@)
    } else if rank == 22 {
        utc_date_spec(text, "%m/%d/%Y"@)
    } else if rank == 23 {
        utc_date_spec(text, "%d.%m.%Y"@)
    } else {
        None
    }
}

/// Whether the recognizer of rank `rank` is one that finds no offset in the
/// text and takes the time to be UTC: all but the ones that read an offset
/// from the text itself.
pub open spec fn assumes_utc(rank: int) -> bool {
    0 <= rank < RECOGNIZERS && rank != 0 && rank != 1 && rank != 3 && rank != 8 && rank != 13
}

/// The rank of the first recognizer from `from` on that accepts `text`, or
/// `RECOGNIZERS` where none of them does.
pub open spec fn decider(text: Seq<char>, from: int) -> int
    decreases RECOGNIZERS - from,
{
    if from >= RECOGNIZERS || attempt(from, text).is_some() {
        from
    } else {
        decider(text, from + 1)
    }
}

/// What `parse_date` returns for `s`: the answer of the first recognizer
/// that accepts `s` trimmed, and `None` where none accepts it.
pub open spec fn parse_spec(s: Seq<char>) -> Option<Timestamp> {
    attempt(decider(trimmed(s), 0), trimmed(s))
}

/// Reads the first `len` bytes of `text`, followed by `tail`, as an RFC 3339
/// timestamp. Where `text` is shorter than `len` bytes, or byte `len` falls
/// inside a character, nothing is parsed and the answer is `None`.
pub fn rfc3339_head(text: &str, len: usize, tail: &'static str) -> (r: Option<Timestamp>)
    ensures
        r == rfc3339_head_spec(text@, len as nat, tail@),
        r matches Some(t) ==> t.well_formed(),
        r matches Some(t) ==> (ends_with(tail@, "Z"@) ==> t.offset == 0),
{
    match cut(text, len) {
        Some(head) => {
            let candidate = suffix(head, tail);
            rfc3339(candidate.as_str())
        },
        None => None,
    }
}

/// Reads `text` followed by `tail` as an RFC 2822 date and time.
pub fn rfc2822_tail(text: &str, tail: &'static str) -> (r: Option<Timestamp>)
    ensures
        r == rfc2822_parsed(text@ + tail@),
        r matches Some(t) ==> t.well_formed(),
        r matches Some(t) ==> (ends_with(tail@, "+0000"@) ==> t.offset == 0),
{
    let candidate = suffix(text, tail);
    rfc2822(candidate.as_str())
}

/// Asks the recognizer of rank `rank` about `text`, which is taken as it
/// is: trimming is the caller's part.
pub fn recognize(rank: usize, text: &str) -> (r: Option<Timestamp>)
    ensures
        r == attempt(rank as int, text@),
        r matches Some(t) ==> t.well_formed(),
        r matches Some(t) ==> (assumes_utc(rank as int) ==> t.offset == 0),
{
    proof {
        reveal_strlit("Z");
        reveal_strlit(":00Z");
        reveal_strlit(":00:00Z");
        reveal_strlit("T00:00:00Z");
        reveal_strlit("+0000");
        reveal_strlit(" +0000");
        reveal_strlit(":00 +0000");
        reveal_strlit(":00:00 +0000");
        reveal_strlit(" 00:00:00 +0000");
    }
    match rank {
        0 => rfc3339(text),
        1 => match cut(text, 20) {
            Some(head) => rfc3339(head),
            None => None,
        },
        2 => rfc3339_head(text, 19, "Z"),
        3 => offset_datetime(text, "%Y-%m-%d %H:%M:%S%.3f %z"),
        4 => utc_datetime(text, "%Y-%m-%d %H:%M:%S%.3f"),
        5 => rfc3339_head(text, 16, ":00Z"),
        6 => rfc3339_head(text, 13, ":00:00Z"),
        7 => rfc3339_head(text, 10, "T00:00:00Z"),
        8 => rfc2822(text),
        9 => rfc2822_tail(text, " +0000"),
        10 => rfc2822_tail(text, ":00 +0000"),
        11 => rfc2822_tail(text, ":00:00 +0000"),
        12 => rfc2822_tail(text, " 00:00:00 +0000"),
        13 => offset_datetime(text, "%a %b %d %H:%M:%S %z %Y"),
        14 => utc_date(text, "%b %d %Y"),
        15 => utc_date(text, "%b %e %Y"),
        16 => utc_date(text, "%B %d %Y"),
        17 => utc_date(text, "%B %e %Y"),
        18 => utc_date(text, "%b %d, %Y"),
        19 => utc_date(text, "%b %e, %Y"),
        20 => utc_date(text, "%B %d, %Y"),
        21 => utc_date(text, "%B %e, %Y"),
        22 => utc_date(text, "%m/%d/%Y"),
        23 => utc_date(text, "%d.%m.%Y"),
        _ => None,
    }
}

/// Parses `string` in whichever of the known formats fits first.
///
/// The input is trimmed, then the recognizers are asked in the order of
/// their ranks. The first answer is returned as it is; `None` means that no
/// recognizer accepted the trimmed input.
pub fn parse_date(string: &str) -> (r: Option<Timestamp>)
    ensures
        r == parse_spec(string@),
        r matches Some(t) ==> t.well_formed(),
        r matches Some(t) ==> (assumes_utc(decider(trimmed(string@), 0)) ==> t.offset == 0),
{
    let text = string.trim();
    let mut rank: usize = 0;
    while rank < RECOGNIZERS
        invariant
            rank <= RECOGNIZERS,
            text@ == trimmed(string@),
            decider(text@, 0) == decider(text@, rank as int),
        decreases RECOGNIZERS - rank,
    {
        let found = recognize(rank, text);
        if found.is_some() {
            return found;
        }
        rank += 1;
    }
    None
}

} // verus!
