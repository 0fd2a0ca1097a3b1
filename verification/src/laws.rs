//! What holds of the walk through the recognizers for every input, proved
//! from the definitions of the other modules.

use crate::calendar::{naive_date_parsed, naive_datetime_parsed, rfc3339_parsed};
use crate::cascade::{
    attempt, decider, parse_spec, utc_date_spec, utc_datetime_spec, RECOGNIZERS,
};
use crate::moment::{Time, Timestamp};
use crate::text::{all_white_space, byte_len, trimmed, trimmed_ignores_padding};
use vstd::prelude::*;
use vstd::utf8::*;

verus! {

/// The decider lies between `from` and `RECOGNIZERS`; no recognizer from
/// `from` up to it accepts `text`; and unless it is `RECOGNIZERS`, the
/// recognizer of that rank does.
pub proof fn decider_is_first(text: Seq<char>, from: int)
    requires
        0 <= from <= RECOGNIZERS,
    ensures
        from <= decider(text, from) <= RECOGNIZERS,
        forall|rank: int| from <= rank < decider(text, from) ==> attempt(rank, text).is_none(),
        decider(text, from) < RECOGNIZERS ==> attempt(decider(text, from), text).is_some(),
    decreases RECOGNIZERS - from,
{
    if from < RECOGNIZERS && attempt(from, text).is_none() {
        decider_is_first(text, from + 1);
    }
}

/// Parsing is a function of the text: two results for one input are equal.
pub proof fn parse_is_repeatable(s: Seq<char>, first: Option<Timestamp>, second: Option<Timestamp>)
    requires
        first == parse_spec(s),
        second == parse_spec(s),
    ensures
        first == second,
{
}

/// The first recognizer that accepts the trimmed input decides: where the
/// recognizer of rank `rank` accepts it and none before does, the result is
/// that recognizer's answer, whatever the later ones would say.
pub proof fn first_match_wins(s: Seq<char>, rank: int)
    requires
        0 <= rank < RECOGNIZERS,
        attempt(rank, trimmed(s)).is_some(),
        forall|earlier: int| 0 <= earlier < rank ==> attempt(earlier, trimmed(s)).is_none(),
    ensures
        decider(trimmed(s), 0) == rank,
        parse_spec(s) == attempt(rank, trimmed(s)),
{
    decider_is_first(trimmed(s), 0);
}

/// An input that, trimmed, is a complete RFC 3339 timestamp gets exactly
/// that timestamp, with the offset it carries: no recognizer that cuts the
/// text or appends to it is asked.
pub proof fn full_timestamp_preferred(s: Seq<char>, whole: Timestamp)
    requires
        rfc3339_parsed(trimmed(s)) == Some(whole),
    ensures
        parse_spec(s) == Some(whole),
{
}

/// The result is `None` exactly where no recognizer accepts the trimmed
/// input.
pub proof fn absent_iff_all_reject(s: Seq<char>)
    ensures
        parse_spec(s).is_none() <==> (forall|rank: int|
            0 <= rank < RECOGNIZERS ==> attempt(rank, trimmed(s)).is_none()),
{
    decider_is_first(trimmed(s), 0);
}

/// A result, where there is one, is the answer of one recognizer, and every
/// recognizer of lower rank rejected the trimmed input.
pub proof fn result_has_one_source(s: Seq<char>)
    requires
        parse_spec(s).is_some(),
    ensures
        0 <= decider(trimmed(s), 0) < RECOGNIZERS,
        parse_spec(s) == attempt(decider(trimmed(s), 0), trimmed(s)),
        forall|earlier: int|
            0 <= earlier < decider(trimmed(s), 0) ==> attempt(earlier, trimmed(s)).is_none(),
{
    decider_is_first(trimmed(s), 0);
}

/// A date and time read without offset are taken as UTC as they stand,
/// whatever the layout: the result has offset zero and the very date and
/// time that were read.
pub proof fn utc_datetime_keeps_what_was_read(s: Seq<char>, layout: Seq<char>)
    ensures
        match utc_datetime_spec(s, layout) {
            Some(t) => t.offset == 0 && naive_datetime_parsed(s, layout) == Some((t.date, t.time)),
            None => naive_datetime_parsed(s, layout).is_none(),
        },
{
}

/// A date read alone is taken as its own midnight in UTC, whatever the
/// layout: the result has offset zero, the very date that was read, and
/// the time 00:00:00 with no fraction.
pub proof fn utc_date_is_midnight_of_what_was_read(s: Seq<char>, layout: Seq<char>)
    ensures
        match utc_date_spec(s, layout) {
            Some(t) => t.offset == 0 && naive_date_parsed(s, layout) == Some(t.date) && t.time
                == (Time { hour: 0, minute: 0, second: 0, nanosecond: 0 }),
            None => naive_date_parsed(s, layout).is_none(),
        },
{
}

/// White space before and after a text changes nothing: the padded text
/// gets the result of the text itself.
pub proof fn padding_is_ignored(lead: Seq<char>, s: Seq<char>, trail: Seq<char>)
    requires
        all_white_space(lead),
        all_white_space(trail),
    ensures
        parse_spec(lead + s + trail) == parse_spec(s),
{
    trimmed_ignores_padding(lead, s, trail);
}

/// The number of bytes at which the recognizer of rank `rank` cuts the
/// text, for those that cut.
pub open spec fn cut_length(rank: int) -> Option<nat> {
    if rank == 1 {
        Some(20)
    } else if rank == 2 {
        Some(19)
    } else if rank == 5 {
        Some(16)
    } else if rank == 6 {
        Some(13)
    } else if rank == 7 {
        Some(10)
    } else {
        None
    }
}

/// A recognizer that cuts the text rejects a text that is shorter than its
/// length, or in which that length falls inside a character.
pub proof fn uncut_is_rejected(rank: int, text: Seq<char>)
    requires
        cut_length(rank) matches Some(len) && (byte_len(text) < len || !is_char_boundary(
            encode_utf8(text),
            len as int,
        )),
    ensures
        attempt(rank, text).is_none(),
{
}

} // verus!
