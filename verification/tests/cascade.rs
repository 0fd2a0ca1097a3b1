use diligent_date_parser::{parse_date, recognize, Date, Time, Timestamp, RECOGNIZERS};

fn stamp(
    year: i32,
    month: u32,
    day: u32,
    hour: u32,
    minute: u32,
    second: u32,
    offset: i32,
) -> Timestamp {
    Timestamp {
        date: Date { year, month, day },
        time: Time { hour, minute, second, nanosecond: 0 },
        offset,
    }
}

fn samples() -> Vec<&'static str> {
    vec![
        "2011-11-17T08:00:00-08:00",
        "2011-11-23T18:12:20Z",
        "2010-02-17T00:00:00ZT00:00:00-08:00",
        "2013-03-20T10:46:37.600732+02:00",
        "2014-01-08T01:18:21",
        "2014-01-07T20:45",
        "2014-01-08T13",
        "2014-01-11",
        "2014-01-11 01:18:21 +0100",
        " 2014-01-11 01:18:21.125 ",
        "Fri, 13 Aug 2010 00:49:00 +0700",
        "Fri, 14 Nov 2014 17:16:12 PST",
        "Tue,  3  Jul 2012 23:02:36 +0400",
        "Tue, 3 Jul 2012 23:02:36",
        "Tue, 3 Jul 2012 23:02",
        "Tue, 3 Jul 2012 23",
        "Tue, 3 Jul 2012",
        " 7 Apr 2016",
        "Sun Dec 24 13:19:25 +0200 2017",
        "Apr 21 2016",
        " Apr  1, 2016",
        "  April 01, 2016",
        "April 21 2016",
        "04/21/2016",
        "14.04.2016",
        "Yesterday",
        "",
        "   ",
        "2014-01-0é",
        "日本語のテキスト、日付ではない",
        "2014-01-11T01:18:2é",
    ]
}

#[test]
fn parsing_twice_gives_the_same() {
    for text in samples() {
        assert_eq!(parse_date(text), parse_date(text));
    }
}

#[test]
fn the_first_recognizer_that_accepts_decides() {
    for text in samples() {
        let trimmed = text.trim();
        let mut expected = None;
        let mut rank = 0;
        while rank < RECOGNIZERS {
            expected = recognize(rank, trimmed);
            if expected.is_some() {
                break;
            }
            rank += 1;
        }
        assert_eq!(parse_date(text), expected);
    }
}

#[test]
fn a_full_timestamp_keeps_its_offset() {
    assert_eq!(
        parse_date("2011-11-17T08:00:00-08:00"),
        Some(stamp(2011, 11, 17, 8, 0, 0, -8 * 3600))
    );
    // The first ten bytes alone would be midnight UTC.
    assert_eq!(
        recognize(7, "2011-11-17T08:00:00-08:00"),
        Some(stamp(2011, 11, 17, 0, 0, 0, 0))
    );
    assert_eq!(
        parse_date("2012-02-15T12:24:00+02:00"),
        Some(stamp(2012, 2, 15, 12, 24, 0, 2 * 3600))
    );
}

#[test]
fn a_text_without_offset_is_utc() {
    assert_eq!(parse_date("2014-01-11"), Some(stamp(2014, 1, 11, 0, 0, 0, 0)));
    let without_offset = [
        "2014-01-08T01:18:21",
        "2014-01-07T20:45",
        "2014-01-08T13",
        "2014-01-11",
        "2014-01-11 01:18:21",
        "Tue, 3 Jul 2012 23:02:36",
        "Tue, 3 Jul 2012 23:02",
        "Tue, 3 Jul 2012 23",
        "Tue, 3 Jul 2012",
        "Apr 21 2016",
        "April 21 2016",
        "Apr 21, 2016",
        "April 21, 2016",
        "04/21/2016",
        "14.04.2016",
    ];
    for text in without_offset {
        let parsed = parse_date(text).unwrap();
        assert_eq!(parsed.offset, 0);
    }
}

#[test]
fn an_offset_in_the_text_is_kept() {
    assert_eq!(parse_date("2011-11-17T08:00:00-08:00").unwrap().offset, -8 * 3600);
    assert_eq!(parse_date("2014-01-11 01:18:21 +0100").unwrap().offset, 3600);
    assert_eq!(parse_date("Fri, 13 Jul 2012 07:13:31 -0600").unwrap().offset, -6 * 3600);
    assert_eq!(parse_date("Fri, 16 May 2014 02:13:00 PDT").unwrap().offset, -7 * 3600);
    assert_eq!(parse_date("Sun Dec 24 13:19:25 -0200 2017").unwrap().offset, -2 * 3600);
}

#[test]
fn a_short_text_falls_through() {
    assert_eq!(parse_date("2014-01-1"), None);
    assert_eq!(parse_date("2014"), None);
    assert_eq!(parse_date("2"), None);
    // Too short for every cut but the last, which it passes.
    assert_eq!(parse_date("2014-01-11"), Some(stamp(2014, 1, 11, 0, 0, 0, 0)));
}

#[test]
fn a_cut_inside_a_character_falls_through() {
    // Byte 10 falls inside 'é'.
    assert_eq!(parse_date("2014-01-0é"), None);
    // Byte 19 falls inside 'é', byte 16 does not.
    assert_eq!(
        parse_date("2014-01-11T01:18:2é"),
        Some(stamp(2014, 1, 11, 1, 18, 0, 0))
    );
    // Byte 20 falls inside 'é', byte 19 does not.
    assert_eq!(
        parse_date("2014-01-11T01:18:21é"),
        Some(stamp(2014, 1, 11, 1, 18, 21, 0))
    );
    // Bytes 10, 13, 16, 19 and 20 all fall inside characters.
    assert_eq!(parse_date("日本語のテキスト"), None);
    assert_eq!(parse_date("😀😀😀😀😀😀"), None);
}

#[test]
fn white_space_around_the_text_is_ignored() {
    let expected = Some(stamp(2014, 1, 11, 1, 18, 21, 0));
    assert_eq!(parse_date("2014-01-11 01:18:21"), expected);
    assert_eq!(parse_date(" 2014-01-11 01:18:21 "), expected);
    assert_eq!(parse_date("\t\n 2014-01-11 01:18:21\r\n"), expected);
    assert_eq!(parse_date("\u{a0}2014-01-11 01:18:21\u{3000}"), expected);
    assert_eq!(parse_date("\u{2028}\u{85}2014-01-11 01:18:21\u{205f}\u{1680}"), expected);
    for text in samples() {
        let padded = format!(" \t{}\n\u{2003}", text);
        assert_eq!(parse_date(&padded), parse_date(text));
    }
}

#[test]
fn white_space_inside_a_mail_date_is_tolerated() {
    assert_eq!(
        parse_date("Tue,  3  Jul 2012 23:02:36 +0400"),
        Some(stamp(2012, 7, 3, 23, 2, 36, 4 * 3600))
    );
    assert_eq!(
        parse_date("Tue,  3  Jul 2012 23:02:36 +0400"),
        parse_date("Tue, 3 Jul 2012 23:02:36 +0400")
    );
}

#[test]
fn what_is_no_white_space_is_not_trimmed() {
    // U+200B, the zero width space, is no white space.
    assert_eq!(parse_date("\u{200b}2011-11-23T18:12:20Z"), None);
    assert_eq!(parse_date("_2011-11-23T18:12:20Z"), None);
}

#[test]
fn an_unknown_format_gives_nothing() {
    assert_eq!(parse_date("Yesterday"), None);
    assert_eq!(parse_date("3 days ago"), None);
    assert_eq!(parse_date("2014/01/11"), None);
    assert_eq!(parse_date("11:30"), None);
    assert_eq!(parse_date(""), None);
    assert_eq!(parse_date("   "), None);
    let mut rank = 0;
    while rank < RECOGNIZERS {
        assert_eq!(recognize(rank, "Yesterday"), None);
        rank += 1;
    }
}

#[test]
fn a_date_that_does_not_exist_gives_nothing() {
    assert_eq!(parse_date("30.02.2016"), None);
    assert_eq!(parse_date("13/01/2016"), None);
    assert_eq!(parse_date("Apr 31 2016"), None);
}

#[test]
fn timestamp_in_utc() {
    assert_eq!(
        parse_date("2011-11-23T18:12:20Z"),
        Some(stamp(2011, 11, 23, 18, 12, 20, 0))
    );
}

#[test]
fn mail_date_seven_hours_east() {
    // The same instant as 2010-08-12 17:49:00 UTC.
    assert_eq!(
        parse_date("Fri, 13 Aug 2010 00:49:00 +0700"),
        Some(stamp(2010, 8, 13, 0, 49, 0, 7 * 3600))
    );
}

#[test]
fn short_month_date() {
    assert_eq!(parse_date("Apr 21 2016"), Some(stamp(2016, 4, 21, 0, 0, 0, 0)));
}

#[test]
fn year_last_two_hours_east() {
    // The same instant as 2017-12-24 11:19:25 UTC.
    assert_eq!(
        parse_date("Sun Dec 24 13:19:25 +0200 2017"),
        Some(stamp(2017, 12, 24, 13, 19, 25, 2 * 3600))
    );
}

#[test]
fn european_date() {
    assert_eq!(parse_date("14.04.2016"), Some(stamp(2016, 4, 14, 0, 0, 0, 0)));
}

#[test]
fn fields_are_in_range() {
    for text in samples() {
        if let Some(parsed) = parse_date(text) {
            assert!((1..=12).contains(&parsed.date.month));
            assert!((1..=31).contains(&parsed.date.day));
            assert!(parsed.date.month != 2 || parsed.date.day <= 29);
            assert!(parsed.time.hour < 24);
            assert!(parsed.time.minute < 60);
            assert!(parsed.time.second < 60);
            assert!(parsed.time.nanosecond < 2_000_000_000);
            assert!(-86_400 < parsed.offset && parsed.offset < 86_400);
        }
    }
}

/// The code points with the Unicode property `White_Space`.
fn white_space() -> Vec<char> {
    let mut all = vec![' ', '\u{85}', '\u{a0}', '\u{1680}', '\u{2028}', '\u{2029}'];
    all.extend(['\u{202f}', '\u{205f}', '\u{3000}']);
    all.extend('\u{9}'..='\u{d}');
    all.extend('\u{2000}'..='\u{200a}');
    all
}

#[test]
fn every_white_space_character_is_trimmed() {
    let expected = Some(stamp(2011, 11, 23, 18, 12, 20, 0));
    for c in white_space() {
        assert_eq!(parse_date(&format!("{}2011-11-23T18:12:20Z", c)), expected);
        assert_eq!(parse_date(&format!("2011-11-23T18:12:20Z{}", c)), expected);
        assert_eq!(parse_date(&format!("{}{}2011-11-23T18:12:20Z{}", c, c, c)), expected);
    }
}

#[test]
fn no_other_character_is_trimmed() {
    let space = white_space();
    assert_eq!(space.len(), 25);
    // Every code point up to the last white space and a little beyond, then
    // one in every 257.
    let mut code = 0u32;
    while code <= 0x10ffff {
        if let Some(c) = char::from_u32(code) {
            if !space.contains(&c) {
                assert_eq!(parse_date(&format!("{}14.04.2016", c)), None);
                assert_eq!(parse_date(&format!("14.04.2016{}", c)), None);
            }
        }
        code += if code < 0x3100 { 1 } else { 257 };
    }
}
