use diligent_date_parser::{cut, names_lowest_year, suffix};

#[test]
fn cut_takes_the_first_bytes() {
    assert_eq!(cut("2014-01-11T01:18:21", 10), Some("2014-01-11"));
    assert_eq!(cut("2014-01-11T01:18:21", 13), Some("2014-01-11T01"));
    assert_eq!(cut("2014-01-11T01:18:21", 16), Some("2014-01-11T01:18"));
}

#[test]
fn cut_at_the_full_length_keeps_everything() {
    assert_eq!(cut("2014-01-11", 10), Some("2014-01-11"));
    assert_eq!(cut("", 0), Some(""));
}

#[test]
fn cut_at_zero_is_empty() {
    assert_eq!(cut("2014", 0), Some(""));
}

#[test]
fn cut_refuses_a_short_text() {
    assert_eq!(cut("2014-01-1", 10), None);
    assert_eq!(cut("", 1), None);
    assert_eq!(cut("Yesterday", 19), None);
}

#[test]
fn cut_refuses_to_split_a_character() {
    // 'é' takes bytes 9 and 10.
    let text = "2014-01-0é and more";
    assert_eq!(cut(text, 10), None);
    assert_eq!(cut(text, 9), Some("2014-01-0"));
    assert_eq!(cut(text, 11), Some("2014-01-0é"));
}

#[test]
fn cut_counts_bytes_not_characters() {
    // Three characters of three bytes each.
    let text = "日本語";
    assert_eq!(cut(text, 3), Some("日"));
    assert_eq!(cut(text, 6), Some("日本"));
    assert_eq!(cut(text, 9), Some("日本語"));
    assert_eq!(cut(text, 1), None);
    assert_eq!(cut(text, 2), None);
    assert_eq!(cut(text, 4), None);
    assert_eq!(cut(text, 10), None);
}

#[test]
fn cut_refuses_inside_a_four_byte_character() {
    let text = "a😀b";
    assert_eq!(cut(text, 1), Some("a"));
    assert_eq!(cut(text, 2), None);
    assert_eq!(cut(text, 3), None);
    assert_eq!(cut(text, 4), None);
    assert_eq!(cut(text, 5), Some("a😀"));
    assert_eq!(cut(text, 6), Some("a😀b"));
}

#[test]
fn suffix_appends() {
    assert_eq!(suffix("2014-01-11", "T00:00:00Z"), "2014-01-11T00:00:00Z");
    assert_eq!(suffix("Tue, 3 Jul 2012 23", ":00:00 +0000"), "Tue, 3 Jul 2012 23:00:00 +0000");
}

#[test]
fn suffix_with_an_empty_part() {
    assert_eq!(suffix("", "Z"), "Z");
    assert_eq!(suffix("abc", ""), "abc");
    assert_eq!(suffix("", ""), "");
}

#[test]
fn the_lowest_year_is_found() {
    assert!(names_lowest_year("-262144"));
    assert!(names_lowest_year("-262144-01-01 00:00:60 +0001"));
    assert!(names_lowest_year("Mon Jan 01 00:00:60 +0001 -262144"));
    assert!(names_lowest_year("x-262144y"));
    assert!(names_lowest_year("é-262144"));
}

#[test]
fn the_lowest_year_is_found_behind_zeros() {
    assert!(names_lowest_year("-0262144"));
    assert!(names_lowest_year("-000000262144-01-01"));
    assert!(names_lowest_year("-0-262144"));
    assert!(names_lowest_year("--262144"));
    assert!(names_lowest_year("-02621-0262144"));
}

#[test]
fn more_digits_behind_the_lowest_year_are_not_looked_at() {
    assert!(names_lowest_year("-2621440"));
    assert!(names_lowest_year("-262144262144"));
}

#[test]
fn other_years_are_not_the_lowest() {
    assert!(!names_lowest_year(""));
    assert!(!names_lowest_year("-"));
    assert!(!names_lowest_year("-0"));
    assert!(!names_lowest_year("-000"));
    assert!(!names_lowest_year("262144"));
    assert!(!names_lowest_year("+262144"));
    assert!(!names_lowest_year("-262143"));
    assert!(!names_lowest_year("-262145"));
    assert!(!names_lowest_year("-26214"));
    assert!(!names_lowest_year("-2621"));
    assert!(!names_lowest_year("-1262144"));
    assert!(!names_lowest_year("- 262144"));
    assert!(!names_lowest_year("-0 262144"));
    assert!(!names_lowest_year("-26 2144"));
    // U+2212, the minus sign, is not the hyphen that opens a year.
    assert!(!names_lowest_year("\u{2212}262144"));
    assert!(!names_lowest_year("2014-01-11 01:18:21.262144 +0100"));
    assert!(!names_lowest_year("2014-01-11 01:18:21 -0262"));
}
