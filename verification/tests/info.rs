use svnlook::{SvnDate, SvnError, SvnInfo};

#[test]
fn info_parses_all_four_sections() {
    let bytes = b"alice\n2020-01-02 03:04:05 +0000 (ignored)\n5\nhello, and more\n";
    let info = SvnInfo::parse(7, bytes).expect("parses");
    assert_eq!(info.revision, 7);
    assert_eq!(info.committer, "alice");
    assert_eq!(
        info.date,
        SvnDate {
            year: 2020,
            month: 1,
            day: 2,
            hour: 3,
            minute: 4,
            second: 5,
            offset_seconds: 0,
        }
    );
    assert_eq!(info.message, "hello");
}

#[test]
fn info_keeps_delimiters_inside_message() {
    let bytes = b"bob\n1999-12-31 23:59:59 +0130 x\n11\nline\nline2\n trailing";
    let info = SvnInfo::parse(3, bytes).expect("parses");
    assert_eq!(info.committer, "bob");
    assert_eq!(info.message, "line\nline2\n");
    assert_eq!(info.date.year, 1999);
    assert_eq!(info.date.offset_seconds, 90 * 60);
}

#[test]
fn info_with_negative_offset() {
    let bytes = b"eve\n2001-06-15 12:00:00 -0700 tail\n0\n\n";
    let info = SvnInfo::parse(1, bytes).expect("parses");
    assert_eq!(info.date.offset_seconds, -7 * 3600);
    assert_eq!(info.message, "");
}

#[test]
fn info_non_numeric_length_is_parse_error() {
    let bytes = b"alice\n2020-01-02 03:04:05 +0000 x\nfive\nhello and more\n";
    assert_eq!(SvnInfo::parse(7, bytes).unwrap_err(), SvnError::ParseError);
}

#[test]
fn info_message_shorter_than_declared_is_parse_error() {
    let bytes = b"alice\n2020-01-02 03:04:05 +0000 x\n10\nhello\n";
    assert_eq!(SvnInfo::parse(7, bytes).unwrap_err(), SvnError::ParseError);
}

#[test]
fn info_message_exactly_declared_length_is_parse_error() {
    // The message section must be strictly longer than the declared count.
    let bytes = b"alice\n2020-01-02 03:04:05 +0000 x\n5\nhello";
    assert_eq!(SvnInfo::parse(7, bytes).unwrap_err(), SvnError::ParseError);
}

#[test]
fn info_date_section_not_longer_than_window_is_parse_error() {
    // Exactly 25 bytes of date section: the strict bound rejects it.
    let bytes = b"alice\n2020-01-02 03:04:05 +0000\n5\nhello and more\n";
    assert_eq!(SvnInfo::parse(7, bytes).unwrap_err(), SvnError::ParseError);
}

#[test]
fn info_bad_date_is_parse_error() {
    let bytes = b"alice\n2020-13-02 03:04:05 +0000 x\n5\nhello and more\n";
    assert_eq!(SvnInfo::parse(7, bytes).unwrap_err(), SvnError::ParseError);
}

#[test]
fn info_missing_sections_is_parse_error() {
    assert_eq!(SvnInfo::parse(7, b"").unwrap_err(), SvnError::ParseError);
    assert_eq!(SvnInfo::parse(7, b"alice").unwrap_err(), SvnError::ParseError);
    assert_eq!(
        SvnInfo::parse(7, b"alice\n2020-01-02 03:04:05 +0000 x").unwrap_err(),
        SvnError::ParseError
    );
    assert_eq!(
        SvnInfo::parse(7, b"alice\n2020-01-02 03:04:05 +0000 x\n5").unwrap_err(),
        SvnError::ParseError
    );
}

#[test]
fn info_empty_length_section_is_parse_error() {
    let bytes = b"alice\n2020-01-02 03:04:05 +0000 x\n\nhello and more\n";
    assert_eq!(SvnInfo::parse(7, bytes).unwrap_err(), SvnError::ParseError);
}

#[test]
fn info_impossible_calendar_day_is_parse_error() {
    let bytes = b"alice\n2019-02-29 03:04:05 +0000 x\n5\nhello and more\n";
    assert_eq!(SvnInfo::parse(7, bytes).unwrap_err(), SvnError::ParseError);
}

#[test]
fn info_leap_day_parses() {
    let bytes = b"alice\n2020-02-29 03:04:05 +0000 x\n5\nhello and more\n";
    let info = SvnInfo::parse(7, bytes).expect("parses");
    assert_eq!(info.date.month, 2);
    assert_eq!(info.date.day, 29);
}
