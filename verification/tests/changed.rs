use svnlook::{ChangedParser, ExitInfo, SvnError, SvnFrom, SvnStatus, SvnStatusCode};

fn feed(parser: &mut ChangedParser, line: &str) -> Option<Result<svnlook::SvnChange, SvnError>> {
    parser.on_line(line.as_bytes())
}

#[test]
fn added_line_is_one_record() {
    let mut p = ChangedParser::new();
    let item = feed(&mut p, "A   some/path\n").expect("one record");
    let change = item.expect("parses");
    assert_eq!(change.path, "some/path");
    assert_eq!(change.status, SvnStatus::Added);
    assert!(!p.is_finished());
}

#[test]
fn added_line_consumes_no_continuation() {
    let mut p = ChangedParser::new();
    let first = feed(&mut p, "A   some/path\n");
    assert!(first.is_some());
    // The next line is an independent record, not a continuation.
    let second = feed(&mut p, "D   other\n").expect("one record");
    let change = second.expect("parses");
    assert_eq!(change.status, SvnStatus::Deleted);
    assert_eq!(change.path, "other");
}

#[test]
fn copied_line_waits_for_continuation() {
    let mut p = ChangedParser::new();
    let first = feed(&mut p, "A + some/path\n");
    assert!(first.is_none());
    let second = feed(&mut p, "    (from other/path:r42)\n").expect("one record");
    let change = second.expect("parses");
    assert_eq!(change.path, "some/path");
    assert_eq!(
        change.status,
        SvnStatus::Copied(SvnFrom { path: String::from("other/path"), revision: 42 })
    );
}

#[test]
fn copied_source_uses_rightmost_colon() {
    let mut p = ChangedParser::new();
    assert!(feed(&mut p, "A +x\n").is_none());
    let item = feed(&mut p, "    (from a:b/path:r7)\n").expect("one record");
    let change = item.expect("parses");
    assert_eq!(
        change.status,
        SvnStatus::Copied(SvnFrom { path: String::from("a:b/path"), revision: 7 })
    );
}

#[test]
fn from_line_missing_suffix_is_parse_error() {
    let mut p = ChangedParser::new();
    assert!(feed(&mut p, "A +x\n").is_none());
    let item = feed(&mut p, "    (from other/path:r42\n").expect("one record");
    assert_eq!(item.unwrap_err(), SvnError::ParseError);
}

#[test]
fn from_line_wrong_prefix_is_parse_error() {
    let mut p = ChangedParser::new();
    assert!(feed(&mut p, "A +x\n").is_none());
    let item = feed(&mut p, "   (from other/path:r42)\n").expect("one record");
    assert_eq!(item.unwrap_err(), SvnError::ParseError);
}

#[test]
fn from_line_without_colon_is_parse_error() {
    let item = SvnFrom::parse(b"    (from otherpath)\n");
    assert_eq!(item.unwrap_err(), SvnError::ParseError);
}

#[test]
fn from_line_without_revision_marker_is_parse_error() {
    let item = SvnFrom::parse(b"    (from other:x42)\n");
    assert_eq!(item.unwrap_err(), SvnError::ParseError);
}

#[test]
fn from_line_with_empty_digits_is_parse_error() {
    let item = SvnFrom::parse(b"    (from other:r)\n");
    assert_eq!(item.unwrap_err(), SvnError::ParseError);
}

#[test]
fn from_line_with_non_digit_revision_is_parse_error() {
    let item = SvnFrom::parse(b"    (from other:r4x2)\n");
    assert_eq!(item.unwrap_err(), SvnError::ParseError);
}

#[test]
fn from_line_with_overflowing_revision_is_parse_error() {
    let item = SvnFrom::parse(b"    (from other:r99999999999999999999)\n");
    assert_eq!(item.unwrap_err(), SvnError::ParseError);
}

#[test]
fn from_line_parses_max_revision() {
    let item = SvnFrom::parse(b"    (from other:r18446744073709551615)\n").expect("parses");
    assert_eq!(item.revision, u64::MAX);
    assert_eq!(item.path, "other");
}

#[test]
fn parse_error_does_not_finish_sequence() {
    let mut p = ChangedParser::new();
    let bad = feed(&mut p, "??? what\n").expect("one record");
    assert_eq!(bad.unwrap_err(), SvnError::ParseError);
    assert!(!p.is_finished());
    let good = feed(&mut p, "U   file\n").expect("one record");
    assert_eq!(good.expect("parses").status, SvnStatus::Updated);
}

#[test]
fn short_line_is_parse_error() {
    let mut p = ChangedParser::new();
    let item = feed(&mut p, "A \n").expect("one record");
    assert_eq!(item.unwrap_err(), SvnError::ParseError);
}

#[test]
fn line_without_delimiter_is_parse_error() {
    let mut p = ChangedParser::new();
    let item = feed(&mut p, "A  some/path").expect("one record");
    assert_eq!(item.unwrap_err(), SvnError::ParseError);
}

#[test]
fn status_codes_map_to_statuses() {
    assert_eq!(SvnStatusCode::parse(b"A  rest").unwrap(), SvnStatusCode::Added);
    assert_eq!(SvnStatusCode::parse(b"A +rest").unwrap(), SvnStatusCode::Copied);
    assert_eq!(SvnStatusCode::parse(b"D  rest").unwrap(), SvnStatusCode::Deleted);
    assert_eq!(SvnStatusCode::parse(b"U  rest").unwrap(), SvnStatusCode::Updated);
    assert_eq!(SvnStatusCode::parse(b"UU rest").unwrap(), SvnStatusCode::Updated);
    assert_eq!(SvnStatusCode::parse(b"_U rest").unwrap(), SvnStatusCode::PropChange);
    assert!(SvnStatusCode::parse(b"XX rest").is_err());
    assert!(SvnStatusCode::parse(b"A ").is_err());
}

#[test]
fn updated_and_prop_change_records() {
    let mut p = ChangedParser::new();
    let uu = feed(&mut p, "UU  both\n").expect("one record").expect("parses");
    assert_eq!(uu.status, SvnStatus::Updated);
    let pc = feed(&mut p, "_U  props\n").expect("one record").expect("parses");
    assert_eq!(pc.status, SvnStatus::PropChange);
    assert_eq!(pc.path, "props");
}

#[test]
fn invalid_utf8_path_is_substituted() {
    let mut p = ChangedParser::new();
    let mut line = b"A   bad".to_vec();
    line.push(0xFF);
    line.push(b'\n');
    let item = p.on_line(&line).expect("one record");
    let change = item.expect("parses");
    assert_eq!(change.path, "bad\u{FFFD}");
}

#[test]
fn eof_with_failure_is_one_terminal_error() {
    let mut p = ChangedParser::new();
    let err = p.on_eof(ExitInfo { code: Some(1) }).expect("terminal error");
    assert_eq!(err, SvnError::ExitFailure(ExitInfo { code: Some(1) }));
    assert!(p.is_finished());
}

#[test]
fn eof_with_success_ends_quietly() {
    let mut p = ChangedParser::new();
    assert!(p.on_eof(ExitInfo { code: Some(0) }).is_none());
    assert!(p.is_finished());
}

#[test]
fn eof_by_signal_is_a_failure() {
    let mut p = ChangedParser::new();
    let err = p.on_eof(ExitInfo { code: None }).expect("terminal error");
    assert_eq!(err, SvnError::ExitFailure(ExitInfo { code: None }));
}

#[test]
fn eof_while_awaiting_fails_that_record_first() {
    let mut p = ChangedParser::new();
    assert!(feed(&mut p, "A +x\n").is_none());
    let err = p.on_eof(ExitInfo { code: Some(0) }).expect("pending record fails");
    assert_eq!(err, SvnError::ParseError);
    assert!(!p.is_finished());
    assert!(p.on_eof(ExitInfo { code: Some(0) }).is_none());
    assert!(p.is_finished());
}

#[test]
fn whole_session_yields_one_record_per_change() {
    let output = "U   trunk/README\nA + trunk/copy.txt\n    (from trunk/orig.txt:r3)\nD   trunk/old.txt\n";
    let mut p = ChangedParser::new();
    let mut records = Vec::new();
    for line in output.split_inclusive('\n') {
        if let Some(item) = p.on_line(line.as_bytes()) {
            records.push(item.expect("parses"));
        }
    }
    assert!(p.on_eof(ExitInfo { code: Some(0) }).is_none());
    assert!(p.is_finished());
    assert_eq!(records.len(), 3);
    assert_eq!(records[0].status, SvnStatus::Updated);
    assert_eq!(records[0].path, "trunk/README");
    assert_eq!(
        records[1].status,
        SvnStatus::Copied(SvnFrom { path: String::from("trunk/orig.txt"), revision: 3 })
    );
    assert_eq!(records[1].path, "trunk/copy.txt");
    assert_eq!(records[2].status, SvnStatus::Deleted);
    assert_eq!(records[2].path, "trunk/old.txt");
}

#[test]
fn status_labels() {
    assert_eq!(SvnStatus::Added.label(), "Added");
    assert_eq!(
        SvnStatus::Copied(SvnFrom { path: String::new(), revision: 1 }).label(),
        "Copied"
    );
    assert_eq!(SvnStatus::Deleted.label(), "Deleted");
    assert_eq!(SvnStatus::Updated.label(), "Updated");
    assert_eq!(SvnStatus::PropChange.label(), "PropChange");
}
