use vstd::prelude::*;
use vstd::slice::slice_subrange;

use chrono::{DateTime, Datelike, Timelike};

use crate::commands::{
    all_dec_digits, dec_value, find_newline, find_nl, lossy_of, lossy_string, parse_u64_digits,
};
use crate::error::SvnError;

verus! {

/// An offset-aware date and time, as plain fields: the local calendar
/// fields as written in the output, plus the UTC offset in seconds.
#[derive(Debug, Clone, Copy, PartialEq, Eq, Structural)]
pub struct SvnDate {
    pub year: i32,
    pub month: u8,
    pub day: u8,
    pub hour: u8,
    pub minute: u8,
    pub second: u8,
    /// Local time minus UTC, in seconds.
    pub offset_seconds: i32,
}

/// What `chrono`'s `DateTime::parse_from_str` with the format
/// `%Y-%m-%d %H:%M:%S %z` makes of the given bytes: `None` when they are
/// not valid UTF-8 or do not parse, otherwise the parsed fields.
pub uninterp spec fn chrono_datetime_of(b: Seq<u8>) -> Option<SvnDate>;

/// Relies on `chrono::DateTime::parse_from_str` (with `str::from_utf8`
/// handing it the bytes): acceptance and the parsed value depend on the
/// bytes alone.
#[verifier::external_body]
fn parse_chrono_datetime(b: &[u8]) -> (r: Option<SvnDate>)
    ensures
        r == chrono_datetime_of(b@),
{
    let s = core::str::from_utf8(b).ok()?;
    let dt = DateTime::parse_from_str(s, "%Y-%m-%d %H:%M:%S %z").ok()?;
    Some(SvnDate {
        year: dt.year(),
        month: dt.month() as u8,
        day: dt.day() as u8,
        hour: dt.hour() as u8,
        minute: dt.minute() as u8,
        second: dt.second() as u8,
        offset_seconds: dt.offset().local_minus_utc(),
    })
}

/// Everything the revision-info output states about one revision.
#[derive(Debug, Clone, PartialEq)]
pub struct SvnInfo {
    pub revision: u64,
    pub committer: String,
    pub date: SvnDate,
    pub message: String,
}

/// `o`'s position, or a sentinel below every valid position.
pub open spec fn nl_or_neg(o: Option<int>) -> int {
    match o {
        Some(i) => i,
        None => -1,
    }
}

/// The first delimiter position of an info output.
pub open spec fn info_nl1(s: Seq<u8>) -> int {
    nl_or_neg(find_nl(s, 0))
}

/// The second delimiter position of an info output.
pub open spec fn info_nl2(s: Seq<u8>) -> int {
    nl_or_neg(find_nl(s, info_nl1(s) + 1))
}

/// The third delimiter position of an info output.
pub open spec fn info_nl3(s: Seq<u8>) -> int {
    nl_or_neg(find_nl(s, info_nl2(s) + 1))
}

/// The committer section: everything before the first delimiter.
pub open spec fn info_committer_bytes(s: Seq<u8>) -> Seq<u8> {
    s.take(info_nl1(s))
}

/// The fixed 25-byte window at the head of the date section.
pub open spec fn info_date_window(s: Seq<u8>) -> Seq<u8> {
    s.subrange(info_nl1(s) + 1, info_nl1(s) + 26)
}

/// The declared byte count of the message section.
pub open spec fn info_len_value(s: Seq<u8>) -> int {
    dec_value(s.subrange(info_nl2(s) + 1, info_nl3(s)))
}

/// The message: the first declared-count bytes after the third delimiter.
pub open spec fn info_message_bytes(s: Seq<u8>) -> Seq<u8> {
    s.subrange(info_nl3(s) + 1, info_nl3(s) + 1 + info_len_value(s))
}

/// A well-formed info output: four sections split on the first three
/// delimiters; a date section longer than its 25-byte window, which the
/// date parser accepts; a digits-only byte count; and a message section
/// longer than that count (the remainder past the count is ignored).
pub open spec fn spec_info_ok(s: Seq<u8>) -> bool {
    &&& find_nl(s, 0) is Some
    &&& find_nl(s, info_nl1(s) + 1) is Some
    &&& info_nl2(s) - info_nl1(s) > 26
    &&& chrono_datetime_of(info_date_window(s)) is Some
    &&& find_nl(s, info_nl2(s) + 1) is Some
    &&& info_nl3(s) > info_nl2(s) + 1
    &&& all_dec_digits(s.subrange(info_nl2(s) + 1, info_nl3(s)))
    &&& info_len_value(s) <= u64::MAX
    &&& s.len() - (info_nl3(s) + 1) > info_len_value(s)
}

/// An info output whose byte-count section is not one or more digits, or
/// whose message section is not longer than the declared count, is never
/// accepted.
pub proof fn lemma_info_needs_count_and_message(s: Seq<u8>)
    requires
        !all_dec_digits(s.subrange(info_nl2(s) + 1, info_nl3(s))) || info_nl3(s) <= info_nl2(s) + 1
            || s.len() - (info_nl3(s) + 1) <= info_len_value(s),
    ensures
        !spec_info_ok(s),
{
}

impl SvnInfo {
    /// Reads one complete, captured revision-info output. The revision is
    /// supplied by the caller; the output contributes the committer, the
    /// date, and a byte-counted message that may itself contain the line
    /// delimiter. The byte count is deliberately one or more digits and
    /// nothing else: a sign has no place in a length.
    pub fn parse(revision: u64, bytes: &[u8]) -> (r: Result<SvnInfo, SvnError>)
        ensures
            (r matches Ok(_)) <==> spec_info_ok(bytes@),
            r matches Ok(info) ==> {
                &&& info.revision == revision
                &&& info.committer@ == lossy_of(info_committer_bytes(bytes@))
                &&& Some(info.date) == chrono_datetime_of(info_date_window(bytes@))
                &&& info.message@ == lossy_of(info_message_bytes(bytes@))
            },
            r matches Err(e) ==> e == SvnError::ParseError,
    {
        let total = bytes.len();
        let i1 = match find_newline(bytes, 0) {
            Some(i) => i,
            None => {
                return Err(SvnError::ParseError);
            },
        };
        let committer = lossy_string(slice_subrange(bytes, 0, i1));
        let i2 = match find_newline(bytes, i1 + 1) {
            Some(i) => i,
            None => {
                return Err(SvnError::ParseError);
            },
        };
        if i2 - i1 <= 26 {
            return Err(SvnError::ParseError);
        }
        let window = slice_subrange(bytes, i1 + 1, i1 + 26);
        proof {
            assert(window@ =~= info_date_window(bytes@));
        }
        let date = match parse_chrono_datetime(window) {
            Some(d) => d,
            None => {
                return Err(SvnError::ParseError);
            },
        };
        let i3 = match find_newline(bytes, i2 + 1) {
            Some(i) => i,
            None => {
                return Err(SvnError::ParseError);
            },
        };
        let len_digits = slice_subrange(bytes, i2 + 1, i3);
        let n = match parse_u64_digits(len_digits) {
            Ok(n) => n,
            Err(e) => {
                return Err(e);
            },
        };
        let msg_start = i3 + 1;
        let avail = bytes.len() - msg_start;
        if (avail as u64) <= n {
            return Err(SvnError::ParseError);
        }
        let msg_end = msg_start + (n as usize);
        let message = lossy_string(slice_subrange(bytes, msg_start, msg_end));
        proof {
            assert(info_committer_bytes(bytes@) =~= bytes@.subrange(0, i1 as int));
            assert(info_message_bytes(bytes@) =~= bytes@.subrange(
                msg_start as int,
                msg_end as int,
            ));
        }
        Ok(SvnInfo { revision, committer, date, message })
    }
}

} // verus!
