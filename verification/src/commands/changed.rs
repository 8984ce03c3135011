use vstd::prelude::*;
use vstd::slice::slice_subrange;

use crate::commands::{
    all_dec_digits, chomped, dec_value, ends_with_nl, lossy_of, lossy_string, parse_u64_digits,
    try_chomp,
};
use crate::error::{ExitInfo, SvnError};

verus! {

/// The byte `A`.
pub const BYTE_A: u8 = 65;

/// The byte `D`.
pub const BYTE_D: u8 = 68;

/// The byte `U`.
pub const BYTE_U: u8 = 85;

/// The byte `_`.
pub const BYTE_UNDERSCORE: u8 = 95;

/// The space byte.
pub const BYTE_SPACE: u8 = 32;

/// The byte `+`.
pub const BYTE_PLUS: u8 = 43;

/// The byte `(`.
pub const BYTE_LPAREN: u8 = 40;

/// The byte `)`.
pub const BYTE_RPAREN: u8 = 41;

/// The byte `f`.
pub const BYTE_LOWER_F: u8 = 102;

/// The byte `r`.
pub const BYTE_LOWER_R: u8 = 114;

/// The byte `o`.
pub const BYTE_LOWER_O: u8 = 111;

/// The byte `m`.
pub const BYTE_LOWER_M: u8 = 109;

/// The byte `:`.
pub const BYTE_COLON: u8 = 58;

/// The three-byte status code at the head of a change line. A copy code
/// still awaits its continuation line, so it carries no source yet.
#[derive(Debug, Clone, Copy, PartialEq, Eq, Structural)]
pub enum SvnStatusCode {
    Added,
    Copied,
    Deleted,
    Updated,
    PropChange,
}

/// The resolved source of a copied path.
#[derive(Debug, Clone, PartialEq)]
pub struct SvnFrom {
    pub path: String,
    pub revision: u64,
}

/// How one path was affected. A copy is only ever exposed with its source
/// resolved.
#[derive(Debug, Clone, PartialEq)]
pub enum SvnStatus {
    Added,
    Copied(SvnFrom),
    Deleted,
    Updated,
    PropChange,
}

/// One structured change record.
#[derive(Debug, Clone, PartialEq)]
pub struct SvnChange {
    pub path: String,
    pub status: SvnStatus,
}

impl SvnStatus {
    /// The display name of the status.
    pub fn label(&self) -> (r: &'static str)
        ensures
            match *self {
                SvnStatus::Added => r@ == "Added"@,
                SvnStatus::Copied(_) => r@ == "Copied"@,
                SvnStatus::Deleted => r@ == "Deleted"@,
                SvnStatus::Updated => r@ == "Updated"@,
                SvnStatus::PropChange => r@ == "PropChange"@,
            },
    {
        match self {
            SvnStatus::Added => "Added",
            SvnStatus::Copied(_) => "Copied",
            SvnStatus::Deleted => "Deleted",
            SvnStatus::Updated => "Updated",
            SvnStatus::PropChange => "PropChange",
        }
    }
}

/// The status code named by the first three bytes of `s`, if any.
pub open spec fn spec_status_code(s: Seq<u8>) -> Option<SvnStatusCode> {
    if s.len() < 3 {
        None
    } else if s[0] == BYTE_A && s[1] == BYTE_SPACE && s[2] == BYTE_SPACE {
        Some(SvnStatusCode::Added)
    } else if s[0] == BYTE_A && s[1] == BYTE_SPACE && s[2] == BYTE_PLUS {
        Some(SvnStatusCode::Copied)
    } else if s[0] == BYTE_D && s[1] == BYTE_SPACE && s[2] == BYTE_SPACE {
        Some(SvnStatusCode::Deleted)
    } else if s[0] == BYTE_U && s[1] == BYTE_SPACE && s[2] == BYTE_SPACE {
        Some(SvnStatusCode::Updated)
    } else if s[0] == BYTE_U && s[1] == BYTE_U && s[2] == BYTE_SPACE {
        Some(SvnStatusCode::Updated)
    } else if s[0] == BYTE_UNDERSCORE && s[1] == BYTE_U && s[2] == BYTE_SPACE {
        Some(SvnStatusCode::PropChange)
    } else {
        None
    }
}

impl SvnStatusCode {
    /// Reads the three-byte status code that heads a change line.
    pub fn parse(s: &[u8]) -> (r: Result<SvnStatusCode, SvnError>)
        ensures
            match r {
                Ok(c) => spec_status_code(s@) == Some(c),
                Err(e) => spec_status_code(s@) is None && e == SvnError::ParseError,
            },
    {
        if s.len() < 3 {
            return Err(SvnError::ParseError);
        }
        let (a, b, c) = (s[0], s[1], s[2]);
        if a == BYTE_A && b == BYTE_SPACE && c == BYTE_SPACE {
            Ok(SvnStatusCode::Added)
        } else if a == BYTE_A && b == BYTE_SPACE && c == BYTE_PLUS {
            Ok(SvnStatusCode::Copied)
        } else if a == BYTE_D && b == BYTE_SPACE && c == BYTE_SPACE {
            Ok(SvnStatusCode::Deleted)
        } else if a == BYTE_U && b == BYTE_SPACE && c == BYTE_SPACE {
            Ok(SvnStatusCode::Updated)
        } else if a == BYTE_U && b == BYTE_U && c == BYTE_SPACE {
            Ok(SvnStatusCode::Updated)
        } else if a == BYTE_UNDERSCORE && b == BYTE_U && c == BYTE_SPACE {
            Ok(SvnStatusCode::PropChange)
        } else {
            Err(SvnError::ParseError)
        }
    }
}

/// The status code and path bytes of a change line, when it is well
/// formed: a recognised code, a separator byte, the path, the delimiter.
pub open spec fn spec_change_line(l: Seq<u8>) -> Option<(SvnStatusCode, Seq<u8>)> {
    if ends_with_nl(l) && chomped(l).len() >= 4 {
        match spec_status_code(chomped(l)) {
            Some(c) => Some((c, chomped(l).skip(4))),
            None => None,
        }
    } else {
        None
    }
}

/// Splits a change line into its status code and its decoded path.
pub fn parse_change_line(line: &[u8]) -> (r: Result<(SvnStatusCode, String), SvnError>)
    ensures
        match r {
            Ok(cp) => spec_change_line(line@) matches Some(sp) && sp.0 == cp.0 && cp.1@
                == lossy_of(sp.1),
            Err(e) => spec_change_line(line@) is None && e == SvnError::ParseError,
        },
{
    let stripped = match try_chomp(line) {
        Ok(s) => s,
        Err(e) => {
            return Err(e);
        },
    };
    if stripped.len() < 4 {
        return Err(SvnError::ParseError);
    }
    let code = match SvnStatusCode::parse(stripped) {
        Ok(c) => c,
        Err(e) => {
            return Err(e);
        },
    };
    let path_bytes = slice_subrange(stripped, 4, stripped.len());
    proof {
        assert(path_bytes@ =~= chomped(line@).skip(4));
    }
    let path = lossy_string(path_bytes);
    Ok((code, path))
}

/// The position of the last colon in `s`, if there is one.
pub open spec fn last_colon(s: Seq<u8>) -> Option<int>
    decreases s.len(),
{
    if s.len() == 0 {
        None
    } else if s[s.len() - 1] == BYTE_COLON {
        Some(s.len() - 1)
    } else {
        last_colon(s.drop_last())
    }
}

/// True when `c` (a chomped continuation line) starts with the literal
/// prefix of four spaces followed by `(from `.
pub open spec fn has_from_prefix(c: Seq<u8>) -> bool {
    &&& c.len() >= 10
    &&& c[0] == BYTE_SPACE
    &&& c[1] == BYTE_SPACE
    &&& c[2] == BYTE_SPACE
    &&& c[3] == BYTE_SPACE
    &&& c[4] == BYTE_LPAREN
    &&& c[5] == BYTE_LOWER_F
    &&& c[6] == BYTE_LOWER_R
    &&& c[7] == BYTE_LOWER_O
    &&& c[8] == BYTE_LOWER_M
    &&& c[9] == BYTE_SPACE
}

/// The source path bytes and revision of a copy continuation line, when it
/// is well formed: the prefix, the source path, the last colon (searched
/// from the right, since the path itself may contain colons), `r`, one or
/// more digits, and a closing parenthesis before the delimiter.
pub open spec fn spec_from_line(l: Seq<u8>) -> Option<(Seq<u8>, u64)> {
    if !ends_with_nl(l) {
        None
    } else {
        let c = chomped(l);
        if has_from_prefix(c) && c.len() >= 11 && c[c.len() - 1] == BYTE_RPAREN {
            let inner = c.subrange(10, c.len() - 1);
            match last_colon(inner) {
                Some(pos) => {
                    if pos + 3 <= inner.len() && inner[pos + 1] == BYTE_LOWER_R && all_dec_digits(
                        inner.skip(pos + 2),
                    ) && dec_value(inner.skip(pos + 2)) <= u64::MAX {
                        Some((inner.take(pos), dec_value(inner.skip(pos + 2)) as u64))
                    } else {
                        None
                    }
                },
                None => None,
            }
        } else {
            None
        }
    }
}

/// A continuation line that does not start with the exact prefix, or does
/// not close with a parenthesis before its delimiter, never yields a
/// source: that record is a parse failure.
pub proof fn lemma_from_line_needs_frame(l: Seq<u8>)
    requires
        !ends_with_nl(l) || !has_from_prefix(chomped(l)) || chomped(l).len() < 11 || chomped(
            l,
        )[chomped(l).len() - 1] != BYTE_RPAREN,
    ensures
        spec_from_line(l) is None,
{
}

/// The position of the last colon of `s`, found by scanning from the end.
fn rfind_colon(s: &[u8]) -> (r: Option<usize>)
    ensures
        match r {
            Some(p) => p < s@.len() && last_colon(s@) == Some(p as int),
            None => last_colon(s@) is None,
        },
{
    let mut i: usize = s.len();
    proof {
        assert(s@.take(i as int) =~= s@);
    }
    while i > 0
        invariant
            i <= s@.len(),
            last_colon(s@) == last_colon(s@.take(i as int)),
        decreases i,
    {
        proof {
            assert(s@.take(i as int).last() == s@[i as int - 1]);
            assert(s@.take(i as int).drop_last() =~= s@.take(i as int - 1));
        }
        if s[i - 1] == BYTE_COLON {
            return Some(i - 1);
        }
        i = i - 1;
    }
    None
}

impl SvnFrom {
    /// Reads a copy continuation line into its source path and revision.
    pub fn parse(line: &[u8]) -> (r: Result<SvnFrom, SvnError>)
        ensures
            match r {
                Ok(f) => spec_from_line(line@) matches Some(pr) && f.path@ == lossy_of(pr.0)
                    && f.revision == pr.1,
                Err(e) => spec_from_line(line@) is None && e == SvnError::ParseError,
            },
    {
        let stripped = match try_chomp(line) {
            Ok(s) => s,
            Err(e) => {
                return Err(e);
            },
        };
        if stripped.len() < 11 {
            return Err(SvnError::ParseError);
        }
        if !(stripped[0] == BYTE_SPACE && stripped[1] == BYTE_SPACE && stripped[2] == BYTE_SPACE
            && stripped[3] == BYTE_SPACE && stripped[4] == BYTE_LPAREN && stripped[5]
            == BYTE_LOWER_F && stripped[6] == BYTE_LOWER_R && stripped[7] == BYTE_LOWER_O
            && stripped[8] == BYTE_LOWER_M && stripped[9] == BYTE_SPACE) {
            return Err(SvnError::ParseError);
        }
        if stripped[stripped.len() - 1] != BYTE_RPAREN {
            return Err(SvnError::ParseError);
        }
        let inner = slice_subrange(stripped, 10, stripped.len() - 1);
        let pos = match rfind_colon(inner) {
            Some(p) => p,
            None => {
                return Err(SvnError::ParseError);
            },
        };
        if inner.len() - pos <= 2 {
            return Err(SvnError::ParseError);
        }
        if inner[pos + 1] != BYTE_LOWER_R {
            return Err(SvnError::ParseError);
        }
        let digits = slice_subrange(inner, pos + 2, inner.len());
        proof {
            assert(digits@ =~= inner@.skip(pos + 2));
        }
        let revision = match parse_u64_digits(digits) {
            Ok(n) => n,
            Err(e) => {
                return Err(e);
            },
        };
        let path = lossy_string(slice_subrange(inner, 0, pos));
        Ok(SvnFrom { path, revision })
    }
}

/// True when `s` is the record status that the one-line code `c` names.
pub open spec fn status_corresponds(s: SvnStatus, c: SvnStatusCode) -> bool {
    match c {
        SvnStatusCode::Added => s == SvnStatus::Added,
        SvnStatusCode::Copied => s is Copied,
        SvnStatusCode::Deleted => s == SvnStatus::Deleted,
        SvnStatusCode::Updated => s == SvnStatus::Updated,
        SvnStatusCode::PropChange => s == SvnStatus::PropChange,
    }
}

/// The incremental change-record parser. It consumes one line per simple
/// record and two lines per copy record, and never exposes a copy whose
/// source is unresolved.
#[derive(Debug)]
pub struct ChangedParser {
    /// No further items will be produced once set.
    pub finished: bool,
    /// The path of a copy record whose continuation line is still awaited.
    pub awaiting: Option<String>,
}

impl ChangedParser {
    pub fn new() -> (p: ChangedParser)
        ensures
            !p.finished,
            p.awaiting is None,
    {
        ChangedParser { finished: false, awaiting: None }
    }

    pub fn is_finished(&self) -> (r: bool)
        ensures
            r == self.finished,
    {
        self.finished
    }

    /// Feeds one line, delimiter included. A simple record is produced at
    /// once; a copy line is held back until its continuation arrives; a
    /// malformed line fails that record alone, and the sequence may go on.
    pub fn on_line(&mut self, line: &[u8]) -> (r: Option<Result<SvnChange, SvnError>>)
        requires
            !old(self).finished,
        ensures
            !final(self).finished,
            match old(self).awaiting {
                Some(pending) => {
                    &&& final(self).awaiting is None
                    &&& match spec_from_line(line@) {
                        Some(pr) => {
                            &&& r matches Some(item)
                            &&& item matches Ok(c)
                            &&& c.path == pending
                            &&& c.status matches SvnStatus::Copied(f)
                            &&& f.path@ == lossy_of(pr.0)
                            &&& f.revision == pr.1
                        },
                        None => {
                            &&& r matches Some(item)
                            &&& item matches Err(e)
                            &&& e == SvnError::ParseError
                        },
                    }
                },
                None => match spec_change_line(line@) {
                    Some(cp) => {
                        if cp.0 is Copied {
                            &&& r is None
                            &&& final(self).awaiting matches Some(p)
                            &&& p@ == lossy_of(cp.1)
                        } else {
                            &&& final(self).awaiting is None
                            &&& r matches Some(item)
                            &&& item matches Ok(c)
                            &&& c.path@ == lossy_of(cp.1)
                            &&& status_corresponds(c.status, cp.0)
                        }
                    },
                    None => {
                        &&& final(self).awaiting is None
                        &&& r matches Some(item)
                        &&& item matches Err(e)
                        &&& e == SvnError::ParseError
                    },
                },
            },
    {
        let pending = self.awaiting.take();
        match pending {
            Some(p) => {
                match SvnFrom::parse(line) {
                    Ok(f) => Some(Ok(SvnChange { path: p, status: SvnStatus::Copied(f) })),
                    Err(e) => Some(Err(e)),
                }
            },
            None => {
                match parse_change_line(line) {
                    Ok((code, path)) => {
                        match code {
                            SvnStatusCode::Copied => {
                                self.awaiting = Some(path);
                                None
                            },
                            SvnStatusCode::Added => Some(
                                Ok(SvnChange { path, status: SvnStatus::Added }),
                            ),
                            SvnStatusCode::Deleted => Some(
                                Ok(SvnChange { path, status: SvnStatus::Deleted }),
                            ),
                            SvnStatusCode::Updated => Some(
                                Ok(SvnChange { path, status: SvnStatus::Updated }),
                            ),
                            SvnStatusCode::PropChange => Some(
                                Ok(SvnChange { path, status: SvnStatus::PropChange }),
                            ),
                        }
                    },
                    Err(e) => Some(Err(e)),
                }
            },
        }
    }

    /// End of data. While a copy continuation was still pending, that
    /// record alone fails; otherwise the sequence finishes, with exactly
    /// one terminal failure when the process exited unsuccessfully and no
    /// further item at all when it succeeded.
    pub fn on_eof(&mut self, exit: ExitInfo) -> (r: Option<SvnError>)
        requires
            !old(self).finished,
        ensures
            final(self).awaiting is None,
            match old(self).awaiting {
                Some(_) => !final(self).finished && r == Some(SvnError::ParseError),
                None => final(self).finished && r == (if exit.is_success() {
                    None
                } else {
                    Some(SvnError::ExitFailure(exit))
                }),
            },
    {
        if self.awaiting.is_some() {
            self.awaiting = None;
            return Some(SvnError::ParseError);
        }
        self.finished = true;
        if exit.success() {
            None
        } else {
            Some(SvnError::ExitFailure(exit))
        }
    }
}

} // verus!
