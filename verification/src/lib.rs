use vstd::prelude::*;

pub mod commands;
pub mod diffstat;
pub mod error;
pub mod stream;

pub use commands::changed::{
    ChangedParser, SvnChange, SvnFrom, SvnStatus, SvnStatusCode,
};
pub use commands::info::{SvnDate, SvnInfo};
pub use commands::try_chomp;
pub use diffstat::worlds_crappiest_diffstat;
pub use error::{ExitInfo, SvnError};
pub use stream::StreamLifecycle;

use commands::utf8_str;
use vstd::string::StrSliceExecFns;
use vstd::utf8::{decode_utf8, valid_utf8};

verus! {

/// The path to the inspection binary, or `None` for the default name.
#[derive(Debug, Clone)]
pub struct Svnlook {
    pub path: Option<String>,
}

impl Default for Svnlook {
    fn default() -> (r: Svnlook)
        ensures
            r.path is None,
    {
        Svnlook { path: None }
    }
}

/// Both are absent, or both carry the same text.
pub open spec fn same_opt_path(a: Option<String>, b: Option<String>) -> bool {
    match (a, b) {
        (Some(x), Some(y)) => x@ == y@,
        (None, None) => true,
        _ => false,
    }
}

impl Svnlook {
    /// The executable name to launch: the configured path, or `"svnlook"`.
    pub fn command_path(&self) -> (r: String)
        ensures
            match self.path {
                Some(ref p) => r@ == p@,
                None => r@ == "svnlook"@,
            },
    {
        match &self.path {
            Some(p) => p.clone(),
            None => "svnlook".to_owned(),
        }
    }

    /// An interface to the repository at `path` using this binary.
    pub fn repository(&self, path: String) -> (r: Repository)
        ensures
            r.path == path,
            same_opt_path(r.svnlook.path, self.path),
    {
        let svnlook = Svnlook {
            path: match &self.path {
                Some(p) => Some(p.clone()),
                None => None,
            },
        };
        Repository { svnlook, path }
    }
}

/// An interface to one repository: which inspection binary to run, and
/// the repository path handed to it.
#[derive(Debug, Clone)]
pub struct Repository {
    pub svnlook: Svnlook,
    pub path: String,
}

/// A character that the standard trim removes: the Unicode white-space
/// set, as `char::is_whitespace` documents it.
pub open spec fn is_trim_ws(c: char) -> bool {
    let u = c as u32;
    ||| (9 <= u && u <= 13)
    ||| u == 32
    ||| u == 0x85
    ||| u == 0xA0
    ||| u == 0x1680
    ||| (0x2000 <= u && u <= 0x200A)
    ||| u == 0x2028
    ||| u == 0x2029
    ||| u == 0x202F
    ||| u == 0x205F
    ||| u == 0x3000
}

fn trim_ws_char(c: char) -> (r: bool)
    ensures
        r == is_trim_ws(c),
{
    let u = c as u32;
    (9 <= u && u <= 13) || u == 32 || u == 0x85 || u == 0xA0 || u == 0x1680 || (0x2000 <= u && u
        <= 0x200A) || u == 0x2028 || u == 0x2029 || u == 0x202F || u == 0x205F || u == 0x3000
}

/// The first position at or after `from` holding a non-whitespace
/// character, or the length when there is none.
pub open spec fn first_non_ws(t: Seq<char>, from: int) -> int
    decreases t.len() - from
        when 0 <= from <= t.len()
{
    if from >= t.len() {
        t.len() as int
    } else if !is_trim_ws(t[from]) {
        from
    } else {
        first_non_ws(t, from + 1)
    }
}

/// One past the last non-whitespace character below `upto`, or zero when
/// there is none.
pub open spec fn last_non_ws(t: Seq<char>, upto: int) -> int
    decreases upto
        when 0 <= upto <= t.len()
{
    if upto <= 0 {
        0
    } else if !is_trim_ws(t[upto - 1]) {
        upto
    } else {
        last_non_ws(t, upto - 1)
    }
}

/// `t` with leading and trailing whitespace removed.
pub open spec fn trimmed(t: Seq<char>) -> Seq<char> {
    if first_non_ws(t, 0) < last_non_ws(t, t.len() as int) {
        t.subrange(first_non_ws(t, 0), last_non_ws(t, t.len() as int))
    } else {
        Seq::empty()
    }
}

proof fn lemma_last_non_ws_bounds(t: Seq<char>, upto: int)
    requires
        0 <= upto <= t.len(),
    ensures
        0 <= last_non_ws(t, upto) <= upto,
    decreases upto,
{
    if upto > 0 && is_trim_ws(t[upto - 1]) {
        lemma_last_non_ws_bounds(t, upto - 1);
    }
}

/// An ASCII decimal digit character.
pub open spec fn is_digit_char(c: char) -> bool {
    48 <= (c as u32) && (c as u32) <= 57
}

pub open spec fn all_digit_chars(t: Seq<char>) -> bool {
    forall|i: int| 0 <= i < t.len() ==> is_digit_char(#[trigger] t[i])
}

/// The value of `t` read as a decimal numeral.
pub open spec fn dec_value_chars(t: Seq<char>) -> int
    decreases t.len(),
{
    if t.len() == 0 {
        0
    } else {
        dec_value_chars(t.drop_last()) * 10 + ((t.last() as u32) - 48)
    }
}

proof fn lemma_dec_value_chars_nonneg(t: Seq<char>)
    requires
        all_digit_chars(t),
    ensures
        dec_value_chars(t) >= 0,
    decreases t.len(),
{
    if t.len() > 0 {
        assert(all_digit_chars(t.drop_last()));
        lemma_dec_value_chars_nonneg(t.drop_last());
    }
}

proof fn lemma_dec_value_chars_take_le(t: Seq<char>, i: int)
    requires
        all_digit_chars(t),
        0 <= i <= t.len(),
    ensures
        dec_value_chars(t.take(i)) <= dec_value_chars(t),
    decreases t.len() - i,
{
    if i == t.len() {
        assert(t.take(i) =~= t);
    } else {
        assert(t.take(i + 1).drop_last() =~= t.take(i));
        assert(all_digit_chars(t.take(i)));
        lemma_dec_value_chars_nonneg(t.take(i));
        lemma_dec_value_chars_take_le(t, i + 1);
    }
}

/// The numeral after the standard integer parser's optional leading plus
/// sign.
pub open spec fn unsigned_numeral(t: Seq<char>) -> Seq<char> {
    if t.len() > 0 && t[0] == '+' {
        t.skip(1)
    } else {
        t
    }
}

/// The digits of a youngest-revision output: its decoded text, trimmed,
/// after the optional plus sign.
pub open spec fn youngest_numeral(b: Seq<u8>) -> Seq<char> {
    unsigned_numeral(trimmed(decode_utf8(b)))
}

/// A well-formed youngest-revision output: UTF-8 text that is, once
/// trimmed of surrounding whitespace, an optional plus sign followed by
/// decimal digits whose value fits.
pub open spec fn spec_youngest_ok(b: Seq<u8>) -> bool {
    &&& valid_utf8(b)
    &&& youngest_numeral(b).len() > 0
    &&& all_digit_chars(youngest_numeral(b))
    &&& dec_value_chars(youngest_numeral(b)) <= u64::MAX
}

impl Repository {
    pub fn new(path: String) -> (r: Repository)
        ensures
            r.path == path,
            r.svnlook.path is None,
    {
        Repository { svnlook: Svnlook { path: None }, path }
    }

    pub fn new_with_svnlook(path: String, svnlook: Svnlook) -> (r: Repository)
        ensures
            r.path == path,
            r.svnlook == svnlook,
    {
        Repository { svnlook, path }
    }

    /// Reads the captured output of the youngest-revision query: UTF-8
    /// text holding one decimal numeral, an optional leading plus sign
    /// and surrounding whitespace allowed.
    pub fn parse_youngest(bytes: &[u8]) -> (r: Result<u64, SvnError>)
        ensures
            (r matches Ok(_)) <==> spec_youngest_ok(bytes@),
            r matches Ok(n) ==> n == dec_value_chars(youngest_numeral(bytes@)),
            r matches Err(e) ==> e == SvnError::ParseError,
    {
        let s = match utf8_str(bytes) {
            Some(s) => s,
            None => {
                return Err(SvnError::ParseError);
            },
        };
        let n = s.unicode_len();
        let mut a: usize = 0;
        while a < n && trim_ws_char(s.get_char(a))
            invariant
                0 <= a <= n,
                n == s@.len(),
                first_non_ws(s@, 0) == first_non_ws(s@, a as int),
            decreases n - a,
        {
            a = a + 1;
        }
        let mut b: usize = n;
        while b > a && trim_ws_char(s.get_char(b - 1))
            invariant
                a <= b <= n,
                n == s@.len(),
                a == n || !is_trim_ws(s@[a as int]),
                a == n || a < b,
                last_non_ws(s@, n as int) == last_non_ws(s@, b as int),
            decreases b,
        {
            b = b - 1;
        }
        proof {
            if a < n {
                assert(first_non_ws(s@, 0) == a);
                assert(a < b);
                assert(last_non_ws(s@, b as int) == b);
                assert(trimmed(s@) =~= s@.subrange(a as int, b as int));
            } else {
                assert(a == n && b == n);
                assert(first_non_ws(s@, 0) == n);
                lemma_last_non_ws_bounds(s@, n as int);
                assert(trimmed(s@) =~= Seq::<char>::empty());
                assert(trimmed(s@) =~= s@.subrange(a as int, b as int));
            }
        }
        let mut start: usize = a;
        if a < b {
            let c0 = s.get_char(a);
            if c0 == '+' {
                start = a + 1;
            }
        }
        let ghost num: Seq<char> = s@.subrange(start as int, b as int);
        proof {
            if a < b && s@[a as int] == '+' {
                assert(trimmed(s@)[0] == s@[a as int]);
                assert(num =~= trimmed(s@).skip(1));
            } else {
                assert(num =~= trimmed(s@));
            }
            assert(num == youngest_numeral(bytes@));
        }
        if start == b {
            return Err(SvnError::ParseError);
        }
        let mut acc: u64 = 0;
        let mut i: usize = start;
        while i < b
            invariant
                start <= i <= b <= n,
                n == s@.len(),
                s@ == decode_utf8(bytes@),
                num == s@.subrange(start as int, b as int),
                num == youngest_numeral(bytes@),
                all_digit_chars(num.take(i as int - start as int)),
                acc == dec_value_chars(num.take(i as int - start as int)),
            decreases b - i,
        {
            let c = s.get_char(i);
            let u = c as u32;
            if u < 48 || u > 57 {
                assert(!is_digit_char(num[i as int - start as int]));
                return Err(SvnError::ParseError);
            }
            let d = (u - 48) as u64;
            proof {
                assert(num.take(i as int - start as int + 1).drop_last() =~= num.take(
                    i as int - start as int,
                ));
                assert(num.take(i as int - start as int + 1).last() == num[i as int
                    - start as int]);
                assert(all_digit_chars(num.take(i as int - start as int + 1)));
            }
            if acc > u64::MAX / 10 || (acc == u64::MAX / 10 && d > u64::MAX % 10) {
                proof {
                    assert(dec_value_chars(num.take(i as int - start as int + 1)) > u64::MAX);
                    if all_digit_chars(num) {
                        lemma_dec_value_chars_take_le(num, i as int - start as int + 1);
                    }
                }
                return Err(SvnError::ParseError);
            }
            acc = acc * 10 + d;
            i = i + 1;
        }
        proof {
            assert(num.take(i as int - start as int) =~= num);
        }
        Ok(acc)
    }
}

} // verus!
