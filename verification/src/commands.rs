use vstd::prelude::*;
use vstd::slice::slice_subrange;

use crate::error::SvnError;

pub mod changed;
pub mod info;

verus! {

/// The line delimiter, `\n`.
pub const NL: u8 = 10;

/// The byte `0`.
pub const DIGIT_ZERO: u8 = 48;

/// The byte `9`.
pub const DIGIT_NINE: u8 = 57;

/// True when `l` ends with the line delimiter.
pub open spec fn ends_with_nl(l: Seq<u8>) -> bool {
    l.len() > 0 && l[l.len() - 1] == NL
}

/// `l` without its trailing delimiter byte.
pub open spec fn chomped(l: Seq<u8>) -> Seq<u8> {
    l.take(l.len() - 1)
}

/// Strips the trailing line delimiter, or reports a parse failure when the
/// line does not end with one.
pub fn try_chomp(slice: &[u8]) -> (r: Result<&[u8], SvnError>)
    ensures
        ends_with_nl(slice@) ==> (r matches Ok(c) && c@ == chomped(slice@)),
        !ends_with_nl(slice@) ==> (r matches Err(e) && e == SvnError::ParseError),
{
    if slice.len() > 0 && slice[slice.len() - 1] == NL {
        Ok(slice_subrange(slice, 0, slice.len() - 1))
    } else {
        Err(SvnError::ParseError)
    }
}

/// An ASCII decimal digit.
pub open spec fn is_dec_digit(b: u8) -> bool {
    DIGIT_ZERO <= b && b <= DIGIT_NINE
}

pub open spec fn all_dec_digits(s: Seq<u8>) -> bool {
    forall|i: int| 0 <= i < s.len() ==> is_dec_digit(#[trigger] s[i])
}

/// The value of `s` read as a decimal numeral.
pub open spec fn dec_value(s: Seq<u8>) -> int
    decreases s.len(),
{
    if s.len() == 0 {
        0
    } else {
        dec_value(s.drop_last()) * 10 + (s.last() - DIGIT_ZERO)
    }
}

proof fn lemma_dec_value_nonneg(s: Seq<u8>)
    requires
        all_dec_digits(s),
    ensures
        dec_value(s) >= 0,
    decreases s.len(),
{
    if s.len() > 0 {
        assert(all_dec_digits(s.drop_last()));
        lemma_dec_value_nonneg(s.drop_last());
    }
}

proof fn lemma_dec_value_take_le(s: Seq<u8>, i: int)
    requires
        all_dec_digits(s),
        0 <= i <= s.len(),
    ensures
        dec_value(s.take(i)) <= dec_value(s),
    decreases s.len() - i,
{
    if i == s.len() {
        assert(s.take(i) =~= s);
    } else {
        assert(s.take(i + 1).drop_last() =~= s.take(i));
        assert(all_dec_digits(s.take(i)));
        lemma_dec_value_nonneg(s.take(i));
        lemma_dec_value_take_le(s, i + 1);
    }
}

/// Reads `s` as an unsigned decimal numeral: one or more digits, nothing
/// else, value within range.
pub fn parse_u64_digits(s: &[u8]) -> (r: Result<u64, SvnError>)
    ensures
        (r matches Ok(n)) <==> (s@.len() > 0 && all_dec_digits(s@) && dec_value(s@)
            <= u64::MAX),
        r matches Ok(n) ==> n == dec_value(s@),
        r matches Err(e) ==> e == SvnError::ParseError,
{
    if s.len() == 0 {
        return Err(SvnError::ParseError);
    }
    let mut acc: u64 = 0;
    let mut i: usize = 0;
    while i < s.len()
        invariant
            0 <= i <= s@.len(),
            all_dec_digits(s@.take(i as int)),
            acc == dec_value(s@.take(i as int)),
        decreases s@.len() - i,
    {
        let b = s[i];
        if b < DIGIT_ZERO || b > DIGIT_NINE {
            assert(!is_dec_digit(s@[i as int]));
            return Err(SvnError::ParseError);
        }
        let d = (b - DIGIT_ZERO) as u64;
        proof {
            assert(s@.take(i as int + 1).drop_last() =~= s@.take(i as int));
            assert(s@.take(i as int + 1).last() == s@[i as int]);
            assert(all_dec_digits(s@.take(i as int + 1)));
        }
        if acc > u64::MAX / 10 || (acc == u64::MAX / 10 && d > u64::MAX % 10) {
            proof {
                assert(dec_value(s@.take(i as int + 1)) > u64::MAX);
                if all_dec_digits(s@) {
                    lemma_dec_value_take_le(s@, i as int + 1);
                }
            }
            return Err(SvnError::ParseError);
        }
        acc = acc * 10 + d;
        i = i + 1;
    }
    proof {
        assert(s@.take(i as int) =~= s@);
    }
    Ok(acc)
}

/// The least delimiter position in `s` at or after `from`.
pub open spec fn find_nl(s: Seq<u8>, from: int) -> Option<int>
    decreases s.len() - from
        when 0 <= from <= s.len()
{
    if from >= s.len() {
        None
    } else if s[from] == NL {
        Some(from)
    } else {
        find_nl(s, from + 1)
    }
}

pub fn find_newline(s: &[u8], from: usize) -> (r: Option<usize>)
    requires
        from <= s@.len(),
    ensures
        match r {
            Some(j) => from <= j < s@.len() && find_nl(s@, from as int) == Some(j as int),
            None => find_nl(s@, from as int) is None,
        },
{
    let mut i: usize = from;
    while i < s.len()
        invariant
            from <= i <= s@.len(),
            find_nl(s@, from as int) == find_nl(s@, i as int),
        decreases s@.len() - i,
    {
        if s[i] == NL {
            return Some(i);
        }
        i = i + 1;
    }
    None
}

/// Relies on `str::from_utf8`: it succeeds exactly on valid UTF-8 and
/// returns the text those bytes encode.
#[verifier::external_body]
pub(crate) fn utf8_str(b: &[u8]) -> (r: Option<&str>)
    ensures
        (r is Some) == vstd::utf8::valid_utf8(b@),
        r matches Some(s) ==> s@ == vstd::utf8::decode_utf8(b@),
{
    core::str::from_utf8(b).ok()
}

/// What `String::from_utf8_lossy` returns for the given bytes.
pub uninterp spec fn lossy_of(b: Seq<u8>) -> Seq<char>;

/// Relies on `String::from_utf8_lossy`: the result depends on the bytes
/// alone, and on valid UTF-8 it is exactly the UTF-8 decoding of the bytes.
#[verifier::external_body]
pub(crate) fn lossy_string(b: &[u8]) -> (r: String)
    ensures
        r@ == lossy_of(b@),
        vstd::utf8::valid_utf8(b@) ==> r@ == vstd::utf8::decode_utf8(b@),
{
    String::from_utf8_lossy(b).into_owned()
}

} // verus!
