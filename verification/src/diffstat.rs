use vstd::prelude::*;

use crate::commands::NL;
use crate::commands::changed::BYTE_PLUS;

verus! {

/// The byte `-`.
pub const BYTE_MINUS: u8 = 45;

/// How many lines from position `i` on begin with `mark`, where
/// `at_start` says whether `i` is the first byte of a line. Lines are the
/// delimiter-separated segments of `s`.
pub open spec fn count_marked_from(s: Seq<u8>, i: int, at_start: bool, mark: u8) -> int
    decreases s.len() - i
        when 0 <= i <= s.len()
{
    if i >= s.len() {
        0
    } else {
        (if at_start && s[i] == mark {
            1int
        } else {
            0int
        }) + count_marked_from(s, i + 1, s[i] == NL, mark)
    }
}

/// How many lines of `s` begin with `mark`.
pub open spec fn count_marked_lines(s: Seq<u8>, mark: u8) -> int {
    count_marked_from(s, 0, true, mark)
}

/// Counts the added and removed lines of a textual diff, taking every
/// line that begins with `+` as added and every line that begins with `-`
/// as removed, headers and all.
pub fn worlds_crappiest_diffstat(diff: &[u8]) -> (r: (u32, u32))
    requires
        diff@.len() <= u32::MAX,
    ensures
        r.0 == count_marked_lines(diff@, BYTE_PLUS),
        r.1 == count_marked_lines(diff@, BYTE_MINUS),
{
    let mut added: u32 = 0;
    let mut removed: u32 = 0;
    let mut at_start: bool = true;
    let mut i: usize = 0;
    while i < diff.len()
        invariant
            0 <= i <= diff@.len() <= u32::MAX,
            added <= i,
            removed <= i,
            added + count_marked_from(diff@, i as int, at_start, BYTE_PLUS) == count_marked_lines(
                diff@,
                BYTE_PLUS,
            ),
            removed + count_marked_from(diff@, i as int, at_start, BYTE_MINUS)
                == count_marked_lines(diff@, BYTE_MINUS),
        decreases diff@.len() - i,
    {
        let b = diff[i];
        if at_start && b == BYTE_PLUS {
            added = added + 1;
        }
        if at_start && b == BYTE_MINUS {
            removed = removed + 1;
        }
        at_start = b == NL;
        i = i + 1;
    }
    (added, removed)
}

} // verus!
