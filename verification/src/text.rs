//! Case-insensitive character and substring matching over window titles.
//!
//! Titles are ordinary strings; their mathematical model is the `Seq<char>`
//! view. Case folding is ASCII folding: the patterns the supervisor looks
//! for are ASCII, and the windowing system reports titles through an ANSI
//! text call, so folding the ASCII letters is exactly what "case-insensitive"
//! means for this utility.

use vstd::prelude::*;
use vstd::string::StrSliceExecFns;

verus! {

/// ASCII case folding on a unicode scalar value: the capital letters
/// 'A'..='Z' (65..=90) map to the corresponding small letters, everything
/// else is unchanged.
pub open spec fn fold_val(x: u32) -> u32 {
    if 65 <= x && x <= 90 {
        (x + 32) as u32
    } else {
        x
    }
}

/// Two characters are equal up to ASCII case.
pub open spec fn ci_eq(a: char, b: char) -> bool {
    fold_val(a as u32) == fold_val(b as u32)
}

/// `needle` occurs at position `i` of `hay`, comparing characters up to
/// ASCII case.
pub open spec fn matches_at(hay: Seq<char>, needle: Seq<char>, i: int) -> bool {
    &&& 0 <= i
    &&& i + needle.len() <= hay.len()
    &&& forall|j: int| 0 <= j < needle.len() ==> ci_eq(hay[i + j], needle[j])
}

/// `hay` contains `needle` as a contiguous run of characters, up to ASCII
/// case.
pub open spec fn contains_ci(hay: Seq<char>, needle: Seq<char>) -> bool {
    exists|i: int| matches_at(hay, needle, i)
}

/// Compares one character of a title against one pattern character, up to
/// ASCII case.
pub fn chars_match_ci(a: char, b: char) -> (r: bool)
    ensures
        r == ci_eq(a, b),
{
    let x: u32 = a as u32;
    let y: u32 = b as u32;
    let fx: u32 = if 65 <= x && x <= 90 {
        x + 32
    } else {
        x
    };
    let fy: u32 = if 65 <= y && y <= 90 {
        y + 32
    } else {
        y
    };
    fx == fy
}

/// Does `needle` occur at position `i` of `hay`, up to ASCII case?
fn match_at(hay: &str, needle: &str, i: usize, n: usize, m: usize) -> (r: bool)
    requires
        n == hay@.len(),
        m == needle@.len(),
        i + m <= n,
    ensures
        r == matches_at(hay@, needle@, i as int),
{
    let mut j: usize = 0;
    while j < m
        invariant
            n == hay@.len(),
            m == needle@.len(),
            i + m <= n,
            j <= m,
            forall|j0: int| 0 <= j0 < j ==> ci_eq(hay@[i + j0], needle@[j0]),
        decreases m - j,
    {
        let a = hay.get_char(i + j);
        let b = needle.get_char(j);
        if !chars_match_ci(a, b) {
            assert(!ci_eq(hay@[i + j], needle@[j as int]));
            return false;
        }
        j += 1;
    }
    true
}

/// Scans `hay` for an occurrence of `needle`, comparing characters up to
/// ASCII case, and reports whether one exists.
pub fn contains_pattern_ci(hay: &str, needle: &str) -> (r: bool)
    ensures
        r == contains_ci(hay@, needle@),
{
    let n: usize = hay.unicode_len();
    let m: usize = needle.unicode_len();
    if m == 0 {
        assert(matches_at(hay@, needle@, 0));
        return true;
    }
    if m > n {
        assert(forall|i: int| !matches_at(hay@, needle@, i));
        return false;
    }
    let mut i: usize = 0;
    while i <= n - m
        invariant
            n == hay@.len(),
            m == needle@.len(),
            0 < m <= n,
            i <= n - m + 1,
            forall|i0: int| 0 <= i0 < i ==> !matches_at(hay@, needle@, i0),
        decreases n - m + 1 - i,
    {
        if match_at(hay, needle, i, n, m) {
            assert(contains_ci(hay@, needle@));
            return true;
        }
        i += 1;
    }
    assert forall|i0: int| !matches_at(hay@, needle@, i0) by {
        if 0 <= i0 && i0 + m <= n {
            assert(i0 < i);
        }
    }
    false
}

/// Compares two strings for exact (case-sensitive) equality of their
/// character sequences.
pub fn str_eq_exact(a: &str, b: &str) -> (r: bool)
    ensures
        r == (a@ == b@),
{
    let n: usize = a.unicode_len();
    if n != b.unicode_len() {
        return false;
    }
    let mut i: usize = 0;
    while i < n
        invariant
            n == a@.len(),
            n == b@.len(),
            i <= n,
            forall|k: int| 0 <= k < i ==> a@[k] == b@[k],
        decreases n - i,
    {
        if a.get_char(i) != b.get_char(i) {
            return false;
        }
        i += 1;
    }
    proof {
        assert(a@ =~= b@);
    }
    true
}

} // verus!
