//! Verified character-level helpers for `&str` values: comparison, whitespace
//! skipping and identifier scanning, shared by the directive parser.
use vstd::prelude::*;
use vstd::string::StrSliceExecFns;

verus! {

/// Relies on String::push: appends exactly the one character.
pub assume_specification[ String::push ](s: &mut String, c: char)
    ensures
        final(s)@ == old(s)@.push(c),
;

/// Whitespace, as the directive language treats it.
pub open spec fn is_space_char(c: char) -> bool {
    c == ' ' || c == '\t' || c == '\n' || c == '\r'
}

/// A character that may start an identifier.
pub open spec fn is_ident_start_char(c: char) -> bool {
    ('a' as int <= c as int && c as int <= 'z' as int) || ('A' as int <= c as int && c as int
        <= 'Z' as int) || c == '_'
}

/// A character that may continue an identifier.
pub open spec fn is_ident_char(c: char) -> bool {
    is_ident_start_char(c) || ('0' as int <= c as int && c as int <= '9' as int)
}

/// The first position at or after `i` holding a non-space character (the
/// length if there is none).
pub open spec fn sp(s: Seq<char>, i: int) -> int
    decreases s.len() - i,
{
    if 0 <= i < s.len() && is_space_char(s[i]) {
        sp(s, i + 1)
    } else {
        i
    }
}

/// The first position at or after `i` holding a non-identifier character (the
/// length if there is none).
pub open spec fn ident_end(s: Seq<char>, i: int) -> int
    decreases s.len() - i,
{
    if 0 <= i < s.len() && is_ident_char(s[i]) {
        ident_end(s, i + 1)
    } else {
        i
    }
}

/// The position just after the last non-space character (0 for an all-space
/// string).
pub open spec fn rtrim_idx(s: Seq<char>) -> int
    decreases s.len(),
{
    if s.len() > 0 && is_space_char(s[s.len() - 1]) {
        rtrim_idx(s.drop_last())
    } else {
        s.len() as int
    }
}

/// Trimming trailing spaces stays within the string.
pub proof fn lemma_rtrim_bounds(s: Seq<char>)
    ensures
        0 <= rtrim_idx(s) <= s.len(),
    decreases s.len(),
{
    if s.len() > 0 && is_space_char(s[s.len() - 1]) {
        lemma_rtrim_bounds(s.drop_last());
    }
}

/// Compares two strings character by character.
pub fn str_eq(a: &str, b: &str) -> (r: bool)
    ensures
        r == (a@ == b@),
{
    let la = a.unicode_len();
    let lb = b.unicode_len();
    if la != lb {
        return false;
    }
    let mut i: usize = 0;
    while i < la
        invariant
            la == a@.len(),
            la == b@.len(),
            i <= la,
            forall|j: int| 0 <= j < i ==> a@[j] == b@[j],
        decreases la - i,
    {
        if a.get_char(i) != b.get_char(i) {
            return false;
        }
        i = i + 1;
    }
    proof {
        assert(a@ =~= b@);
    }
    true
}

/// Decides whether a character is whitespace.
pub fn is_space(c: char) -> (r: bool)
    ensures
        r == is_space_char(c),
{
    c == ' ' || c == '\t' || c == '\n' || c == '\r'
}

/// Decides whether a character may continue an identifier.
pub fn is_ident(c: char) -> (r: bool)
    ensures
        r == is_ident_char(c),
{
    let n = c as u32;
    (97 <= n && n <= 122) || (65 <= n && n <= 90) || c == '_' || (48 <= n && n <= 57)
}

/// Returns the first position at or after `i` holding a non-space character.
pub fn skip_spaces(s: &str, i: usize) -> (r: usize)
    requires
        i <= s@.len(),
    ensures
        r == sp(s@, i as int),
        i <= r <= s@.len(),
{
    let n = s.unicode_len();
    let mut j = i;
    while j < n && is_space(s.get_char(j))
        invariant
            i <= j <= n,
            n == s@.len(),
            sp(s@, i as int) == sp(s@, j as int),
        decreases n - j,
    {
        j = j + 1;
    }
    j
}

/// Returns the first position at or after `i` holding a non-identifier
/// character.
pub fn scan_ident_end(s: &str, i: usize) -> (r: usize)
    requires
        i <= s@.len(),
    ensures
        r == ident_end(s@, i as int),
        i <= r <= s@.len(),
{
    let n = s.unicode_len();
    let mut j = i;
    while j < n && is_ident(s.get_char(j))
        invariant
            i <= j <= n,
            n == s@.len(),
            ident_end(s@, i as int) == ident_end(s@, j as int),
        decreases n - j,
    {
        j = j + 1;
    }
    j
}

/// Returns the position just after the last non-space character.
pub fn rtrim_pos(s: &str) -> (r: usize)
    ensures
        r == rtrim_idx(s@),
        r <= s@.len(),
{
    let n = s.unicode_len();
    let mut t = n;
    proof {
        assert(s@.subrange(0, n as int) =~= s@);
    }
    while t > 0 && is_space(s.get_char(t - 1))
        invariant
            t <= n,
            n == s@.len(),
            rtrim_idx(s@) == rtrim_idx(s@.subrange(0, t as int)),
        decreases t,
    {
        proof {
            assert(s@.subrange(0, t as int).drop_last() =~= s@.subrange(0, t as int - 1));
        }
        t = t - 1;
    }
    proof {
        lemma_rtrim_bounds(s@.subrange(0, t as int));
    }
    t
}

} // verus!
