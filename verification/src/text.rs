//! Verified helpers over `&str` and `String`, used by the name parsers.
//!
//! All positions and lengths here count characters, never bytes, so that the
//! executable results line up with the `Seq<char>` views of the inputs.

use vstd::prelude::*;
use vstd::string::*;

verus! {

/// `pat` occurs in `text` starting at position `i`.
pub open spec fn occurs_at(text: Seq<char>, pat: Seq<char>, i: int) -> bool {
    &&& 0 <= i
    &&& i + pat.len() <= text.len()
    &&& text.subrange(i, i + pat.len() as int) == pat
}

/// The rightmost position at or below `i` where `pat` occurs in `text`.
pub open spec fn rfind_from(text: Seq<char>, pat: Seq<char>, i: int) -> Option<int>
    decreases i + 1,
{
    if i < 0 {
        None
    } else if occurs_at(text, pat, i) {
        Some(i)
    } else {
        rfind_from(text, pat, i - 1)
    }
}

/// The rightmost position where `pat` occurs in `text`, if it occurs at all.
pub open spec fn rfind(text: Seq<char>, pat: Seq<char>) -> Option<int> {
    rfind_from(text, pat, text.len() - pat.len())
}

/// A position reported by `rfind_from` is a real occurrence within bounds.
proof fn lemma_rfind_from_occurs(text: Seq<char>, pat: Seq<char>, i: int)
    ensures
        match rfind_from(text, pat, i) {
            Some(j) => occurs_at(text, pat, j) && j <= i,
            None => true,
        },
    decreases i + 1,
{
    if i >= 0 && !occurs_at(text, pat, i) {
        lemma_rfind_from_occurs(text, pat, i - 1);
    }
}

/// A position reported by `rfind` is a real occurrence of `pat` in `text`.
pub proof fn lemma_rfind_occurs(text: Seq<char>, pat: Seq<char>)
    ensures
        match rfind(text, pat) {
            Some(j) => occurs_at(text, pat, j) && j + pat.len() <= text.len(),
            None => true,
        },
{
    lemma_rfind_from_occurs(text, pat, text.len() - pat.len());
}

/// Whether `pat` occurs in `text` starting at character position `i`.
fn occurs_at_exec(text: &str, pat: &str, i: usize) -> (b: bool)
    requires
        i + pat@.len() <= text@.len(),
    ensures
        b == occurs_at(text@, pat@, i as int),
{
    let text_len: usize = text.unicode_len();
    let pat_len: usize = pat.unicode_len();
    let mut j: usize = 0;
    while j < pat_len
        invariant
            text_len == text@.len(),
            pat_len == pat@.len(),
            i + pat_len <= text_len,
            0 <= j <= pat_len,
            forall|k: int| 0 <= k < j ==> text@[i + k] == pat@[k],
        decreases pat_len - j,
    {
        if text.get_char(i + j) != pat.get_char(j) {
            assert(text@.subrange(i as int, i + pat@.len())[j as int] != pat@[j as int]);
            return false;
        }
        j += 1;
    }
    assert(text@.subrange(i as int, i + pat@.len()) =~= pat@);
    true
}

/// The rightmost occurrence of `pat` in `text`, by character position.
pub fn rfind_str(text: &str, pat: &str) -> (r: Option<usize>)
    ensures
        match r {
            Some(i) => rfind(text@, pat@) == Some(i as int),
            None => rfind(text@, pat@) is None,
        },
{
    let text_len: usize = text.unicode_len();
    let pat_len: usize = pat.unicode_len();
    if pat_len > text_len {
        return None;
    }
    let mut i: usize = text_len - pat_len;
    loop
        invariant
            text_len == text@.len(),
            pat_len == pat@.len(),
            pat_len <= text_len,
            0 <= i <= text_len - pat_len,
            rfind(text@, pat@) == rfind_from(text@, pat@, i as int),
        decreases i + 1,
    {
        if occurs_at_exec(text, pat, i) {
            return Some(i);
        }
        if i == 0 {
            return None;
        }
        i = i - 1;
    }
}

/// The leftmost position at or above `i` in `text` holding a character of `set`.
pub open spec fn find_char_from(text: Seq<char>, set: Seq<char>, i: int) -> Option<int>
    decreases text.len() - i,
{
    if i < 0 || i >= text.len() {
        None
    } else if set.contains(text[i]) {
        Some(i)
    } else {
        find_char_from(text, set, i + 1)
    }
}

/// A position reported by `find_char_from` is in range and holds a character
/// of `set`.
pub proof fn lemma_find_char_from_bounds(text: Seq<char>, set: Seq<char>, i: int)
    ensures
        match find_char_from(text, set, i) {
            Some(j) => i <= j < text.len() && set.contains(text[j]),
            None => true,
        },
    decreases text.len() - i,
{
    if 0 <= i < text.len() && !set.contains(text[i]) {
        lemma_find_char_from_bounds(text, set, i + 1);
    }
}

/// Whether `set` holds `c`.
fn contains_char(set: &Vec<char>, c: char) -> (b: bool)
    ensures
        b == set@.contains(c),
{
    let mut i: usize = 0;
    while i < set.len()
        invariant
            0 <= i <= set@.len(),
            forall|k: int| 0 <= k < i ==> set@[k] != c,
        decreases set@.len() - i,
    {
        if set[i] == c {
            return true;
        }
        i += 1;
    }
    false
}

/// The leftmost character of `set` occurring in `text`, searching from the start.
pub fn find_char_in(text: &str, set: &Vec<char>) -> (r: Option<usize>)
    ensures
        match r {
            Some(i) => find_char_from(text@, set@, 0) == Some(i as int) && i < text@.len(),
            None => find_char_from(text@, set@, 0) is None,
        },
{
    let text_len: usize = text.unicode_len();
    let mut i: usize = 0;
    while i < text_len
        invariant
            text_len == text@.len(),
            0 <= i <= text_len,
            find_char_from(text@, set@, 0) == find_char_from(text@, set@, i as int),
        decreases text_len - i,
    {
        if contains_char(set, text.get_char(i)) {
            return Some(i);
        }
        i += 1;
    }
    None
}

/// The Unicode `White_Space` characters, those that `str::trim` removes.
pub open spec fn space_char(c: char) -> bool {
    ||| (0x9 <= c as u32 && c as u32 <= 0xD)
    ||| c == ' '
    ||| c == '\u{85}'
    ||| c == '\u{A0}'
    ||| c == '\u{1680}'
    ||| (0x2000 <= c as u32 && c as u32 <= 0x200A)
    ||| c == '\u{2028}'
    ||| c == '\u{2029}'
    ||| c == '\u{202F}'
    ||| c == '\u{205F}'
    ||| c == '\u{3000}'
}

/// Every character of `s` is white space.
pub open spec fn blank(s: Seq<char>) -> bool {
    forall|i: int| 0 <= i < s.len() ==> space_char(s[i])
}

/// Whether `c` is a Unicode `White_Space` character.
fn is_space(c: char) -> (b: bool)
    ensures
        b == space_char(c),
{
    let n = c as u32;
    (0x9 <= n && n <= 0xD) || n == 0x20 || n == 0x85 || n == 0xA0 || n == 0x1680 || (0x2000 <= n
        && n <= 0x200A) || n == 0x2028 || n == 0x2029 || n == 0x202F || n == 0x205F || n == 0x3000
}

/// Whether `s` is empty or made of white space alone, as `s.trim().is_empty()`.
pub fn is_blank_str(s: &str) -> (b: bool)
    ensures
        b == blank(s@),
{
    let len: usize = s.unicode_len();
    let mut i: usize = 0;
    while i < len
        invariant
            len == s@.len(),
            0 <= i <= len,
            forall|k: int| 0 <= k < i ==> space_char(s@[k]),
        decreases len - i,
    {
        if !is_space(s.get_char(i)) {
            return false;
        }
        i += 1;
    }
    true
}

/// An owned copy of the characters of `s` from `from` to `to`.
pub fn substr_string(s: &str, from: usize, to: usize) -> (r: String)
    requires
        from <= to <= s@.len(),
    ensures
        r@ == s@.subrange(from as int, to as int),
{
    let sub = s.substring_char(from, to);
    String::from_str(sub)
}

} // verus!
