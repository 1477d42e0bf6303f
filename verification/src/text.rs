//! Character-level helpers for short keywords.

use vstd::prelude::*;

verus! {

/// The ASCII lower-case form of a character: the letters `A` to `Z` move to
/// `a` to `z`, and every other character, ASCII or not, stays as it is.
pub open spec fn lower(c: char) -> char {
    if 'A' <= c && c <= 'Z' {
        ((c as u8) + 32) as char
    } else {
        c
    }
}

/// A text with every character replaced by its ASCII lower-case form.
pub open spec fn lowercase(s: Seq<char>) -> Seq<char> {
    Seq::new(s.len(), |i: int| lower(s[i]))
}

/// Computes [`lower`].
pub fn to_lower(c: char) -> (l: char)
    ensures
        l == lower(c),
{
    if 'A' <= c && c <= 'Z' {
        let b: u8 = c as u8;
        (b + 32) as char
    } else {
        c
    }
}

/// Whether `s` and `word` hold the same characters.
///
/// The scan reads `s` once to count it and then at most `word` many
/// positions, so it is meant for short keywords.
pub fn same_text(s: &str, word: &str) -> (same: bool)
    ensures
        same == (s@ == word@),
{
    let n: usize = word.unicode_len();
    if s.unicode_len() != n {
        return false;
    }
    let mut i: usize = 0;
    while i < n
        invariant
            i <= n,
            n == word@.len(),
            n == s@.len(),
            forall|j: int| 0 <= j < i ==> s@[j] == word@[j],
        decreases n - i,
    {
        if s.get_char(i) != word.get_char(i) {
            return false;
        }
        i = i + 1;
    }
    assert(s@ =~= word@);
    true
}

/// Whether the ASCII lower-case form of `s` is `word`.
pub fn same_text_lowered(s: &str, word: &str) -> (same: bool)
    ensures
        same == (lowercase(s@) == word@),
{
    let n: usize = word.unicode_len();
    if s.unicode_len() != n {
        return false;
    }
    let mut i: usize = 0;
    while i < n
        invariant
            i <= n,
            n == word@.len(),
            n == s@.len(),
            forall|j: int| 0 <= j < i ==> lower(s@[j]) == word@[j],
        decreases n - i,
    {
        if to_lower(s.get_char(i)) != word.get_char(i) {
            assert(lowercase(s@)[i as int] != word@[i as int]);
            return false;
        }
        i = i + 1;
    }
    assert(lowercase(s@) =~= word@);
    true
}

} // verus!
