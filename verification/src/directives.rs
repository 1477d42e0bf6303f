//! The filter directives that the environment supplies.
//!
//! The directive parser of `tracing-subscriber` takes a text of pieces
//! separated by commas. It measures each piece after trimming white space
//! from it and then cuts the piece as it came, so a piece that begins with
//! white space is cut too early, by the width of that white space. Among
//! ASCII characters any cut is harmless; beyond them a cut can fall inside
//! a character. This module tells such texts apart.

use vstd::prelude::*;
use vstd::std_specs::iter::IteratorSpec;

verus! {

/// White space as `str::trim` removes it: the characters with the Unicode
/// property `White_Space`.
pub open spec fn is_space(c: char) -> bool {
    ||| '\u{9}' <= c <= '\u{d}'
    ||| c == ' '
    ||| c == '\u{85}'
    ||| c == '\u{a0}'
    ||| c == '\u{1680}'
    ||| '\u{2000}' <= c <= '\u{200a}'
    ||| c == '\u{2028}'
    ||| c == '\u{2029}'
    ||| c == '\u{202f}'
    ||| c == '\u{205f}'
    ||| c == '\u{3000}'
}

/// Whether a character is encoded in one byte.
pub open spec fn is_single_byte(c: char) -> bool {
    c < '\u{80}'
}

/// Whether a piece starts at position `i`: at the start of the text, and
/// after every comma.
pub open spec fn piece_begins(text: Seq<char>, i: int) -> bool {
    0 <= i < text.len() && (i == 0 || text[i - 1] == ',')
}

/// Whether position `j` lies in the piece that starts at `i`: no comma
/// stands from `i` up to `j`.
pub open spec fn in_piece(text: Seq<char>, i: int, j: int) -> bool {
    i <= j < text.len() && forall|k: int| i <= k < j ==> text[k] != ','
}

/// Whether the parser cuts every piece of `text` between characters: a
/// piece that begins with white space holds single-byte characters only.
pub open spec fn parses_whole(text: Seq<char>) -> bool {
    forall|i: int, j: int|
        #![trigger piece_begins(text, i), in_piece(text, i, j)]
        piece_begins(text, i) && is_space(text[i]) && in_piece(text, i, j) ==> is_single_byte(
            text[j],
        )
}

/// The directives that are handed to the parser: the text itself where it
/// [`parses_whole`], and otherwise no directive at all.
pub open spec fn honoured(text: Seq<char>) -> Seq<char> {
    if parses_whole(text) {
        text
    } else {
        Seq::empty()
    }
}

/// Computes [`is_space`].
pub fn space(c: char) -> (yes: bool)
    ensures
        yes == is_space(c),
{
    ('\u{9}' <= c && c <= '\u{d}') || c == ' ' || c == '\u{85}' || c == '\u{a0}' || c == '\u{1680}'
        || ('\u{2000}' <= c && c <= '\u{200a}') || c == '\u{2028}' || c == '\u{2029}' || c
        == '\u{202f}' || c == '\u{205f}' || c == '\u{3000}'
}

/// Decides [`parses_whole`] in one pass over the text.
pub fn check_whole(text: &str) -> (whole: bool)
    ensures
        whole == parses_whole(text@),
{
    let mut rest = text.chars();
    let ghost mut at: int = 0;
    let ghost mut start: int = 0;
    let mut fresh: bool = true;
    let mut led: bool = false;
    loop
        invariant
            0 <= start <= at <= text@.len(),
            rest.remaining() == text@.skip(at),
            rest.decrease() is Some,
            start == 0 || text@[start - 1] == ',',
            forall|k: int| start <= k < at ==> text@[k] != ',',
            fresh == (start == at),
            !fresh ==> led == is_space(text@[start]),
            forall|i: int, j: int|
                #![trigger piece_begins(text@, i), in_piece(text@, i, j)]
                piece_begins(text@, i) && is_space(text@[i]) && in_piece(text@, i, j) && j < at
                    ==> is_single_byte(text@[j]),
        decreases rest.decrease()->0,
    {
        let ghost before = rest;
        let next = rest.next();
        proof {
            vstd::string::next_postcondition(&before, &rest, next);
        }
        match next {
            None => {
                return true;
            },
            Some(c) => {
                if fresh {
                    led = space(c);
                    fresh = false;
                }
                if led && c >= '\u{80}' {
                    assert(piece_begins(text@, start) && in_piece(text@, start, at));
                    return false;
                }
                proof {
                    at = at + 1;
                }
                if c == ',' {
                    fresh = true;
                    proof {
                        start = at;
                    }
                }
            },
        }
    }
}

/// Chooses the directives that are handed to the parser: the text of the
/// environment where the parser cuts it between characters, and otherwise
/// the empty text, as if the environment gave none.
pub fn usable(text: &str) -> (directives: String)
    ensures
        directives@ == honoured(text@),
{
    if check_whole(text) {
        text.to_owned()
    } else {
        String::new()
    }
}

/// The directives that are handed to the parser can always be parsed.
pub proof fn law_honoured_parses_whole(text: Seq<char>)
    ensures
        parses_whole(honoured(text)),
{
}

/// A text whose pieces all begin without white space is honoured as it is,
/// and so is a text of single-byte characters.
pub proof fn law_plain_texts_are_honoured(text: Seq<char>)
    requires
        (forall|i: int| piece_begins(text, i) ==> !is_space(#[trigger] text[i])) || (forall|
            j: int,
        | 0 <= j < text.len() ==> is_single_byte(#[trigger] text[j])),
    ensures
        honoured(text) == text,
{
}

} // verus!
