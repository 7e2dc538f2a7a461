//! Characters and character sequences: case folding and word characters.

use vstd::prelude::*;

verus! {

/// Whether `c` belongs to a word: an ASCII letter, an ASCII digit or `_`.
pub open spec fn is_word_char(c: char) -> bool {
    ('a' <= c && c <= 'z') || ('A' <= c && c <= 'Z') || ('0' <= c && c <= '9') || c == '_'
}

/// `c` with an ASCII capital letter replaced by its small letter.
pub open spec fn fold_char(c: char) -> char {
    if 'A' <= c && c <= 'Z' {
        ((c as u8 + 32) as u8) as char
    } else {
        c
    }
}

/// `text` with every ASCII capital letter replaced by its small letter.
pub open spec fn fold(text: Seq<char>) -> Seq<char> {
    text.map_values(|c: char| fold_char(c))
}

/// Tests whether `c` belongs to a word.
pub fn word_char(c: char) -> (yes: bool)
    ensures
        yes == is_word_char(c),
{
    ('a' <= c && c <= 'z') || ('A' <= c && c <= 'Z') || ('0' <= c && c <= '9') || c == '_'
}

/// Folds the case of one character.
pub fn lower(c: char) -> (folded: char)
    ensures
        folded == fold_char(c),
{
    if 'A' <= c && c <= 'Z' {
        let code: u8 = c as u8;
        (code + 32) as char
    } else {
        c
    }
}

/// The characters of `s`, one by one.
pub fn chars_of(s: &str) -> (chars: Vec<char>)
    ensures
        chars@ == s@,
{
    let mut chars: Vec<char> = Vec::new();
    for c in it: s.chars()
        invariant
            it.seq() == s@,
            chars@ == it.seq().subrange(0, it.index()),
    {
        chars.push(c);
    }
    assert(chars@ == s@);
    chars
}

/// The characters of `s` with their case folded.
pub fn folded_chars_of(s: &str) -> (chars: Vec<char>)
    ensures
        chars@ == fold(s@),
{
    let mut chars: Vec<char> = Vec::new();
    for c in it: s.chars()
        invariant
            it.seq() == s@,
            chars@ == fold(it.seq().subrange(0, it.index())),
    {
        proof {
            let before = it.seq().subrange(0, it.index());
            let after = it.seq().subrange(0, it.index() + 1);
            assert(fold(after) =~= fold(before).push(fold_char(c)));
        }
        chars.push(lower(c));
    }
    assert(s@.subrange(0, s@.len() as int) =~= s@);
    chars
}

} // verus!
