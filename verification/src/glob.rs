//! Glob patterns: `*` stands for any run of characters, `?` for exactly one
//! character, and every other character for itself.

use crate::text::{chars_of, fold, folded_chars_of, is_word_char, word_char};
use vstd::prelude::*;

verus! {

/// Whether the glob `pattern` matches the whole of `text`.
pub open spec fn glob_matches(pattern: Seq<char>, text: Seq<char>) -> bool
    decreases pattern.len(), text.len(),
{
    if pattern.len() == 0 {
        text.len() == 0
    } else if pattern[0] == '*' {
        glob_matches(pattern.drop_first(), text) || (text.len() > 0 && glob_matches(
            pattern,
            text.drop_first(),
        ))
    } else {
        text.len() > 0 && (pattern[0] == '?' || pattern[0] == text[0]) && glob_matches(
            pattern.drop_first(),
            text.drop_first(),
        )
    }
}

/// Whether a word may start at position `at` of `text`: at the start of the
/// text, or behind a character that belongs to no word.
pub open spec fn word_starts(text: Seq<char>, at: int) -> bool {
    at == 0 || (0 < at <= text.len() && !is_word_char(text[at - 1]))
}

/// Whether a word may end at position `at` of `text`: at the end of the
/// text, or before a character that belongs to no word.
pub open spec fn word_ends(text: Seq<char>, at: int) -> bool {
    at == text.len() || (0 <= at < text.len() && !is_word_char(text[at]))
}

/// Whether the glob `pattern` matches a stretch of `text` that no word
/// character precedes and none follows.
pub open spec fn glob_matches_word(pattern: Seq<char>, text: Seq<char>) -> bool {
    exists|from: int, to: int|
        0 <= from <= to <= text.len() && word_starts(text, from) && word_ends(text, to)
            && #[trigger] glob_matches(pattern, text.subrange(from, to))
}

/// Whether `word` stands in `text` at position `from`, with no word
/// character before it and none behind it.
pub open spec fn word_stands_at(text: Seq<char>, word: Seq<char>, from: int) -> bool {
    0 <= from && from + word.len() <= text.len() && word_starts(text, from) && word_ends(
        text,
        from + word.len(),
    ) && text.subrange(from, from + word.len()) == word
}

/// Whether `word` stands somewhere in `text` with no word character before
/// it and none behind it.
pub open spec fn contains_word(text: Seq<char>, word: Seq<char>) -> bool {
    exists|from: int| word_stands_at(text, word, from)
}

/// Whether `pattern` holds neither `*` nor `?`.
pub open spec fn is_literal(pattern: Seq<char>) -> bool {
    forall|i: int| 0 <= i < pattern.len() ==> pattern[i] != '*' && pattern[i] != '?'
}

/// A pattern without wildcards matches itself and nothing else.
pub proof fn lemma_literal_matches_itself(pattern: Seq<char>, text: Seq<char>)
    requires
        is_literal(pattern),
    ensures
        glob_matches(pattern, text) == (text == pattern),
    decreases pattern.len(),
{
    if pattern.len() == 0 {
        assert(glob_matches(pattern, text) == (text.len() == 0));
        assert((text.len() == 0) == (text =~= pattern));
    } else {
        assert(pattern[0] != '*' && pattern[0] != '?');
        if text.len() > 0 {
            let p = pattern.drop_first();
            let t = text.drop_first();
            assert forall|i: int| 0 <= i < p.len() implies p[i] != '*' && p[i] != '?' by {
                assert(p[i] == pattern[i + 1]);
            }
            lemma_literal_matches_itself(p, t);
            if t == p && pattern[0] == text[0] {
                assert(text =~= seq![text[0]] + t);
                assert(pattern =~= seq![pattern[0]] + p);
            }
        }
    }
}

/// Every pattern matches itself, wildcards and all.
pub proof fn lemma_matches_itself(pattern: Seq<char>)
    ensures
        glob_matches(pattern, pattern),
    decreases pattern.len(),
{
    if pattern.len() > 0 {
        let rest = pattern.drop_first();
        lemma_matches_itself(rest);
        if pattern[0] == '*' {
            assert(glob_matches(pattern, rest));
        }
    }
}

/// The pattern `*` matches every text.
pub proof fn lemma_star_matches_all(text: Seq<char>)
    ensures
        glob_matches(seq!['*'], text),
    decreases text.len(),
{
    let star = seq!['*'];
    assert(star.drop_first().len() == 0);
    if text.len() == 0 {
        assert(glob_matches(star.drop_first(), text));
    } else {
        lemma_star_matches_all(text.drop_first());
    }
}

/// A word-bounded match of a pattern without wildcards is an occurrence of
/// the pattern between two word boundaries.
pub proof fn lemma_literal_word_match(pattern: Seq<char>, text: Seq<char>)
    requires
        is_literal(pattern),
    ensures
        glob_matches_word(pattern, text) == contains_word(text, pattern),
{
    if glob_matches_word(pattern, text) {
        let (from, to) = choose|from: int, to: int|
            0 <= from <= to <= text.len() && word_starts(text, from) && word_ends(text, to)
                && #[trigger] glob_matches(pattern, text.subrange(from, to));
        lemma_literal_matches_itself(pattern, text.subrange(from, to));
        assert(to == from + pattern.len());
        assert(word_stands_at(text, pattern, from));
    }
    if contains_word(text, pattern) {
        let from = choose|from: int| word_stands_at(text, pattern, from);
        let to = from + pattern.len();
        lemma_literal_matches_itself(pattern, text.subrange(from, to));
        assert(glob_matches(pattern, text.subrange(from, to)));
    }
}

/// Whether a match may start at `at`: anywhere a word may start when
/// `words` is set, at the start of the text only when it is not.
pub open spec fn opens(text: Seq<char>, words: bool, at: int) -> bool {
    at == 0 || (words && word_starts(text, at))
}

/// Whether a match may end at `at`: anywhere a word may end when `words` is
/// set, at the end of the text only when it is not.
pub open spec fn closes(text: Seq<char>, words: bool, at: int) -> bool {
    at == text.len() || (words && word_ends(text, at))
}

/// Whether the rest of `pattern` from `i` matches a stretch of `text` that
/// starts at `j` and ends where a match may end.
pub open spec fn reaches(pattern: Seq<char>, text: Seq<char>, words: bool, i: int, j: int) -> bool {
    exists|to: int|
        j <= to <= text.len() && closes(text, words, to) && #[trigger] glob_matches(
            pattern.subrange(i, pattern.len() as int),
            text.subrange(j, to),
        )
}

/// Whether `pattern` matches a stretch of `text` that starts where a match
/// may start and ends where one may end.
pub open spec fn found(pattern: Seq<char>, text: Seq<char>, words: bool) -> bool {
    exists|from: int|
        0 <= from <= text.len() && opens(text, words, from) && #[trigger] reaches(
            pattern,
            text,
            words,
            0,
            from,
        )
}

/// With the pattern used up, a match ends exactly where it stands.
pub proof fn lemma_reaches_at_end(pattern: Seq<char>, text: Seq<char>, words: bool, j: int)
    requires
        0 <= j <= text.len(),
    ensures
        reaches(pattern, text, words, pattern.len() as int, j) == closes(text, words, j),
{
    let rest = pattern.subrange(pattern.len() as int, pattern.len() as int);
    assert(rest.len() == 0);
    if closes(text, words, j) {
        assert(text.subrange(j, j).len() == 0);
        assert(glob_matches(rest, text.subrange(j, j)));
    }
    if reaches(pattern, text, words, pattern.len() as int, j) {
        let to = choose|to: int|
            j <= to <= text.len() && closes(text, words, to) && #[trigger] glob_matches(
                rest,
                text.subrange(j, to),
            );
        assert(text.subrange(j, to).len() == 0);
        assert(to == j);
    }
}

/// One step of the pattern: how a match from `(i, j)` comes from matches
/// one character further on in the pattern, in the text, or in both.
pub proof fn lemma_reaches_step(pattern: Seq<char>, text: Seq<char>, words: bool, i: int, j: int)
    requires
        0 <= i < pattern.len(),
        0 <= j <= text.len(),
    ensures
        reaches(pattern, text, words, i, j) == (if pattern[i] == '*' {
            reaches(pattern, text, words, i + 1, j) || (j < text.len() && reaches(
                pattern,
                text,
                words,
                i,
                j + 1,
            ))
        } else {
            j < text.len() && (pattern[i] == '?' || pattern[i] == text[j]) && reaches(
                pattern,
                text,
                words,
                i + 1,
                j + 1,
            )
        }),
{
    let m = pattern.len() as int;
    let here = pattern.subrange(i, m);
    let next = pattern.subrange(i + 1, m);
    assert(here.drop_first() =~= next);
    assert(here[0] == pattern[i]);
    assert forall|to: int| j < to <= text.len() implies #[trigger] text.subrange(j, to).drop_first()
        == text.subrange(j + 1, to) by {
        assert(text.subrange(j, to).drop_first() =~= text.subrange(j + 1, to));
    }
    let rhs = if pattern[i] == '*' {
        reaches(pattern, text, words, i + 1, j) || (j < text.len() && reaches(
            pattern,
            text,
            words,
            i,
            j + 1,
        ))
    } else {
        j < text.len() && (pattern[i] == '?' || pattern[i] == text[j]) && reaches(
            pattern,
            text,
            words,
            i + 1,
            j + 1,
        )
    };
    if reaches(pattern, text, words, i, j) {
        let to = choose|to: int|
            j <= to <= text.len() && closes(text, words, to) && #[trigger] glob_matches(
                here,
                text.subrange(j, to),
            );
        let part = text.subrange(j, to);
        if pattern[i] == '*' {
            if glob_matches(next, part) {
                assert(reaches(pattern, text, words, i + 1, j));
            } else {
                assert(part.len() > 0);
                assert(part.drop_first() == text.subrange(j + 1, to));
                assert(glob_matches(here, text.subrange(j + 1, to)));
                assert(reaches(pattern, text, words, i, j + 1));
            }
        } else {
            assert(part.len() > 0);
            assert(part[0] == text[j]);
            assert(part.drop_first() == text.subrange(j + 1, to));
            assert(glob_matches(next, text.subrange(j + 1, to)));
            assert(reaches(pattern, text, words, i + 1, j + 1));
        }
        assert(rhs);
    }
    if rhs {
        if pattern[i] == '*' {
            if reaches(pattern, text, words, i + 1, j) {
                let to = choose|to: int|
                    j <= to <= text.len() && closes(text, words, to) && #[trigger] glob_matches(
                        next,
                        text.subrange(j, to),
                    );
                assert(glob_matches(here, text.subrange(j, to)));
            } else {
                let to = choose|to: int|
                    j + 1 <= to <= text.len() && closes(text, words, to) && #[trigger] glob_matches(
                        here,
                        text.subrange(j + 1, to),
                    );
                let part = text.subrange(j, to);
                assert(part.len() > 0);
                assert(part.drop_first() == text.subrange(j + 1, to));
                assert(glob_matches(here, part));
            }
        } else {
            let to = choose|to: int|
                j + 1 <= to <= text.len() && closes(text, words, to) && #[trigger] glob_matches(
                    next,
                    text.subrange(j + 1, to),
                );
            let part = text.subrange(j, to);
            assert(part.len() > 0);
            assert(part[0] == text[j]);
            assert(part.drop_first() == text.subrange(j + 1, to));
            assert(glob_matches(here, part));
        }
        assert(reaches(pattern, text, words, i, j));
    }
}

/// Without word boundaries, a match is a match of the whole text.
pub proof fn lemma_found_whole(pattern: Seq<char>, text: Seq<char>)
    ensures
        found(pattern, text, false) == glob_matches(pattern, text),
{
    let n = text.len() as int;
    let m = pattern.len() as int;
    assert(pattern.subrange(0, m) =~= pattern);
    assert(text.subrange(0, n) =~= text);
    if found(pattern, text, false) {
        let from = choose|from: int|
            0 <= from <= text.len() && opens(text, false, from) && #[trigger] reaches(
                pattern,
                text,
                false,
                0,
                from,
            );
        let to = choose|to: int|
            from <= to <= text.len() && closes(text, false, to) && #[trigger] glob_matches(
                pattern.subrange(0, m),
                text.subrange(from, to),
            );
        assert(from == 0 && to == n);
    }
    if glob_matches(pattern, text) {
        assert(glob_matches(pattern.subrange(0, m), text.subrange(0, n)));
        assert(reaches(pattern, text, false, 0, 0));
    }
}

/// With word boundaries, a match is a match of a stretch between two of
/// them.
pub proof fn lemma_found_word(pattern: Seq<char>, text: Seq<char>)
    ensures
        found(pattern, text, true) == glob_matches_word(pattern, text),
{
    let m = pattern.len() as int;
    assert(pattern.subrange(0, m) =~= pattern);
    if found(pattern, text, true) {
        let from = choose|from: int|
            0 <= from <= text.len() && opens(text, true, from) && #[trigger] reaches(
                pattern,
                text,
                true,
                0,
                from,
            );
        let to = choose|to: int|
            from <= to <= text.len() && closes(text, true, to) && #[trigger] glob_matches(
                pattern.subrange(0, m),
                text.subrange(from, to),
            );
        assert(word_starts(text, from) && word_ends(text, to));
        assert(glob_matches(pattern, text.subrange(from, to)));
    }
    if glob_matches_word(pattern, text) {
        let (from, to) = choose|from: int, to: int|
            0 <= from <= to <= text.len() && word_starts(text, from) && word_ends(text, to)
                && #[trigger] glob_matches(pattern, text.subrange(from, to));
        assert(glob_matches(pattern.subrange(0, m), text.subrange(from, to)));
        assert(reaches(pattern, text, true, 0, from));
    }
}

/// Whether a match that starts at one of the first `limit` positions, or
/// at `limit` itself, exists.
pub open spec fn found_upto(pattern: Seq<char>, text: Seq<char>, words: bool, limit: int) -> bool {
    exists|from: int|
        0 <= from <= limit && opens(text, words, from) && #[trigger] reaches(
            pattern,
            text,
            words,
            0,
            from,
        )
}

/// Searches `text` for a match of the glob `pattern`: a match of the whole
/// text, or, with `words` set, of a stretch between two word boundaries.
///
/// The search fills one row of booleans per pattern character, from the
/// last character to the first, so it takes time in the order of the
/// product of the two lengths.
pub fn search(pattern: &Vec<char>, text: &Vec<char>, words: bool) -> (hit: bool)
    ensures
        hit == found(pattern@, text@, words),
{
    let n = text.len();
    let m = pattern.len();
    let mut row: Vec<bool> = Vec::new();
    let mut j: usize = 0;
    while j < n
        invariant
            j <= n,
            n == text.len(),
            row.len() == j,
            forall|k: int| 0 <= k < j ==> row[k] == closes(text@, words, k),
        decreases n - j,
    {
        row.push(words && !word_char(text[j]));
        j += 1;
    }
    let mut end = true;
    let mut i = m;
    proof {
        assert forall|k: int| 0 <= k <= n implies #[trigger] reaches(
            pattern@,
            text@,
            words,
            m as int,
            k,
        ) == closes(text@, words, k) by {
            lemma_reaches_at_end(pattern@, text@, words, k);
        }
        assert(closes(text@, words, n as int));
    }
    while i > 0
        invariant
            i <= m,
            m == pattern.len(),
            n == text.len(),
            row.len() == n,
            forall|k: int| 0 <= k < n ==> row[k] == reaches(pattern@, text@, words, i as int, k),
            end == reaches(pattern@, text@, words, i as int, n as int),
        decreases i,
    {
        i -= 1;
        let c = pattern[i];
        let star = c == '*';
        let any = c == '?';
        proof {
            lemma_reaches_step(pattern@, text@, words, i as int, n as int);
        }
        let mut diag = end;
        let mut below = star && end;
        end = below;
        let mut j = n;
        while j > 0
            invariant
                j <= n,
                i < m,
                m == pattern.len(),
                n == text.len(),
                row.len() == n,
                c == pattern[i as int],
                star == (c == '*'),
                any == (c == '?'),
                forall|k: int| j <= k < n ==> row[k] == reaches(pattern@, text@, words, i as int, k),
                forall|k: int|
                    0 <= k < j ==> row[k] == reaches(pattern@, text@, words, i as int + 1, k),
                below == reaches(pattern@, text@, words, i as int, j as int),
                diag == reaches(pattern@, text@, words, i as int + 1, j as int),
                end == reaches(pattern@, text@, words, i as int, n as int),
            decreases j,
        {
            j -= 1;
            let here = row[j];
            let now = if star {
                here || below
            } else {
                (any || c == text[j]) && diag
            };
            proof {
                lemma_reaches_step(pattern@, text@, words, i as int, j as int);
            }
            row.set(j, now);
            below = now;
            diag = here;
        }
    }
    let mut hit = if n == 0 {
        end
    } else {
        row[0]
    };
    assert(hit == found_upto(pattern@, text@, words, 0));
    if words {
        let mut a: usize = 0;
        while a < n
            invariant
                a <= n,
                n == text.len(),
                row.len() == n,
                words,
                forall|k: int| 0 <= k < n ==> row[k] == reaches(pattern@, text@, words, 0, k),
                end == reaches(pattern@, text@, words, 0, n as int),
                hit == found_upto(pattern@, text@, words, a as int),
            decreases n - a,
        {
            let from = a + 1;
            let open = !word_char(text[a]);
            let reached = if from == n {
                end
            } else {
                row[from]
            };
            assert(open == opens(text@, words, from as int));
            assert(reached == reaches(pattern@, text@, words, 0, from as int));
            assert(found_upto(pattern@, text@, words, from as int) == (found_upto(
                pattern@,
                text@,
                words,
                a as int,
            ) || (open && reached)));
            hit = hit || (open && reached);
            a = from;
        }
    } else {
        assert(found_upto(pattern@, text@, words, n as int) == found_upto(
            pattern@,
            text@,
            words,
            0,
        ));
    }
    hit
}

/// Tests whether `word` stands at position `from` of `text` between two
/// word boundaries.
pub fn stands_at(text: &Vec<char>, word: &Vec<char>, from: usize) -> (hit: bool)
    ensures
        hit == word_stands_at(text@, word@, from as int),
{
    let n = text.len();
    let m = word.len();
    if m > n || from > n - m {
        return false;
    }
    let to = from + m;
    if from > 0 && word_char(text[from - 1]) {
        return false;
    }
    if to < n && word_char(text[to]) {
        return false;
    }
    let mut k: usize = 0;
    while k < m
        invariant
            k <= m,
            m == word.len(),
            from + m <= text.len(),
            forall|q: int| 0 <= q < k ==> text[from + q] == word[q],
        decreases m - k,
    {
        if text[from + k] != word[k] {
            proof {
                let part = text@.subrange(from as int, from + m);
                assert(part[k as int] == text[from + k]);
            }
            return false;
        }
        k += 1;
    }
    assert(text@.subrange(from as int, from + m) =~= word@);
    true
}

/// Searches `text` for `word` between two word boundaries.
pub fn find_word(text: &Vec<char>, word: &Vec<char>) -> (hit: bool)
    ensures
        hit == contains_word(text@, word@),
{
    let n = text.len();
    let m = word.len();
    if m > n {
        return false;
    }
    let last = n - m;
    let mut from: usize = 0;
    while from < last
        invariant
            from <= last,
            last + m == text.len(),
            m == word.len(),
            forall|k: int| 0 <= k < from ==> !word_stands_at(text@, word@, k),
        decreases last - from,
    {
        if stands_at(text, word, from) {
            return true;
        }
        from += 1;
    }
    stands_at(text, word, last)
}

/// Tests whether the glob `pattern` matches the whole of `text`, letter
/// case included.
pub fn glob_match(pattern: &str, text: &str) -> (hit: bool)
    ensures
        hit == glob_matches(pattern@, text@),
{
    let p = chars_of(pattern);
    let t = chars_of(text);
    proof {
        lemma_found_whole(pattern@, text@);
    }
    search(&p, &t, false)
}

/// Tests whether the glob `pattern` matches a stretch of `text` between
/// two word boundaries, whatever the case of ASCII letters.
pub fn glob_match_word(pattern: &str, text: &str) -> (hit: bool)
    ensures
        hit == glob_matches_word(fold(pattern@), fold(text@)),
{
    let p = folded_chars_of(pattern);
    let t = folded_chars_of(text);
    proof {
        lemma_found_word(fold(pattern@), fold(text@));
    }
    search(&p, &t, true)
}

/// Tests whether `word` stands in `text` between two word boundaries,
/// whatever the case of ASCII letters.
pub fn has_word(text: &str, word: &str) -> (hit: bool)
    ensures
        hit == contains_word(fold(text@), fold(word@)),
{
    let t = folded_chars_of(text);
    let w = folded_chars_of(word);
    find_word(&t, &w)
}

} // verus!
