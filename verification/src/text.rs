//! Character-level text primitives: whitespace classification, ASCII
//! lowercasing, and substring occurrence counting.

use vstd::prelude::*;

verus! {

/// The Unicode `White_Space` code points, the characters that word
/// splitting, sentence trimming and the hyphen rule treat as blank.
pub open spec fn is_space(c: char) -> bool {
    c == ' ' || c == '\t' || c == '\n' || c == '\u{b}' || c == '\u{c}' || c == '\r'
        || c == '\u{85}' || c == '\u{a0}' || c == '\u{1680}'
        || ('\u{2000}' <= c && c <= '\u{200a}')
        || c == '\u{2028}' || c == '\u{2029}' || c == '\u{202f}' || c == '\u{205f}'
        || c == '\u{3000}'
}

/// Runtime form of [`is_space`].
pub fn char_is_space(c: char) -> (r: bool)
    ensures
        r == is_space(c),
{
    c == ' ' || c == '\t' || c == '\n' || c == '\u{b}' || c == '\u{c}' || c == '\r'
        || c == '\u{85}' || c == '\u{a0}' || c == '\u{1680}'
        || ('\u{2000}' <= c && c <= '\u{200a}')
        || c == '\u{2028}' || c == '\u{2029}' || c == '\u{202f}' || c == '\u{205f}'
        || c == '\u{3000}'
}

/// ASCII lowercasing of a single character: upper-case ASCII letters map to
/// their lower-case form, everything else is unchanged.
pub open spec fn lower_char(c: char) -> char {
    if 'A' <= c && c <= 'Z' {
        ((c as u8) + 32) as char
    } else {
        c
    }
}

/// ASCII lowercasing of a whole character sequence.
pub open spec fn lower_seq(s: Seq<char>) -> Seq<char> {
    s.map_values(|c: char| lower_char(c))
}

/// Number of occurrences of `c` in `s`.
pub open spec fn char_count(s: Seq<char>, c: char) -> nat
    decreases s.len(),
{
    if s.len() == 0 {
        0
    } else {
        char_count(s.drop_last(), c) + if s.last() == c {
            1nat
        } else {
            0nat
        }
    }
}

/// Number of occurrences of `c` among the characters of `text`.
pub fn count_char(text: &Vec<char>, c: char) -> (r: usize)
    ensures
        r == char_count(text@, c),
{
    let mut count: usize = 0;
    let mut i: usize = 0;
    while i < text.len()
        invariant
            i <= text.len(),
            count == char_count(text@.take(i as int), c),
            count <= i,
        decreases text.len() - i,
    {
        proof {
            assert(text@.take(i + 1 as int).drop_last() =~= text@.take(i as int));
        }
        if text[i] == c {
            count = count + 1;
        }
        i = i + 1;
    }
    proof {
        assert(text@.take(text@.len() as int) =~= text@);
    }
    count
}

/// Number of non-overlapping occurrences of `pat` in `text`, scanning left
/// to right and resuming after the end of each match. An empty pattern
/// matches nowhere.
pub open spec fn occurrence_count(text: Seq<char>, pat: Seq<char>) -> nat
    decreases text.len(),
{
    if pat.len() == 0 || text.len() < pat.len() {
        0
    } else if text.take(pat.len() as int) == pat {
        1 + occurrence_count(text.skip(pat.len() as int), pat)
    } else {
        occurrence_count(text.skip(1), pat)
    }
}

/// Non-overlapping matches each span at least one character, so a text of
/// length `n` holds at most `n` of them.
pub proof fn lemma_occurrence_count_le_len(text: Seq<char>, pat: Seq<char>)
    ensures
        occurrence_count(text, pat) <= text.len(),
    decreases text.len(),
{
    if pat.len() == 0 || text.len() < pat.len() {
    } else if text.take(pat.len() as int) == pat {
        lemma_occurrence_count_le_len(text.skip(pat.len() as int), pat);
    } else {
        lemma_occurrence_count_le_len(text.skip(1), pat);
    }
}

/// Whether `pat` occurs at the front of `text`.
fn starts_with_at(text: &Vec<char>, start: usize, pat: &Vec<char>) -> (r: bool)
    requires
        start + pat@.len() <= text@.len(),
    ensures
        r == (text@.skip(start as int).take(pat@.len() as int) == pat@),
{
    let plen: usize = pat.len();
    let tlen: usize = text.len();
    let mut j: usize = 0;
    while j < plen
        invariant
            j <= plen,
            plen == pat@.len(),
            tlen == text@.len(),
            start + plen <= tlen,
            forall|k: int| 0 <= k < j ==> text@[start + k] == pat@[k],
        decreases plen - j,
    {
        if text[start + j] != pat[j] {
            assert(text@.skip(start as int).take(pat@.len() as int)[j as int] != pat@[j as int]);
            return false;
        }
        j = j + 1;
    }
    proof {
        assert(text@.skip(start as int).take(pat@.len() as int) =~= pat@);
    }
    true
}

/// Counts the non-overlapping occurrences of `pat` among the characters of
/// `text`, as [`occurrence_count`] defines them.
pub fn count_occurrences(text: &Vec<char>, pat: &Vec<char>) -> (r: usize)
    ensures
        r == occurrence_count(text@, pat@),
        r <= text@.len(),
{
    proof {
        lemma_occurrence_count_le_len(text@, pat@);
    }
    if pat.len() == 0 || text.len() < pat.len() {
        return 0;
    }
    let plen: usize = pat.len();
    let bound: usize = text.len() - plen;
    let mut count: usize = 0;
    let mut i: usize = 0;
    proof {
        assert(text@.skip(0) =~= text@);
    }
    while i <= bound
        invariant
            plen == pat@.len(),
            plen >= 1,
            bound == text@.len() - plen,
            text@.len() <= usize::MAX,
            i <= text@.len(),
            count + occurrence_count(text@.skip(i as int), pat@) == occurrence_count(
                text@,
                pat@,
            ),
            count <= i,
        decreases text@.len() - i,
    {
        if starts_with_at(text, i, pat) {
            proof {
                assert(text@.skip(i as int).skip(pat@.len() as int) =~= text@.skip(
                    i + pat@.len(),
                ));
            }
            count = count + 1;
            i = i + plen;
        } else {
            proof {
                assert(text@.skip(i as int).skip(1) =~= text@.skip(i + 1));
            }
            i = i + 1;
        }
    }
    assert(occurrence_count(text@.skip(i as int), pat@) == 0);
    count
}

/// Sum over `patterns` of the non-overlapping occurrence count of each
/// pattern in `text`; matches of distinct patterns may overlap each other.
pub open spec fn match_total(text: Seq<char>, patterns: Seq<Seq<char>>) -> nat
    decreases patterns.len(),
{
    if patterns.len() == 0 {
        0
    } else {
        match_total(text, patterns.drop_last()) + occurrence_count(text, patterns.last())
    }
}

/// Every pattern contributes at most `text.len()` occurrences.
pub proof fn lemma_match_total_le(text: Seq<char>, patterns: Seq<Seq<char>>)
    ensures
        match_total(text, patterns) <= patterns.len() * text.len(),
    decreases patterns.len(),
{
    if patterns.len() == 0 {
    } else {
        lemma_match_total_le(text, patterns.drop_last());
        lemma_occurrence_count_le_len(text, patterns.last());
        assert((patterns.len() - 1) * text.len() + text.len() == patterns.len() * text.len())
            by (nonlinear_arith);
    }
}

/// Counts, for each pattern, its non-overlapping occurrences in `text`, and
/// sums the per-pattern counts. Matches of two distinct patterns are free to
/// overlap; two matches of the same pattern are not.
pub fn count_matches(text: &str, patterns: &Vec<&str>) -> (r: usize)
    requires
        patterns@.len() * text@.len() <= usize::MAX,
    ensures
        r == match_total(text@, patterns@.map_values(|p: &str| p@)),
{
    let ghost pat_views = patterns@.map_values(|p: &str| p@);
    let text_chars = crate::unicode::chars_of(text);
    let mut total: usize = 0;
    let mut i: usize = 0;
    while i < patterns.len()
        invariant
            i <= patterns@.len(),
            text_chars@ == text@,
            pat_views == patterns@.map_values(|p: &str| p@),
            patterns@.len() * text@.len() <= usize::MAX,
            total == match_total(text@, pat_views.take(i as int)),
            total <= i * text@.len(),
        decreases patterns@.len() - i,
    {
        let pat_chars = crate::unicode::chars_of(patterns[i]);
        let c = count_occurrences(&text_chars, &pat_chars);
        proof {
            lemma_match_total_le(text@, pat_views.take(i as int));
            assert(pat_views.take(i + 1 as int).drop_last() =~= pat_views.take(i as int));
            assert(i * text@.len() + text@.len() == (i + 1) * text@.len()) by (nonlinear_arith);
            assert((i + 1) * text@.len() <= patterns@.len() * text@.len()) by (nonlinear_arith)
                requires
                    i + 1 <= patterns@.len(),
                    text@.len() >= 0,
            ;
        }
        total = total + c;
        i = i + 1;
    }
    proof {
        assert(pat_views.take(patterns@.len() as int) =~= pat_views);
    }
    total
}

} // verus!
