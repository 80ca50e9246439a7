//! Sentence, word, hashtag and label scanning over the lowercased text.
//!
//! Each count is specified as a left-to-right scan: a spec function folds
//! the characters of the text into a small tuple of state, and the
//! executable pass maintains exactly that state.

use vstd::prelude::*;
use crate::text::is_space;

verus! {

/// The characters that end a sentence.
pub open spec fn is_sentence_end(c: char) -> bool {
    c == '.' || c == '!' || c == '?'
}

/// Scan state for sentence segmentation: the number of completed segments
/// that contained a non-blank character, and whether the segment still open
/// contains one.
pub open spec fn sentence_scan(s: Seq<char>) -> (nat, bool)
    decreases s.len(),
{
    if s.len() == 0 {
        (0nat, false)
    } else {
        let prior = sentence_scan(s.drop_last());
        let c = s.last();
        if is_sentence_end(c) {
            (
                prior.0 + if prior.1 {
                    1nat
                } else {
                    0nat
                },
                false,
            )
        } else if !is_space(c) {
            (prior.0, true)
        } else {
            prior
        }
    }
}

/// Number of segments between `.`, `!` and `?` separators that are not
/// empty and not whitespace-only.
pub open spec fn raw_sentence_count(s: Seq<char>) -> nat {
    sentence_scan(s).0 + if sentence_scan(s).1 {
        1nat
    } else {
        0nat
    }
}

/// The sentence count used as a rate denominator, clamped to at least 1.
pub open spec fn sentence_count_of(s: Seq<char>) -> nat {
    if raw_sentence_count(s) == 0 {
        1
    } else {
        raw_sentence_count(s)
    }
}

pub proof fn lemma_sentence_scan_bound(s: Seq<char>)
    ensures
        sentence_scan(s).0 + if sentence_scan(s).1 {
            1nat
        } else {
            0nat
        } <= s.len(),
    decreases s.len(),
{
    if s.len() > 0 {
        lemma_sentence_scan_bound(s.drop_last());
    }
}

/// Counts the sentence segments of `text`, clamped to at least 1.
pub fn sentence_count(text: &Vec<char>) -> (r: usize)
    ensures
        r == sentence_count_of(text@),
        r >= 1,
{
    let mut count: usize = 0;
    let mut open: bool = false;
    let mut i: usize = 0;
    while i < text.len()
        invariant
            i <= text@.len(),
            (count as nat, open) == sentence_scan(text@.take(i as int)),
            count <= i,
        decreases text@.len() - i,
    {
        proof {
            assert(text@.take(i + 1 as int).drop_last() =~= text@.take(i as int));
        }
        let c = text[i];
        if c == '.' || c == '!' || c == '?' {
            if open {
                count = count + 1;
            }
            open = false;
        } else if !crate::text::char_is_space(c) {
            open = true;
        }
        i = i + 1;
    }
    proof {
        assert(text@.take(text@.len() as int) =~= text@);
        lemma_sentence_scan_bound(text@);
    }
    if open {
        count = count + 1;
    }
    if count == 0 {
        1
    } else {
        count
    }
}

/// Scan state for word segmentation: completed whitespace-separated tokens,
/// and whether a token is still open.
pub open spec fn word_scan(s: Seq<char>) -> (nat, bool)
    decreases s.len(),
{
    if s.len() == 0 {
        (0nat, false)
    } else {
        let prior = word_scan(s.drop_last());
        if is_space(s.last()) {
            (
                prior.0 + if prior.1 {
                    1nat
                } else {
                    0nat
                },
                false,
            )
        } else {
            (prior.0, true)
        }
    }
}

/// Number of non-empty whitespace-separated tokens.
pub open spec fn raw_word_count(s: Seq<char>) -> nat {
    word_scan(s).0 + if word_scan(s).1 {
        1nat
    } else {
        0nat
    }
}

/// The word count used as a rate denominator, clamped to at least 1.
pub open spec fn word_count_of(s: Seq<char>) -> nat {
    if raw_word_count(s) == 0 {
        1
    } else {
        raw_word_count(s)
    }
}

pub proof fn lemma_word_scan_bound(s: Seq<char>)
    ensures
        word_scan(s).0 + if word_scan(s).1 {
            1nat
        } else {
            0nat
        } <= s.len(),
    decreases s.len(),
{
    if s.len() > 0 {
        lemma_word_scan_bound(s.drop_last());
    }
}

/// Counts the whitespace-separated tokens of `text`, clamped to at least 1.
pub fn word_count(text: &Vec<char>) -> (r: usize)
    ensures
        r == word_count_of(text@),
        r >= 1,
{
    let mut count: usize = 0;
    let mut open: bool = false;
    let mut i: usize = 0;
    while i < text.len()
        invariant
            i <= text@.len(),
            (count as nat, open) == word_scan(text@.take(i as int)),
            count <= i,
        decreases text@.len() - i,
    {
        proof {
            assert(text@.take(i + 1 as int).drop_last() =~= text@.take(i as int));
        }
        if crate::text::char_is_space(text[i]) {
            if open {
                count = count + 1;
            }
            open = false;
        } else {
            open = true;
        }
        i = i + 1;
    }
    proof {
        assert(text@.take(text@.len() as int) =~= text@);
        lemma_word_scan_bound(text@);
    }
    if open {
        count = count + 1;
    }
    if count == 0 {
        1
    } else {
        count
    }
}

/// Scan state for hashtag counting: completed qualifying tokens, whether a
/// token is open, whether it began with `#`, and whether it has at least a
/// second character.
pub open spec fn hashtag_scan(s: Seq<char>) -> (nat, bool, bool, bool)
    decreases s.len(),
{
    if s.len() == 0 {
        (0nat, false, false, false)
    } else {
        let prior = hashtag_scan(s.drop_last());
        let c = s.last();
        if is_space(c) {
            (
                prior.0 + if prior.1 && prior.2 && prior.3 {
                    1nat
                } else {
                    0nat
                },
                false,
                false,
                false,
            )
        } else if !prior.1 {
            (prior.0, true, c == '#', false)
        } else {
            (prior.0, true, prior.2, true)
        }
    }
}

/// Number of whitespace-separated tokens that start with `#` and are longer
/// than one character.
pub open spec fn hashtag_count_of(s: Seq<char>) -> nat {
    let f = hashtag_scan(s);
    f.0 + if f.1 && f.2 && f.3 {
        1nat
    } else {
        0nat
    }
}

proof fn lemma_hashtag_scan_bound(s: Seq<char>)
    ensures
        hashtag_scan(s).0 + if hashtag_scan(s).1 && hashtag_scan(s).2 && hashtag_scan(s).3 {
            1nat
        } else {
            0nat
        } <= s.len(),
    decreases s.len(),
{
    if s.len() > 0 {
        lemma_hashtag_scan_bound(s.drop_last());
    }
}

/// Counts the tokens of `text` that start with `#` and are longer than one
/// character.
pub fn hashtag_count(text: &Vec<char>) -> (r: usize)
    ensures
        r == hashtag_count_of(text@),
        r <= text@.len(),
{
    let mut count: usize = 0;
    let mut open: bool = false;
    let mut hash: bool = false;
    let mut more: bool = false;
    let mut i: usize = 0;
    while i < text.len()
        invariant
            i <= text@.len(),
            (count as nat, open, hash, more) == hashtag_scan(text@.take(i as int)),
            count <= i,
        decreases text@.len() - i,
    {
        proof {
            assert(text@.take(i + 1 as int).drop_last() =~= text@.take(i as int));
        }
        let c = text[i];
        if crate::text::char_is_space(c) {
            if open && hash && more {
                count = count + 1;
            }
            open = false;
            hash = false;
            more = false;
        } else if !open {
            open = true;
            hash = c == '#';
            more = false;
        } else {
            more = true;
        }
        i = i + 1;
    }
    proof {
        assert(text@.take(text@.len() as int) =~= text@);
        lemma_hashtag_scan_bound(text@);
    }
    if open && hash && more {
        count = count + 1;
    }
    count
}

/// Whether a character is alphabetic in the Unicode sense. The full table
/// is the standard library's; the crate does not restate it.
pub uninterp spec fn is_alpha(c: char) -> bool;

/// Relies on char::is_alphabetic: a pure classification of the character.
#[verifier::external_body]
pub fn char_is_alpha(c: char) -> (r: bool)
    ensures
        r == is_alpha(c),
{
    c.is_alphabetic()
}

/// Whether a character may appear in a label head: alphabetic or blank.
pub open spec fn is_label_char(c: char) -> bool {
    is_alpha(c) || is_space(c)
}

/// Scan state for label counting: completed label lines; whether the
/// current line has already seen its first `:`; whether every character
/// before that `:` is alphabetic or blank; and whether one of them is
/// non-blank.
pub open spec fn label_scan(s: Seq<char>) -> (nat, bool, bool, bool)
    decreases s.len(),
{
    if s.len() == 0 {
        (0nat, false, true, false)
    } else {
        let prior = label_scan(s.drop_last());
        let c = s.last();
        if c == '\n' {
            (
                prior.0 + if prior.1 && prior.2 && prior.3 {
                    1nat
                } else {
                    0nat
                },
                false,
                true,
                false,
            )
        } else if prior.1 {
            prior
        } else if c == ':' {
            (prior.0, true, prior.2, prior.3)
        } else {
            (prior.0, false, prior.2 && is_label_char(c), prior.3 || !is_space(c))
        }
    }
}

/// Number of lines whose text before the first `:` is non-blank and made
/// only of alphabetic and blank characters.
pub open spec fn label_count_of(s: Seq<char>) -> nat {
    let f = label_scan(s);
    f.0 + if f.1 && f.2 && f.3 {
        1nat
    } else {
        0nat
    }
}

proof fn lemma_label_scan_bound(s: Seq<char>)
    ensures
        label_scan(s).0 + if label_scan(s).1 && label_scan(s).2 && label_scan(s).3 {
            1nat
        } else {
            0nat
        } <= s.len(),
    decreases s.len(),
{
    if s.len() > 0 {
        lemma_label_scan_bound(s.drop_last());
    }
}

/// Counts the lines of `text` that read as a `Label: value` pair: the part
/// before the first `:` is non-blank and alphabetic-or-blank throughout.
pub fn label_count(text: &Vec<char>) -> (r: usize)
    ensures
        r == label_count_of(text@),
        r <= text@.len(),
{
    let mut count: usize = 0;
    let mut seen_colon: bool = false;
    let mut head_ok: bool = true;
    let mut head_filled: bool = false;
    let mut i: usize = 0;
    while i < text.len()
        invariant
            i <= text@.len(),
            (count as nat, seen_colon, head_ok, head_filled) == label_scan(text@.take(i as int)),
            count <= i,
        decreases text@.len() - i,
    {
        proof {
            assert(text@.take(i + 1 as int).drop_last() =~= text@.take(i as int));
        }
        let c = text[i];
        if c == '\n' {
            if seen_colon && head_ok && head_filled {
                count = count + 1;
            }
            seen_colon = false;
            head_ok = true;
            head_filled = false;
        } else if seen_colon {
        } else if c == ':' {
            seen_colon = true;
        } else {
            head_ok = head_ok && (char_is_alpha(c) || crate::text::char_is_space(c));
            head_filled = head_filled || !crate::text::char_is_space(c);
        }
        i = i + 1;
    }
    proof {
        assert(text@.take(text@.len() as int) =~= text@);
        lemma_label_scan_bound(text@);
    }
    if seen_colon && head_ok && head_filled {
        count = count + 1;
    }
    count
}

} // verus!
