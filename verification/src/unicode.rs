//! Grapheme-level classification: emoji detection and the irregular dash
//! and quotation counts.
//!
//! The text is decomposed into extended grapheme clusters, so that an emoji
//! built from several scalar values is counted once. A cluster that is a
//! known emoji is counted and skipped; the characters of every other
//! cluster are inspected one by one, with the hyphen rule looking ahead to
//! the next character of the text, across cluster boundaries.

use vstd::prelude::*;
use unicode_segmentation::UnicodeSegmentation;
use crate::text::is_space;

verus! {

/// The extended grapheme clusters of a character sequence, in order.
/// The full segmentation rules are the outside crate's; the crate only
/// assumes that the clusters are non-empty and concatenate back to the
/// text, which is what a segmentation is.
pub uninterp spec fn graphemes_of(s: Seq<char>) -> Seq<Seq<char>>;

/// Whether a grapheme cluster is a known emoji, a function of its
/// characters alone.
pub uninterp spec fn is_emoji(g: Seq<char>) -> bool;

/// Concatenation of a sequence of pieces.
pub open spec fn concat_of(gs: Seq<Seq<char>>) -> Seq<char>
    decreases gs.len(),
{
    if gs.len() == 0 {
        Seq::empty()
    } else {
        gs[0] + concat_of(gs.skip(1))
    }
}

/// The first character of the concatenation of `gs`, if any.
pub open spec fn first_char(gs: Seq<Seq<char>>) -> Option<char>
    decreases gs.len(),
{
    if gs.len() == 0 {
        None
    } else if gs[0].len() > 0 {
        Some(gs[0][0])
    } else {
        first_char(gs.skip(1))
    }
}

/// The views of a vector of grapheme clusters.
pub open spec fn piece_views(gs: Seq<Vec<char>>) -> Seq<Seq<char>> {
    gs.map_values(|g: Vec<char>| g@)
}

/// Relies on str::chars: yields exactly the characters of the string,
/// in order.
#[verifier::external_body]
pub fn chars_of(s: &str) -> (r: Vec<char>)
    ensures
        r@ == s@,
{
    s.chars().collect()
}

/// Relies on str::to_ascii_lowercase: ASCII upper-case letters are mapped
/// to lower case and every other character is kept.
#[verifier::external_body]
pub fn ascii_lower(s: &str) -> (r: String)
    ensures
        r@ == crate::text::lower_seq(s@),
{
    s.to_ascii_lowercase()
}

/// Relies on unicode_segmentation::UnicodeSegmentation::graphemes: splits
/// the string into extended grapheme clusters, which are non-empty and
/// concatenate back to the string.
#[verifier::external_body]
pub fn grapheme_clusters(s: &str) -> (r: Vec<Vec<char>>)
    ensures
        piece_views(r@) == graphemes_of(s@),
        concat_of(piece_views(r@)) == s@,
        forall|i: int| 0 <= i < r@.len() ==> r@[i]@.len() > 0,
{
    s.graphemes(true).map(|g| g.chars().collect()).collect()
}

/// Relies on emojis::get: looks the cluster up in the crate's emoji table,
/// a pure function of the characters.
#[verifier::external_body]
pub fn emoji_lookup(g: &Vec<char>) -> (r: bool)
    ensures
        r == is_emoji(g@),
{
    let s: String = g.iter().collect();
    emojis::get(&s).is_some()
}

/// The dash variants counted unconditionally: en dash, em dash, figure
/// dash and horizontal bar.
pub open spec fn is_dash_char(c: char) -> bool {
    c == '\u{2013}' || c == '\u{2014}' || c == '\u{2012}' || c == '\u{2015}'
}

/// Curly quotation marks.
pub open spec fn is_quote_char(c: char) -> bool {
    c == '\u{201c}' || c == '\u{201d}' || c == '\u{2018}' || c == '\u{2019}'
}

/// Dash contribution of one character: dash variants always count; an
/// ASCII hyphen counts only when the next character of the text exists and
/// is not whitespace.
pub open spec fn dash_at(c: char, next: Option<char>) -> nat {
    if is_dash_char(c) {
        1nat
    } else if c == '-' {
        match next {
            Some(k) => if !is_space(k) {
                1nat
            } else {
                0nat
            },
            None => 0nat,
        }
    } else {
        0nat
    }
}

/// Dash count of one cluster; `next` is the first character of the rest of
/// the text, used as lookahead for the cluster's last character.
pub open spec fn dash_in_piece(p: Seq<char>, next: Option<char>) -> nat
    decreases p.len(),
{
    if p.len() == 0 {
        0
    } else {
        dash_at(
            p[0],
            if p.len() > 1 {
                Some(p[1])
            } else {
                next
            },
        ) + dash_in_piece(p.skip(1), next)
    }
}

/// Curly quotation marks in one cluster.
pub open spec fn quote_in_piece(p: Seq<char>) -> nat
    decreases p.len(),
{
    if p.len() == 0 {
        0
    } else {
        (if is_quote_char(p[0]) {
            1nat
        } else {
            0nat
        }) + quote_in_piece(p.skip(1))
    }
}

/// Number of emoji clusters.
pub open spec fn emoji_total(gs: Seq<Seq<char>>) -> nat
    decreases gs.len(),
{
    if gs.len() == 0 {
        0
    } else {
        (if is_emoji(gs[0]) {
            1nat
        } else {
            0nat
        }) + emoji_total(gs.skip(1))
    }
}

/// Dash count over all non-emoji clusters, with cross-cluster lookahead.
pub open spec fn dash_total(gs: Seq<Seq<char>>) -> nat
    decreases gs.len(),
{
    if gs.len() == 0 {
        0
    } else {
        (if is_emoji(gs[0]) {
            0nat
        } else {
            dash_in_piece(gs[0], first_char(gs.skip(1)))
        }) + dash_total(gs.skip(1))
    }
}

/// Curly quotation count over all non-emoji clusters.
pub open spec fn quote_total(gs: Seq<Seq<char>>) -> nat
    decreases gs.len(),
{
    if gs.len() == 0 {
        0
    } else {
        (if is_emoji(gs[0]) {
            0nat
        } else {
            quote_in_piece(gs[0])
        }) + quote_total(gs.skip(1))
    }
}

proof fn lemma_dash_in_piece_le(p: Seq<char>, next: Option<char>)
    ensures
        dash_in_piece(p, next) <= p.len(),
    decreases p.len(),
{
    if p.len() > 0 {
        lemma_dash_in_piece_le(p.skip(1), next);
    }
}

proof fn lemma_quote_in_piece_le(p: Seq<char>)
    ensures
        quote_in_piece(p) <= p.len(),
    decreases p.len(),
{
    if p.len() > 0 {
        lemma_quote_in_piece_le(p.skip(1));
    }
}

/// Each of the three glyph counts is bounded by the length of the
/// concatenated text; the emoji count additionally by the cluster count.
pub proof fn lemma_glyph_totals_le(gs: Seq<Seq<char>>)
    requires
        forall|i: int| 0 <= i < gs.len() ==> gs[i].len() > 0,
    ensures
        emoji_total(gs) <= concat_of(gs).len(),
        dash_total(gs) <= concat_of(gs).len(),
        quote_total(gs) <= concat_of(gs).len(),
    decreases gs.len(),
{
    if gs.len() > 0 {
        assert(forall|i: int| 0 <= i < gs.skip(1).len() ==> gs.skip(1)[i].len() > 0);
        lemma_glyph_totals_le(gs.skip(1));
        lemma_dash_in_piece_le(gs[0], first_char(gs.skip(1)));
        lemma_quote_in_piece_le(gs[0]);
    }
}

/// Dash contribution of one character with its lookahead, as
/// [`dash_at`] defines it.
fn dash_step(c: char, next: Option<char>) -> (r: usize)
    ensures
        r == dash_at(c, next),
{
    if c == '\u{2013}' || c == '\u{2014}' || c == '\u{2012}' || c == '\u{2015}' {
        1
    } else if c == '-' {
        match next {
            Some(k) => if !crate::text::char_is_space(k) {
                1
            } else {
                0
            },
            None => 0,
        }
    } else {
        0
    }
}

/// Counts emoji clusters, irregular dashes and curly quotation marks over
/// the grapheme clusters of a text, returned in that order.
pub fn glyph_counts(graphemes: &Vec<Vec<char>>) -> (r: (usize, usize, usize))
    requires
        forall|i: int| 0 <= i < graphemes@.len() ==> graphemes@[i]@.len() > 0,
        concat_of(piece_views(graphemes@)) .len() <= usize::MAX,
    ensures
        r.0 == emoji_total(piece_views(graphemes@)),
        r.1 == dash_total(piece_views(graphemes@)),
        r.2 == quote_total(piece_views(graphemes@)),
{
    let ghost gs = piece_views(graphemes@);
    proof {
        assert(forall|i: int| 0 <= i < gs.len() ==> gs[i].len() > 0);
        lemma_glyph_totals_le(gs);
        assert(gs.skip(0) =~= gs);
    }
    let mut emoji: usize = 0;
    let mut dash: usize = 0;
    let mut quote: usize = 0;
    let mut i: usize = 0;
    let n: usize = graphemes.len();
    while i < n
        invariant
            n == graphemes@.len(),
            gs == piece_views(graphemes@),
            forall|k: int| 0 <= k < gs.len() ==> gs[k].len() > 0,
            concat_of(gs).len() <= usize::MAX,
            i <= n,
            emoji + emoji_total(gs.skip(i as int)) == emoji_total(gs),
            dash + dash_total(gs.skip(i as int)) == dash_total(gs),
            quote + quote_total(gs.skip(i as int)) == quote_total(gs),
            emoji_total(gs) <= concat_of(gs).len(),
            dash_total(gs) <= concat_of(gs).len(),
            quote_total(gs) <= concat_of(gs).len(),
        decreases n - i,
    {
        proof {
            assert(gs.skip(i as int)[0] == gs[i as int]);
            assert(gs.skip(i as int).skip(1) =~= gs.skip(i + 1));
        }
        let next: Option<char> = if i + 1 < n {
            proof {
                assert(gs.skip(i + 1)[0] == gs[i + 1]);
            }
            Some(graphemes[i + 1][0])
        } else {
            proof {
                assert(gs.skip(i + 1).len() == 0);
            }
            None
        };
        proof {
            assert(next == first_char(gs.skip(i + 1)));
        }
        if emoji_lookup(&graphemes[i]) {
            emoji = emoji + 1;
        } else {
            let piece = &graphemes[i];
            let plen: usize = piece.len();
            let mut j: usize = 0;
            proof {
                assert(piece@.skip(0) =~= piece@);
                lemma_dash_in_piece_le(piece@, next);
                lemma_quote_in_piece_le(piece@);
            }
            while j < plen
                invariant
                    plen == piece@.len(),
                    j <= plen,
                    gs == piece_views(graphemes@),
                    0 <= i < gs.len(),
                    piece@ == gs[i as int],
                    concat_of(gs).len() <= usize::MAX,
                    dash_total(gs) <= concat_of(gs).len(),
                    quote_total(gs) <= concat_of(gs).len(),
                    dash + dash_in_piece(piece@.skip(j as int), next) + dash_total(gs.skip(i + 1))
                        == dash_total(gs),
                    quote + quote_in_piece(piece@.skip(j as int)) + quote_total(gs.skip(i + 1))
                        == quote_total(gs),
                decreases plen - j,
            {
                proof {
                    assert(piece@.skip(j as int)[0] == piece@[j as int]);
                    assert(piece@.skip(j as int).skip(1) =~= piece@.skip(j + 1));
                }
                let look: Option<char> = if j + 1 < plen {
                    Some(piece[j + 1])
                } else {
                    next
                };
                let c = piece[j];
                dash = dash + dash_step(c, look);
                if c == '\u{201c}' || c == '\u{201d}' || c == '\u{2018}' || c == '\u{2019}' {
                    quote = quote + 1;
                }
                j = j + 1;
            }
            assert(piece@.skip(plen as int).len() == 0);
        }
        i = i + 1;
    }
    assert(gs.skip(n as int).len() == 0);
    (emoji, dash, quote)
}

} // verus!
