//! The stylistic feature extractor: one fixed-shape record of counts per
//! analyzed text, each field a pure function of the text.

use vstd::prelude::*;
use crate::matcher::{ac_count, dictionary_accepted, Matcher, PatternBuildError};
use crate::markdown::md_count;
use crate::patterns::{
    backstory_patterns, backstory_list, buzzword_patterns, buzzword_list, devlog_patterns,
    devlog_list, hedging_patterns, hedging_list, incorrect_perspective_patterns,
    incorrect_perspective_list, negative_buzzword_patterns, negative_buzzword_list,
    not_just_patterns, not_just_list,
};
use crate::segment::{hashtag_count_of, label_count_of, sentence_count_of, word_count_of};
use crate::text::{char_count, lower_seq, occurrence_count};
use crate::unicode::{concat_of, dash_total, emoji_total, graphemes_of, piece_views, quote_total};

verus! {

/// The stylistic metrics of one text. Every field is a non-negative count;
/// the two rate numerators (`emoji_count`, `buzzword_excess`) are divided
/// by `sentence_count` only when the weighted feature vector is assembled,
/// so the record itself stays exact.
#[derive(Clone, Copy, Debug, PartialEq, Eq, Structural)]
pub struct TextMetrics {
    /// Sentence segments between `.`, `!`, `?`, non-blank, clamped to at
    /// least 1 so it is always a safe rate denominator.
    pub sentence_count: usize,
    /// Whitespace-separated tokens, clamped to at least 1.
    pub word_count: usize,
    /// Grapheme clusters that are known emoji.
    pub emoji_count: usize,
    /// Buzzword phrase matches less negative-buzzword matches, floored at 0.
    pub buzzword_excess: usize,
    /// Contrastive "not just X" phrase matches.
    pub not_just_count: usize,
    /// Literal `&amp;` occurrences.
    pub html_escape_count: usize,
    /// Devlog cadence phrase matches.
    pub devlog_cadence_count: usize,
    /// Origin-story phrase matches.
    pub backstory_count: usize,
    /// Out-of-perspective pronoun matches.
    pub incorrect_perspective_count: usize,
    /// Parenthetical hedging marker matches.
    pub hedging_count: usize,
    /// Ellipsis glyphs plus non-overlapping three-dot sequences.
    pub irregular_ellipsis_count: usize,
    /// Curly quotation marks.
    pub irregular_quotation_count: usize,
    /// Dash variants, plus ASCII hyphens followed by a non-blank character.
    pub irregular_dash_count: usize,
    /// Rich-formatting markdown events plus literal bullet characters.
    pub irregular_markdown_count: usize,
    /// `Label: value` lines.
    pub label_count: usize,
    /// `#`-initial tokens longer than one character.
    pub hashtag_count: usize,
}

/// Addition capped at the machine word, the one place a count could
/// otherwise outgrow its type.
pub open spec fn sat_add(a: nat, b: nat) -> nat {
    if a + b > usize::MAX {
        usize::MAX as nat
    } else {
        a + b
    }
}

/// Buzzword matches with the negative-buzzword matches subtracted,
/// floored at zero.
pub open spec fn buzzword_excess_of(lc: Seq<char>) -> nat {
    let b = ac_count(buzzword_patterns(), lc);
    let n = ac_count(negative_buzzword_patterns(), lc);
    if b >= n {
        (b - n) as nat
    } else {
        0
    }
}

/// The metrics record of a text: every field is a function of the text
/// alone. The lexical passes run on the ASCII-lowercased text; the
/// markdown pass and the bullet count run on the original.
pub open spec fn metrics_value(text: Seq<char>) -> TextMetrics {
    let lc = lower_seq(text);
    TextMetrics {
        sentence_count: sentence_count_of(lc) as usize,
        word_count: word_count_of(lc) as usize,
        emoji_count: emoji_total(graphemes_of(lc)) as usize,
        buzzword_excess: buzzword_excess_of(lc) as usize,
        not_just_count: ac_count(not_just_patterns(), lc) as usize,
        html_escape_count: occurrence_count(lc, seq!['&', 'a', 'm', 'p', ';']) as usize,
        devlog_cadence_count: ac_count(devlog_patterns(), lc) as usize,
        backstory_count: ac_count(backstory_patterns(), lc) as usize,
        incorrect_perspective_count: ac_count(incorrect_perspective_patterns(), lc) as usize,
        hedging_count: ac_count(hedging_patterns(), lc) as usize,
        irregular_ellipsis_count: sat_add(
            char_count(lc, '\u{2026}'),
            occurrence_count(lc, seq!['.', '.', '.']),
        ) as usize,
        irregular_quotation_count: quote_total(graphemes_of(lc)) as usize,
        irregular_dash_count: dash_total(graphemes_of(lc)) as usize,
        irregular_markdown_count: sat_add(md_count(text), char_count(text, '\u{2022}')) as usize,
        label_count: label_count_of(lc) as usize,
        hashtag_count: hashtag_count_of(lc) as usize,
    }
}

/// The metrics record is a function of the text alone: two records
/// computed from the same text are identical.
pub proof fn lemma_metrics_deterministic(a: TextMetrics, b: TextMetrics, text: Seq<char>)
    requires
        a == metrics_value(text),
        b == metrics_value(text),
    ensures
        a == b,
{
}

/// Every rate denominator of the record of any text is at least 1, so no
/// rate computation divides by zero, for the empty text included.
pub proof fn lemma_denominators_positive(text: Seq<char>)
    requires
        text.len() <= usize::MAX,
    ensures
        metrics_value(text).sentence_count >= 1,
        metrics_value(text).word_count >= 1,
{
    let lc = lower_seq(text);
    crate::segment::lemma_sentence_scan_bound(lc);
    crate::segment::lemma_word_scan_bound(lc);
}

/// The compiled phrase dictionaries, built once and then shared read-only.
pub struct TextMetricFactory {
    buzzword: Matcher,
    negative_buzzword: Matcher,
    not_just: Matcher,
    devlog: Matcher,
    backstory: Matcher,
    incorrect_perspective: Matcher,
    hedging: Matcher,
}

impl TextMetricFactory {
    /// Each matcher is well-formed and compiled from its own dictionary.
    pub closed spec fn wf(&self) -> bool {
        &&& self.buzzword.wf() && self.buzzword.patterns() == buzzword_patterns()
        &&& self.negative_buzzword.wf() && self.negative_buzzword.patterns()
            == negative_buzzword_patterns()
        &&& self.not_just.wf() && self.not_just.patterns() == not_just_patterns()
        &&& self.devlog.wf() && self.devlog.patterns() == devlog_patterns()
        &&& self.backstory.wf() && self.backstory.patterns() == backstory_patterns()
        &&& self.incorrect_perspective.wf() && self.incorrect_perspective.patterns()
            == incorrect_perspective_patterns()
        &&& self.hedging.wf() && self.hedging.patterns() == hedging_patterns()
    }

    /// All seven built-in dictionaries compile.
    pub open spec fn dictionaries_accepted() -> bool {
        &&& dictionary_accepted(buzzword_patterns())
        &&& dictionary_accepted(negative_buzzword_patterns())
        &&& dictionary_accepted(not_just_patterns())
        &&& dictionary_accepted(devlog_patterns())
        &&& dictionary_accepted(backstory_patterns())
        &&& dictionary_accepted(incorrect_perspective_patterns())
        &&& dictionary_accepted(hedging_patterns())
    }

    /// Compiles all dictionaries, and succeeds exactly when every one of
    /// them compiles: failure means a malformed dictionary, never user
    /// text, and is fatal for the caller — no degraded extraction exists
    /// without the dictionaries.
    pub fn new() -> (r: Result<TextMetricFactory, PatternBuildError>)
        ensures
            r is Ok <==> Self::dictionaries_accepted(),
            (match r {
                Ok(f) => f.wf(),
                Err(_) => true,
            }),
    {
        let buzzword = match Matcher::new(&buzzword_list()) {
            Ok(m) => m,
            Err(e) => return Err(e),
        };
        let negative_buzzword = match Matcher::new(&negative_buzzword_list()) {
            Ok(m) => m,
            Err(e) => return Err(e),
        };
        let not_just = match Matcher::new(&not_just_list()) {
            Ok(m) => m,
            Err(e) => return Err(e),
        };
        let devlog = match Matcher::new(&devlog_list()) {
            Ok(m) => m,
            Err(e) => return Err(e),
        };
        let backstory = match Matcher::new(&backstory_list()) {
            Ok(m) => m,
            Err(e) => return Err(e),
        };
        let incorrect_perspective = match Matcher::new(&incorrect_perspective_list()) {
            Ok(m) => m,
            Err(e) => return Err(e),
        };
        let hedging = match Matcher::new(&hedging_list()) {
            Ok(m) => m,
            Err(e) => return Err(e),
        };
        Ok(
            TextMetricFactory {
                buzzword,
                negative_buzzword,
                not_just,
                devlog,
                backstory,
                incorrect_perspective,
                hedging,
            },
        )
    }

    /// Extracts the metrics record of `text`: a total function of the text,
    /// defined for empty, emoji-only and punctuation-only input alike.
    pub fn calculate(&self, text: &str) -> (r: TextMetrics)
        requires
            self.wf(),
        ensures
            r == metrics_value(text@),
            r.sentence_count >= 1,
            r.word_count >= 1,
    {
        // Markdown structure is read off the original-case text, before any
        // transformation could corrupt its tokens.
        let md = crate::markdown::markdown_event_count(text);
        let orig_chars = crate::unicode::chars_of(text);
        let bullets = crate::text::count_char(&orig_chars, '\u{2022}');
        let irregular_markdown_count = if md <= usize::MAX - bullets {
            md + bullets
        } else {
            usize::MAX
        };

        // All lexical passes run on the lowercased text.
        let lowered = crate::unicode::ascii_lower(text);
        let lc = crate::unicode::chars_of(lowered.as_str());

        let sentence_count = crate::segment::sentence_count(&lc);
        let word_count = crate::segment::word_count(&lc);
        let hashtag_count = crate::segment::hashtag_count(&lc);
        let label_count = crate::segment::label_count(&lc);

        let graphemes = crate::unicode::grapheme_clusters(lowered.as_str());
        proof {
            assert(concat_of(piece_views(graphemes@)).len() <= usize::MAX);
        }
        let (emoji_count, irregular_dash_count, irregular_quotation_count) =
            crate::unicode::glyph_counts(&graphemes);

        let ellipsis_glyphs = crate::text::count_char(&lc, '\u{2026}');
        let dots: Vec<char> = vec!['.', '.', '.'];
        let ellipsis_dots = crate::text::count_occurrences(&lc, &dots);
        let irregular_ellipsis_count = if ellipsis_glyphs <= usize::MAX - ellipsis_dots {
            ellipsis_glyphs + ellipsis_dots
        } else {
            usize::MAX
        };

        let amp: Vec<char> = vec!['&', 'a', 'm', 'p', ';'];
        let html_escape_count = crate::text::count_occurrences(&lc, &amp);

        let buzz = self.buzzword.count_occurrences(lowered.as_str());
        let neg = self.negative_buzzword.count_occurrences(lowered.as_str());
        let buzzword_excess = if buzz >= neg {
            buzz - neg
        } else {
            0
        };
        let not_just_count = self.not_just.count_occurrences(lowered.as_str());
        let devlog_cadence_count = self.devlog.count_occurrences(lowered.as_str());
        let backstory_count = self.backstory.count_occurrences(lowered.as_str());
        let incorrect_perspective_count = self.incorrect_perspective.count_occurrences(
            lowered.as_str(),
        );
        let hedging_count = self.hedging.count_occurrences(lowered.as_str());

        TextMetrics {
            sentence_count,
            word_count,
            emoji_count,
            buzzword_excess,
            not_just_count,
            html_escape_count,
            devlog_cadence_count,
            backstory_count,
            incorrect_perspective_count,
            hedging_count,
            irregular_ellipsis_count,
            irregular_quotation_count,
            irregular_dash_count,
            irregular_markdown_count,
            label_count,
            hashtag_count,
        }
    }

    /// Extracts the metrics of each text of a batch, in order.
    pub fn calculate_iter(&self, texts: &Vec<String>) -> (r: Vec<TextMetrics>)
        requires
            self.wf(),
        ensures
            r@.len() == texts@.len(),
            forall|i: int| 0 <= i < texts@.len() ==> r@[i] == metrics_value(texts@[i]@),
    {
        let mut out: Vec<TextMetrics> = Vec::new();
        let mut i: usize = 0;
        while i < texts.len()
            invariant
                self.wf(),
                i <= texts@.len(),
                out@.len() == i,
                forall|k: int| 0 <= k < i ==> out@[k] == metrics_value(texts@[k]@),
            decreases texts@.len() - i,
        {
            let m = self.calculate(texts[i].as_str());
            out.push(m);
            i = i + 1;
        }
        out
    }
}

} // verus!
