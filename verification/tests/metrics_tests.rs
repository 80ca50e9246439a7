use sonai::TextMetricFactory;

fn factory() -> TextMetricFactory {
    TextMetricFactory::new().expect("the built-in dictionaries compile")
}

#[test]
fn empty_text_has_clamped_denominators() {
    let f = factory();
    let m = f.calculate("");
    assert_eq!(m.sentence_count, 1);
    assert_eq!(m.word_count, 1);
    assert_eq!(m.emoji_count, 0);
    assert_eq!(m.buzzword_excess, 0);
    assert_eq!(m.irregular_dash_count, 0);
    assert_eq!(m.irregular_markdown_count, 0);
}

#[test]
fn degenerate_texts_are_total() {
    let f = factory();
    let m = f.calculate("👍");
    assert_eq!(m.emoji_count, 1);
    assert_eq!(m.sentence_count, 1);
    let m = f.calculate("!!!???...");
    assert_eq!(m.sentence_count, 1);
    assert_eq!(m.word_count, 1);
    let m = f.calculate("x");
    assert_eq!(m.sentence_count, 1);
    assert_eq!(m.word_count, 1);
}

#[test]
fn calculate_is_idempotent() {
    let f = factory();
    let text = "Day 1 — it's not just a todo app… it's a *journey*! 👍 #dev\nStatus: shipped & modern english &amp; more.";
    let a = f.calculate(text);
    let b = f.calculate(text);
    assert_eq!(a, b);
}

#[test]
fn negative_buzzword_is_suppressed() {
    let f = factory();
    let m = f.calculate("modern english");
    assert_eq!(m.buzzword_excess, 0);
}

#[test]
fn buzzword_alone_counts() {
    let f = factory();
    let m = f.calculate("modern");
    assert_eq!(m.buzzword_excess, 1);
}

#[test]
fn lowercasing_feeds_the_dictionaries() {
    let f = factory();
    let m = f.calculate("MODERN");
    assert_eq!(m.buzzword_excess, 1);
}

#[test]
fn hyphen_before_space_is_no_dash() {
    let f = factory();
    let m = f.calculate("end - ");
    assert_eq!(m.irregular_dash_count, 0);
}

#[test]
fn hyphens_inside_compounds_count_by_the_literal_rule() {
    let f = factory();
    let m = f.calculate("end-to-end");
    assert_eq!(m.irregular_dash_count, 2);
}

#[test]
fn em_dash_counts_once() {
    let f = factory();
    let m = f.calculate("a—b");
    assert_eq!(m.irregular_dash_count, 1);
}

#[test]
fn ascii_hyphen_before_letter_counts_once() {
    let f = factory();
    let m = f.calculate("a-b");
    assert_eq!(m.irregular_dash_count, 1);
}

#[test]
fn ellipsis_glyph_and_dots_each_count_once() {
    let f = factory();
    assert_eq!(f.calculate("wait...").irregular_ellipsis_count, 1);
    assert_eq!(f.calculate("wait…").irregular_ellipsis_count, 1);
}

#[test]
fn four_dots_count_one_triple() {
    let f = factory();
    let m = f.calculate("wait....");
    assert_eq!(m.irregular_ellipsis_count, 1);
}

#[test]
fn six_dots_count_two_triples() {
    let f = factory();
    let m = f.calculate("wait......");
    assert_eq!(m.irregular_ellipsis_count, 2);
}

#[test]
fn curly_quotes_count_each() {
    let f = factory();
    let m = f.calculate("“quoted” and ‘single’");
    assert_eq!(m.irregular_quotation_count, 4);
}

#[test]
fn html_escape_counts_nonoverlapping() {
    let f = factory();
    assert_eq!(f.calculate("&amp;").html_escape_count, 1);
    assert_eq!(f.calculate("&amp;amp;").html_escape_count, 1);
    assert_eq!(f.calculate("&amp; &amp;").html_escape_count, 2);
}

#[test]
fn sentences_split_on_terminators_and_drop_blanks() {
    let f = factory();
    let m = f.calculate("One. Two! Three?");
    assert_eq!(m.sentence_count, 3);
    let m = f.calculate("One. . ! Two");
    assert_eq!(m.sentence_count, 2);
}

#[test]
fn words_split_on_whitespace() {
    let f = factory();
    let m = f.calculate("a b\t c\nd");
    assert_eq!(m.word_count, 4);
}

#[test]
fn hashtags_need_a_second_character() {
    let f = factory();
    let m = f.calculate("#tag #x y #");
    assert_eq!(m.hashtag_count, 2);
}

#[test]
fn labels_need_alphabetic_heads() {
    let f = factory();
    assert_eq!(f.calculate("Status: done\n").label_count, 1);
    assert_eq!(f.calculate("step one: done\nignored line\nNotes: more\n").label_count, 2);
    assert_eq!(f.calculate("3d: nope\n").label_count, 0);
    assert_eq!(f.calculate("   : nope\n").label_count, 0);
}

#[test]
fn markdown_heading_counts_once() {
    let f = factory();
    let m = f.calculate("# Heading");
    assert_eq!(m.irregular_markdown_count, 1);
}

#[test]
fn markdown_inline_code_counts_once() {
    let f = factory();
    let m = f.calculate("some `code` here");
    assert_eq!(m.irregular_markdown_count, 1);
}

#[test]
fn bullets_add_to_the_markdown_count() {
    let f = factory();
    let m = f.calculate("• item one\n• item two\n");
    assert_eq!(m.irregular_markdown_count, 2);
}

#[test]
fn multi_scalar_emoji_counts_once() {
    let f = factory();
    let m = f.calculate("❤️");
    assert_eq!(m.emoji_count, 1);
}

#[test]
fn joined_emoji_family_is_one_cluster() {
    let f = factory();
    let m = f.calculate("👨‍👩‍👧");
    assert_eq!(m.emoji_count, 1);
}

#[test]
fn phrase_categories_count() {
    let f = factory();
    assert_eq!(f.calculate("it's not just a tool").not_just_count, 1);
    assert_eq!(f.calculate("dev log entry").devlog_cadence_count, 1);
    assert_eq!(f.calculate("(e.g. this one)").hedging_count, 1);
    assert_eq!(f.calculate("it was born from need").backstory_count, 1);
    assert_eq!(f.calculate("they said so").incorrect_perspective_count, 1);
}

#[test]
fn calculate_iter_matches_single_calls() {
    let f = factory();
    let texts = vec!["it's not just a demo".to_string(), "plain words".to_string()];
    let batch = f.calculate_iter(&texts);
    assert_eq!(batch.len(), 2);
    assert_eq!(batch[0], f.calculate("it's not just a demo"));
    assert_eq!(batch[1], f.calculate("plain words"));
}

#[test]
fn count_matches_sums_per_pattern() {
    let pats = vec!["abc", "b"];
    assert_eq!(sonai::count_matches("abcabc", &pats), 4);
    let pats = vec!["ab", "ba"];
    assert_eq!(sonai::count_matches("abab", &pats), 3);
    let pats = vec!["aa"];
    assert_eq!(sonai::count_matches("aaaa", &pats), 2);
    let empty: Vec<&str> = Vec::new();
    assert_eq!(sonai::count_matches("anything", &empty), 0);
}

#[test]
fn matcher_rejects_malformed_dictionaries() {
    let no_pats: Vec<&str> = Vec::new();
    assert_eq!(
        sonai::Matcher::new(&no_pats).err(),
        Some(sonai::PatternBuildError::EmptySet)
    );
    let with_empty = vec!["ok", ""];
    assert_eq!(
        sonai::Matcher::new(&with_empty).err(),
        Some(sonai::PatternBuildError::EmptyPattern)
    );
}

#[test]
fn matcher_counts_in_one_scan() {
    let pats = vec!["dev log", "day"];
    let m = sonai::Matcher::new(&pats).unwrap();
    assert_eq!(m.count_occurrences("day by day, a dev log"), 3);
    assert_eq!(m.count_occurrences(""), 0);
}
