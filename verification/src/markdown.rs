//! Structural markdown analysis of the original-case text.
//!
//! The text is parsed as a markdown event stream, and the events that
//! indicate rich formatting are counted. The parse itself is the outside
//! crate's; the crate states only that the count is a function of the text.

use vstd::prelude::*;
use pulldown_cmark::{Event, Parser, Tag};

verus! {

/// The number of rich-formatting markdown events in a text: inline code,
/// math spans, raw and inline HTML, footnote references, task-list markers,
/// horizontal rules, and the starts of block quotes, code blocks, footnote
/// definitions, emphasis, strong, strikethrough, subscript, superscript,
/// headings, links and images.
pub uninterp spec fn md_count(s: Seq<char>) -> nat;

/// Relies on pulldown_cmark::Parser::new: the event stream is a pure
/// function of the text; the counted variants are told apart and summed.
#[verifier::external_body]
pub fn markdown_event_count(text: &str) -> (r: usize)
    ensures
        r == md_count(text@),
{
    Parser::new(text).filter(|event| matches!(
        event,
        Event::Code(_) | Event::InlineMath(_) | Event::DisplayMath(_) | Event::Html(_)
        | Event::InlineHtml(_) | Event::FootnoteReference(_) | Event::TaskListMarker(_)
        | Event::Rule
        | Event::Start(
            Tag::BlockQuote(_) | Tag::CodeBlock(_) | Tag::FootnoteDefinition(_) | Tag::Emphasis
            | Tag::Strong | Tag::Strikethrough | Tag::Subscript | Tag::Superscript
            | Tag::Heading { .. } | Tag::Link { .. } | Tag::Image { .. },
        )
    )).count()
}

} // verus!
