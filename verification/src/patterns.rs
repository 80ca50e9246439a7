//! The curated phrase dictionaries, one per semantic category. All phrases
//! are lower case, since every lexical pass runs on the lowercased text.

use vstd::prelude::*;

verus! {

/// Marketing and tutorial buzzword phrases.
pub open spec fn buzzword_patterns() -> Seq<Seq<char>> {
    seq![
        "the app"@, "-powered"@, "powered by"@, "-based"@, "based on"@, "-like"@, "todo app"@,
        "interactive cards"@, "modern"@, "delivers"@, "delivers both"@, "across all devices"@,
        "style and usability"@, "real-time"@, "calm, reflective space"@, "simulate"@,
        "self-care"@, "meaningful"@, "user interaction"@, "digital wellness"@,
        "user-friendly interface"@, "responsive"@, "auto-typing"@, "engagement"@, "community"@,
        "ambitious goal"@, "world of data"@, "programming toolkit"@, "summer of learning"@,
        "and a custom"@, "foundational principles"@, "began to wonder"@, "i'm announcing"@,
        "i’m announcing"@, "fully featured"@, "next.js 13"@, "next.js 14"@, "next.js 13/14"@,
        "svelte 4"@, "app router"@, "modern"@, "web dashboard"@, "step-by-step"@, "excited"@,
        "tailwindcss"@, "build this"@, "inner workings"@, "live code editor"@, "new project"@,
        "kicking off"@, "lightweight"@, "in the browser"@, "morphisim"@, "comprehensive"@,
        "philosophy"@, "revolutionary"@, "wisdom"@, "leetcode"@, "global accessibility"@,
        "developers"@, "harmony of tradition and innovation"@, "intuitive"@,
        "powerful features"@, "cross-platform"@, "inspiration"@, "technical architecture"@,
        "users can"@, "rewarding feel"@, "progress tracking"@, "understandable"@,
        "digital co-pilot"@, "significantly improves usability"@, "easier to navigate"@,
        "react for the frontend"@, "stylish"@, "mobile-"@, "ui/ux"@,
    ]
}

/// Phrases whose buzzword hits are false positives and are subtracted.
pub open spec fn negative_buzzword_patterns() -> Seq<Seq<char>> {
    seq!["modern english"@]
}

/// Parenthetical hedging markers.
pub open spec fn hedging_patterns() -> Seq<Seq<char>> {
    seq!["(e.g."@, "(formerly"@]
}

/// Contrastive "not just X" rhetoric.
pub open spec fn not_just_patterns() -> Seq<Seq<char>> {
    seq![
        "more than just"@, "isn’t a"@, "isn't a"@, "this isn’t a prototype"@, "isn’t just a"@,
        "isn't just a"@, "it’s not just"@, "it's not just"@, "i'm not just"@, "i’m not just"@,
        "it’s just not"@, "it's just not"@, "i'm just not"@, "i’m just not"@, "isn’t just"@,
        "isn't just"@, "didn't just"@, "didn’t just"@, "more than a"@, "it’s more"@, "it's more"@,
    ]
}

/// Devlog cadence phrases.
pub open spec fn devlog_patterns() -> Seq<Seq<char>> {
    seq![
        "dev log"@, "dev-log"@, "day"@, "devlog #"@, "dev log #"@, "dev-log #"@, "day #"@,
        "today,"@, ", 2025"@, "2025."@, "june "@, ".05"@, ".06"@, ".07"@, "july "@,
        "key improvements"@, "this week was all about"@, "the project"@, "what’s next"@,
        "what's next"@, "next steps"@, "why it matters"@,
    ]
}

/// Pronouns of a perspective a personal devlog would not take.
pub open spec fn incorrect_perspective_patterns() -> Seq<Seq<char>> {
    seq![
        "we"@, "they"@, "you"@, "us"@, "our"@, "ours"@, "ourselves"@, "they"@, "them"@,
        "people"@, "theirs"@, "themselves"@, "oneself"@, "users"@,
    ]
}

/// Origin-story phrases.
pub open spec fn backstory_patterns() -> Seq<Seq<char>> {
    seq![
        "as a"@, "high school student"@, "middle school student"@, "preparing for"@, "exams"@,
        "was born from"@, "personal frustration"@, "makes it unique"@, "and eventually"@,
        "the intention"@, "it’s been a journey"@, "it's been a journey"@, "a journey"@,
        "it’s all about"@, "it's all about"@, "leverage that knowledge"@,
    ]
}

/// Runtime form of [`buzzword_patterns`].
pub fn buzzword_list() -> (r: Vec<&'static str>)
    ensures
        r@.map_values(|p: &'static str| p@) == buzzword_patterns(),
{
    let v: Vec<&'static str> = vec![
        "the app", "-powered", "powered by", "-based", "based on", "-like", "todo app",
        "interactive cards", "modern", "delivers", "delivers both", "across all devices",
        "style and usability", "real-time", "calm, reflective space", "simulate",
        "self-care", "meaningful", "user interaction", "digital wellness",
        "user-friendly interface", "responsive", "auto-typing", "engagement", "community",
        "ambitious goal", "world of data", "programming toolkit", "summer of learning",
        "and a custom", "foundational principles", "began to wonder", "i'm announcing",
        "i’m announcing", "fully featured", "next.js 13", "next.js 14", "next.js 13/14",
        "svelte 4", "app router", "modern", "web dashboard", "step-by-step", "excited",
        "tailwindcss", "build this", "inner workings", "live code editor", "new project",
        "kicking off", "lightweight", "in the browser", "morphisim", "comprehensive",
        "philosophy", "revolutionary", "wisdom", "leetcode", "global accessibility",
        "developers", "harmony of tradition and innovation", "intuitive",
        "powerful features", "cross-platform", "inspiration", "technical architecture",
        "users can", "rewarding feel", "progress tracking", "understandable",
        "digital co-pilot", "significantly improves usability", "easier to navigate",
        "react for the frontend", "stylish", "mobile-", "ui/ux",
    ];
    proof {
        assert(v@.map_values(|p: &'static str| p@) =~= buzzword_patterns());
    }
    v
}

/// Runtime form of [`negative_buzzword_patterns`].
pub fn negative_buzzword_list() -> (r: Vec<&'static str>)
    ensures
        r@.map_values(|p: &'static str| p@) == negative_buzzword_patterns(),
{
    let v: Vec<&'static str> = vec!["modern english"];
    proof {
        assert(v@.map_values(|p: &'static str| p@) =~= negative_buzzword_patterns());
    }
    v
}

/// Runtime form of [`hedging_patterns`].
pub fn hedging_list() -> (r: Vec<&'static str>)
    ensures
        r@.map_values(|p: &'static str| p@) == hedging_patterns(),
{
    let v: Vec<&'static str> = vec!["(e.g.", "(formerly"];
    proof {
        assert(v@.map_values(|p: &'static str| p@) =~= hedging_patterns());
    }
    v
}

/// Runtime form of [`not_just_patterns`].
pub fn not_just_list() -> (r: Vec<&'static str>)
    ensures
        r@.map_values(|p: &'static str| p@) == not_just_patterns(),
{
    let v: Vec<&'static str> = vec![
        "more than just", "isn’t a", "isn't a", "this isn’t a prototype", "isn’t just a",
        "isn't just a", "it’s not just", "it's not just", "i'm not just", "i’m not just",
        "it’s just not", "it's just not", "i'm just not", "i’m just not", "isn’t just",
        "isn't just", "didn't just", "didn’t just", "more than a", "it’s more", "it's more",
    ];
    proof {
        assert(v@.map_values(|p: &'static str| p@) =~= not_just_patterns());
    }
    v
}

/// Runtime form of [`devlog_patterns`].
pub fn devlog_list() -> (r: Vec<&'static str>)
    ensures
        r@.map_values(|p: &'static str| p@) == devlog_patterns(),
{
    let v: Vec<&'static str> = vec![
        "dev log", "dev-log", "day", "devlog #", "dev log #", "dev-log #", "day #",
        "today,", ", 2025", "2025.", "june ", ".05", ".06", ".07", "july ",
        "key improvements", "this week was all about", "the project", "what’s next",
        "what's next", "next steps", "why it matters",
    ];
    proof {
        assert(v@.map_values(|p: &'static str| p@) =~= devlog_patterns());
    }
    v
}

/// Runtime form of [`incorrect_perspective_patterns`].
pub fn incorrect_perspective_list() -> (r: Vec<&'static str>)
    ensures
        r@.map_values(|p: &'static str| p@) == incorrect_perspective_patterns(),
{
    let v: Vec<&'static str> = vec![
        "we", "they", "you", "us", "our", "ours", "ourselves", "they", "them",
        "people", "theirs", "themselves", "oneself", "users",
    ];
    proof {
        assert(v@.map_values(|p: &'static str| p@) =~= incorrect_perspective_patterns());
    }
    v
}

/// Runtime form of [`backstory_patterns`].
pub fn backstory_list() -> (r: Vec<&'static str>)
    ensures
        r@.map_values(|p: &'static str| p@) == backstory_patterns(),
{
    let v: Vec<&'static str> = vec![
        "as a", "high school student", "middle school student", "preparing for", "exams",
        "was born from", "personal frustration", "makes it unique", "and eventually",
        "the intention", "it’s been a journey", "it's been a journey", "a journey",
        "it’s all about", "it's all about", "leverage that knowledge",
    ];
    proof {
        assert(v@.map_values(|p: &'static str| p@) =~= backstory_patterns());
    }
    v
}

} // verus!
