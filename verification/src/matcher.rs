//! Multi-pattern matching: a phrase dictionary compiled once into an
//! Aho-Corasick automaton, counting matches of any pattern in one scan of
//! the text.

use vstd::prelude::*;

verus! {

#[verifier::external_type_specification]
#[verifier::external_body]
pub struct ExAhoCorasick(aho_corasick::AhoCorasick);

#[verifier::external_type_specification]
#[verifier::external_body]
pub struct ExBuildError(aho_corasick::BuildError);

/// The pattern list a compiled automaton was built from, in order.
pub uninterp spec fn ac_patterns(ac: aho_corasick::AhoCorasick) -> Seq<Seq<char>>;

/// The number of matches that a standard-semantics scan for `patterns`
/// reports over `text`: non-overlapping, earliest-ending first. The exact
/// value is the outside crate's; the crate states only that it is a
/// function of the pattern list and the text.
pub uninterp spec fn ac_count(patterns: Seq<Seq<char>>, text: Seq<char>) -> nat;

/// Whether the automaton builder accepts a pattern list. Its verdict
/// depends on the patterns alone (it refuses only over-large pattern sets
/// and states), so success is a function of the list.
pub uninterp spec fn ac_builds(patterns: Seq<Seq<char>>) -> bool;

/// Relies on aho_corasick::AhoCorasick::new: whether the build succeeds is
/// decided by the pattern list alone, and on success the automaton holds
/// exactly the given patterns, with the default standard match semantics.
#[verifier::external_body]
fn ac_build(pats: &Vec<&'static str>) -> (r: Result<
    aho_corasick::AhoCorasick,
    aho_corasick::BuildError,
>)
    ensures
        r is Ok <==> ac_builds(pats@.map_values(|p: &'static str| p@)),
        (match r {
            Ok(ac) => ac_patterns(ac) == pats@.map_values(|p: &'static str| p@),
            Err(_) => true,
        }),
{
    aho_corasick::AhoCorasick::new(pats.iter().copied())
}

/// Relies on aho_corasick::AhoCorasick::find_iter with the default standard
/// match semantics: the reported matches are a function of the pattern list
/// and the haystack alone, they do not overlap, and with non-empty patterns
/// each spans at least one character, so their number is at most the length
/// of the haystack.
#[verifier::external_body]
fn ac_find_count(ac: &aho_corasick::AhoCorasick, text: &str) -> (r: usize)
    requires
        forall|i: int| 0 <= i < ac_patterns(*ac).len() ==> ac_patterns(*ac)[i].len() > 0,
    ensures
        r == ac_count(ac_patterns(*ac), text@),
        r <= text@.len(),
{
    ac.find_iter(text).count()
}

/// Why a phrase dictionary could not be compiled.
#[derive(Clone, Copy, Debug, PartialEq, Eq, Structural)]
pub enum PatternBuildError {
    /// The dictionary holds no phrase at all.
    EmptySet,
    /// The dictionary holds an empty phrase.
    EmptyPattern,
    /// The matching automaton itself refused the dictionary.
    Automaton,
}

/// A dictionary that compiles: it has at least one phrase, no empty
/// phrase, and the automaton builder accepts it. [`Matcher::new`] succeeds
/// on exactly these.
pub open spec fn dictionary_accepted(patterns: Seq<Seq<char>>) -> bool {
    &&& patterns.len() > 0
    &&& forall|i: int| 0 <= i < patterns.len() ==> patterns[i].len() > 0
    &&& ac_builds(patterns)
}

/// A phrase dictionary compiled for single-scan counting.
pub struct Matcher {
    ac: aho_corasick::AhoCorasick,
}

impl Matcher {
    /// The phrases this matcher was built from.
    pub closed spec fn patterns(&self) -> Seq<Seq<char>> {
        ac_patterns(self.ac)
    }

    /// A well-formed matcher holds at least one phrase and no empty phrase.
    pub open spec fn wf(&self) -> bool {
        &&& self.patterns().len() > 0
        &&& forall|i: int| 0 <= i < self.patterns().len() ==> self.patterns()[i].len() > 0
    }

    /// Compiles a phrase dictionary, and succeeds exactly on the accepted
    /// ones. An empty dictionary and an empty phrase are rejected here;
    /// anything the automaton builder itself refuses is reported as
    /// [`PatternBuildError::Automaton`].
    pub fn new(pats: &Vec<&'static str>) -> (r: Result<Matcher, PatternBuildError>)
        ensures
            r is Ok <==> dictionary_accepted(pats@.map_values(|p: &'static str| p@)),
            (match r {
                Ok(m) => {
                    &&& m.patterns() == pats@.map_values(|p: &'static str| p@)
                    &&& m.wf()
                },
                Err(PatternBuildError::EmptySet) => pats@.len() == 0,
                Err(PatternBuildError::EmptyPattern) => exists|i: int|
                    0 <= i < pats@.len() && pats@[i]@.len() == 0,
                Err(PatternBuildError::Automaton) => pats@.len() > 0 && (forall|i: int|
                    0 <= i < pats@.len() ==> pats@[i]@.len() > 0) && !ac_builds(
                    pats@.map_values(|p: &'static str| p@),
                ),
            }),
            pats@.len() == 0 ==> r == Result::<Matcher, PatternBuildError>::Err(
                PatternBuildError::EmptySet,
            ),
    {
        if pats.len() == 0 {
            return Err(PatternBuildError::EmptySet);
        }
        let mut i: usize = 0;
        while i < pats.len()
            invariant
                i <= pats@.len(),
                forall|k: int| 0 <= k < i ==> pats@[k]@.len() > 0,
            decreases pats@.len() - i,
        {
            if pats[i].is_empty() {
                proof {
                    assert(pats@.map_values(|p: &'static str| p@)[i as int] == pats@[i as int]@);
                }
                return Err(PatternBuildError::EmptyPattern);
            }
            i = i + 1;
        }
        match ac_build(pats) {
            Ok(ac) => {
                let m = Matcher { ac };
                proof {
                    assert(forall|k: int|
                        0 <= k < m.patterns().len() ==> m.patterns()[k] == pats@[k]@);
                }
                Ok(m)
            },
            Err(_) => Err(PatternBuildError::Automaton),
        }
    }

    /// Counts the matches of any phrase of the dictionary in `text`, in one
    /// scan: the standard-semantics match count of the compiled automaton.
    pub fn count_occurrences(&self, text: &str) -> (r: usize)
        requires
            self.wf(),
        ensures
            r == ac_count(self.patterns(), text@),
            r <= text@.len(),
    {
        ac_find_count(&self.ac, text)
    }
}

} // verus!
