//! The lines that are left out of the ranking: those that a set of regular
//! expressions matches.
//!
//! The expressions are compiled and matched by the crate `regex`. Nothing
//! here is proved of that crate; what is taken on trust is named below.

use vstd::prelude::*;

verus! {

/// `regex::RegexSet`, a compiled set of regular expressions. Nothing of its
/// inside is known here.
#[verifier::external_type_specification]
#[verifier::external_body]
pub struct ExRegexSet(regex::RegexSet);

/// `regex::Error`, the reason why a set did not compile. Nothing of its
/// inside is known here.
#[verifier::external_type_specification]
#[verifier::external_body]
pub struct ExRegexError(regex::Error);

/// The most patterns that one set takes.
pub const MAX_PATTERNS: usize = 0x7fff_ffff;

/// What `regex::RegexSet::new` returns for these patterns: the compiled set,
/// or the reason why there is none.
pub uninterp spec fn regex_set_new(patterns: Seq<Seq<char>>) -> Result<
    regex::RegexSet,
    regex::Error,
>;

/// Whether `regex::RegexSet::is_match` finds a match of one of the set's
/// expressions in the haystack.
pub uninterp spec fn regex_set_matches(set: regex::RegexSet, haystack: Seq<char>) -> bool;

/// Whether the patterns compile into a set.
pub open spec fn regex_set_compiles(patterns: Seq<Seq<char>>) -> bool {
    regex_set_new(patterns) is Ok
}

/// The set that the patterns compile into, where they do.
pub open spec fn regex_set_of(patterns: Seq<Seq<char>>) -> regex::RegexSet {
    regex_set_new(patterns)->Ok_0
}

/// `regex::RegexSet::new`, which compiles the patterns into one set or says
/// why it cannot. The contract names what it returns [`regex_set_new`]: the
/// same patterns give the same set. It takes from the crate's documentation
/// that no patterns at all give a set, the empty one, which matches nothing.
/// The crate's source shows a panic where there are more patterns than
/// [`MAX_PATTERNS`], which `requires` leaves out.
#[verifier::external_body]
fn compile(patterns: &Vec<String>) -> (compiled: Result<regex::RegexSet, regex::Error>)
    requires
        patterns@.len() <= MAX_PATTERNS,
    ensures
        compiled == regex_set_new(patterns.deep_view()),
        patterns@.len() == 0 ==> compiled is Ok,
        patterns@.len() == 0 ==> forall|haystack: Seq<char>|
            !#[trigger] regex_set_matches(compiled->Ok_0, haystack),
{
    regex::RegexSet::new(patterns)
}

/// `regex::RegexSet::is_match`, which says whether one of the set's
/// expressions matches somewhere in the haystack. The contract names that
/// answer [`regex_set_matches`]; the crate's source shows that it depends on
/// the set and the haystack alone and that the search from the start of the
/// haystack does not panic.
#[verifier::external_body]
fn is_match(set: &regex::RegexSet, haystack: &str) -> (found: bool)
    ensures
        found == regex_set_matches(*set, haystack@),
{
    set.is_match(haystack)
}

/// The `Display` text of a `regex::Error`. Nothing is claimed of the text.
#[verifier::external_body]
fn describe(error: &regex::Error) -> (message: String) {
    error.to_string()
}

/// Why a set of patterns is no exclusion.
#[derive(Debug, PartialEq, Eq)]
pub struct PatternError {
    /// What the compiler of the expressions said, or that there are more
    /// patterns than one set takes.
    pub message: String,
}

/// A compiled set of patterns; a line that one of them matches is excluded.
pub struct Exclusions {
    set: regex::RegexSet,
}

/// Whether these patterns make exclusions: they are no more than a set takes,
/// and they compile.
pub open spec fn patterns_accepted(patterns: Seq<Seq<char>>) -> bool {
    patterns.len() <= MAX_PATTERNS && regex_set_compiles(patterns)
}

impl Exclusions {
    /// Whether these exclusions exclude the line.
    pub closed spec fn excludes(&self, line: Seq<char>) -> bool {
        regex_set_matches(self.set, line)
    }

    /// These exclusions as a predicate on lines.
    pub open spec fn predicate(&self) -> spec_fn(Seq<char>) -> bool {
        |line: Seq<char>| self.excludes(line)
    }

    /// Whether these exclusions are those of the patterns: they exclude the
    /// lines that the set compiled from the patterns matches.
    pub open spec fn made_of(&self, patterns: Seq<Seq<char>>) -> bool {
        forall|line: Seq<char>| #[trigger]
            self.excludes(line) == regex_set_matches(regex_set_of(patterns), line)
    }

    /// Compiles the patterns. More patterns than a set takes, or a pattern
    /// that the crate `regex` does not accept, make the whole set an error,
    /// before any line is looked at. No patterns exclude nothing.
    pub fn new(patterns: &Vec<String>) -> (made: Result<Exclusions, PatternError>)
        ensures
            made is Ok <==> patterns_accepted(patterns.deep_view()),
            made is Ok ==> made->Ok_0.made_of(patterns.deep_view()),
            patterns@.len() == 0 ==> made is Ok,
            patterns@.len() == 0 ==> forall|line: Seq<char>|
                !#[trigger] made->Ok_0.excludes(line),
    {
        if patterns.len() > MAX_PATTERNS {
            return Err(PatternError { message: "too many patterns for one set".to_owned() });
        }
        match compile(patterns) {
            Ok(set) => Ok(Exclusions { set }),
            Err(error) => Err(PatternError { message: describe(&error) }),
        }
    }

    /// Compiles the patterns, if any were given; none given exclude nothing,
    /// and neither does an empty list of them.
    pub fn given(patterns: &Option<Vec<String>>) -> (made: Result<Exclusions, PatternError>)
        ensures
            match *patterns {
                Some(list) => {
                    &&& made is Ok <==> patterns_accepted(list.deep_view())
                    &&& made is Ok ==> made->Ok_0.made_of(list.deep_view())
                    &&& list@.len() == 0 ==> made is Ok
                    &&& list@.len() == 0 ==> forall|line: Seq<char>|
                        !#[trigger] made->Ok_0.excludes(line)
                },
                None => {
                    &&& made is Ok
                    &&& made->Ok_0.made_of(Seq::empty())
                    &&& forall|line: Seq<char>| !#[trigger] made->Ok_0.excludes(line)
                },
            },
    {
        match patterns {
            Some(list) => Exclusions::new(list),
            None => {
                let none: Vec<String> = Vec::new();
                proof {
                    assert(none.deep_view() =~= Seq::<Seq<char>>::empty());
                }
                Exclusions::new(&none)
            },
        }
    }

    /// Whether the line is excluded. The line is taken as it was read, with
    /// whatever white space ends it.
    pub fn is_excluded(&self, line: &str) -> (excluded: bool)
        ensures
            excluded == self.excludes(line@),
    {
        is_match(&self.set, line)
    }
}

} // verus!
