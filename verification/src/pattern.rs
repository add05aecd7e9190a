//! Regular expressions, kept together with the pattern text they were
//! compiled from.

use vstd::prelude::*;
use regex::Regex;

verus! {

#[verifier::external_type_specification]
#[verifier::external_body]
pub struct ExRegex(regex::Regex);

#[verifier::external_type_specification]
#[verifier::external_body]
pub struct ExRegexError(regex::Error);

/// Whether `Regex::new` accepts the pattern.
pub uninterp spec fn spec_regex_compiles(pattern: Seq<char>) -> bool;

/// The text that `Regex::replace_all` makes of `haystack` with a regex
/// compiled from `pattern`: every non-overlapping match, leftmost first,
/// replaced by `replacement` (in which `$name` and `$n` refer to groups).
pub uninterp spec fn spec_regex_replace_all(
    pattern: Seq<char>,
    haystack: Seq<char>,
    replacement: Seq<char>,
) -> Seq<char>;

/// The text of the leftmost-first match that `Regex::find` reports in
/// `haystack` for a regex compiled from `pattern`, if there is one.
pub uninterp spec fn spec_regex_find(pattern: Seq<char>, haystack: Seq<char>) -> Option<
    Seq<char>,
>;

/// Why a pattern could not be used.
#[derive(Debug)]
pub enum PatternError {
    /// The pattern is not a valid regular expression (or too large).
    Invalid,
}

/// A compiled regular expression and the pattern text it was compiled from.
/// Only [`Pattern::new`] makes one, so the two always belong together.
pub struct Pattern {
    source: String,
    regex: Regex,
}

impl View for Pattern {
    type V = Seq<char>;

    closed spec fn view(&self) -> Seq<char> {
        self.source@
    }
}

impl Pattern {
    /// `Regex::new`: compiles `source`; it fails exactly on the patterns it
    /// does not accept, and a compiled pattern keeps `source` as its text.
    #[verifier::external_body]
    fn compile(source: &str) -> (res: Result<Pattern, regex::Error>)
        ensures
            res is Ok <==> spec_regex_compiles(source@),
            res matches Ok(p) ==> p@ == source@,
    {
        match Regex::new(source) {
            Ok(regex) => Ok(Pattern { source: source.to_string(), regex }),
            Err(e) => Err(e),
        }
    }

    /// The compiled form of `source`, or `Invalid` when it is not a regular
    /// expression that can be compiled.
    pub fn new(source: &str) -> (res: Result<Pattern, PatternError>)
        ensures
            res is Ok <==> spec_regex_compiles(source@),
            res matches Ok(p) ==> p@ == source@,
    {
        match Self::compile(source) {
            Ok(p) => Ok(p),
            Err(_) => Err(PatternError::Invalid),
        }
    }

    /// `Regex::replace_all`: `haystack` with every non-overlapping match
    /// replaced by `replacement`; the result is claimed to depend only on
    /// the pattern text, the haystack and the replacement.
    #[verifier::external_body]
    pub(crate) fn replace_all(&self, haystack: &str, replacement: &str) -> (res: String)
        ensures
            res@ == spec_regex_replace_all(self@, haystack@, replacement@),
    {
        self.regex.replace_all(haystack, replacement).into_owned()
    }

    /// `Regex::find`: the text of the leftmost-first match in `haystack`;
    /// the result is claimed to depend only on the pattern text and the
    /// haystack.
    #[verifier::external_body]
    pub(crate) fn find(&self, haystack: &str) -> (res: Option<String>)
        ensures
            res matches Some(m) ==> spec_regex_find(self@, haystack@) == Some(m@),
            res is None ==> spec_regex_find(self@, haystack@) is None,
    {
        match self.regex.find(haystack) {
            Some(m) => Some(m.as_str().to_string()),
            None => None,
        }
    }
}

} // verus!
