//! The case-insensitive filter pattern, backed by a compiled regular
//! expression from the `regex` crate.

use vstd::prelude::*;

use regex::Regex;

verus! {

#[verifier::external_type_specification]
#[verifier::external_body]
pub struct ExRegex(Regex);

/// Whether the case-insensitive regular expression `pattern` matches
/// somewhere in `text`. The match result of a compiled regular expression
/// depends on the pattern it was built from and the searched text alone, so
/// it is left as a named, uninterpreted function.
pub uninterp spec fn ci_matches(pattern: Seq<char>, text: Seq<char>) -> bool;

/// A case-insensitive filter pattern.
///
/// Holds the pattern text together with the regular expression compiled
/// from it; the only constructor compiles with case folding enabled, so the
/// two fields always describe the same matcher.
#[derive(Debug)]
pub struct Filter {
    pattern: String,
    regex: Regex,
}

impl Filter {
    /// The pattern text this filter was compiled from.
    pub closed spec fn pattern_view(&self) -> Seq<char> {
        self.pattern@
    }

    /// Compiles a case-insensitive filter from a pattern.
    ///
    /// Relies on `regex::RegexBuilder::build` with `case_insensitive(true)`:
    /// on success the result matches exactly as the pattern describes; on an
    /// invalid pattern it fails, and the error's rendering is handed back.
    #[verifier::external_body]
    pub fn new(pattern: String) -> (r: Result<Filter, String>)
        ensures
            r matches Ok(f) ==> f.pattern_view() == pattern@,
    {
        match regex::RegexBuilder::new(&pattern).case_insensitive(true).build() {
            Ok(regex) => Ok(Filter { pattern, regex }),
            Err(e) => Err(format!("{}", e)),
        }
    }

    /// Returns the pattern text, for diagnostics.
    pub fn pattern(&self) -> (r: &str)
        ensures
            r@ == self.pattern_view(),
    {
        self.pattern.as_str()
    }

    /// Whether this filter matches somewhere in `text`.
    ///
    /// Relies on `regex::Regex::is_match`: the result is a function of the
    /// compiled pattern and the searched text alone.
    #[verifier::external_body]
    pub fn is_match(&self, text: &str) -> (r: bool)
        ensures
            r == ci_matches(self.pattern_view(), text@),
    {
        self.regex.is_match(text)
    }
}

} // verus!
