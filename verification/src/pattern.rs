//! Patterns over symbol names: compiled once, tested against many names.

use crate::error::{ScanError, ScanErrorView};
use regex::Regex;
use vstd::prelude::*;

verus! {

/// The compiled regular expression of the `regex` crate. Nothing inside it
/// is visible here; it is only handed back to that crate.
#[verifier::external_type_specification]
#[verifier::external_body]
pub struct ExRegex(Regex);

/// What `regex::Regex::new` makes of a pattern text: `None` where it
/// compiles, else the text of the error it returns.
pub uninterp spec fn pattern_complaint(pattern: Seq<char>) -> Option<Seq<char>>;

/// The pattern text that a compiled regex was built from, as
/// `regex::Regex::as_str` returns it.
pub uninterp spec fn regex_source(regex: Regex) -> Seq<char>;

/// Whether the regex that `regex::Regex::new` builds from `pattern` finds a
/// match anywhere in `text`, as `regex::Regex::is_match` reports it.
pub uninterp spec fn pattern_accepts(pattern: Seq<char>, text: Seq<char>) -> bool;

/// Calls `regex::Regex::new`. Trusted: the call succeeds exactly on the
/// patterns for which `pattern_complaint` is `None`, the regex it returns
/// keeps the pattern text it was given, and on failure the error's display
/// text is the complaint.
#[verifier::external_body]
fn regex_new(pattern: &str) -> (r: Result<Regex, String>)
    ensures
        match r {
            Ok(regex) => pattern_complaint(pattern@) is None && regex_source(regex) == pattern@,
            Err(complaint) => pattern_complaint(pattern@) == Some(complaint@),
        },
{
    Regex::new(pattern).map_err(|e| e.to_string())
}

/// Calls `regex::Regex::is_match`. Trusted: the answer depends on the text
/// and on the pattern the regex was built from, and on nothing else. This
/// holds of a regex built by `regex::Regex::new`, which is the only way this
/// library builds one.
#[verifier::external_body]
fn regex_is_match(regex: &Regex, text: &str) -> (found: bool)
    ensures
        found == pattern_accepts(regex_source(*regex), text@),
{
    regex.is_match(text)
}

/// Calls `regex::Regex::as_str`. Trusted: it returns the pattern text that
/// the regex was built from.
#[verifier::external_body]
fn regex_as_str(regex: &Regex) -> (text: &str)
    ensures
        text@ == regex_source(*regex),
{
    regex.as_str()
}

/// A pattern ready to be tested against names. Its view is the pattern text.
pub struct CompiledPattern {
    regex: Regex,
}

impl View for CompiledPattern {
    type V = Seq<char>;

    closed spec fn view(&self) -> Seq<char> {
        regex_source(self.regex)
    }
}

impl CompiledPattern {
    /// Compiles `pattern`. Fails with `InvalidPattern`, which carries the
    /// pattern and the complaint, exactly where the pattern does not compile.
    pub fn compile(pattern: &str) -> (r: Result<CompiledPattern, ScanError>)
        ensures
            match r {
                Ok(compiled) => pattern_complaint(pattern@) is None && compiled@ == pattern@,
                Err(e) => pattern_complaint(pattern@) is Some && e@ == (ScanErrorView::InvalidPattern {
                    pattern: pattern@,
                    complaint: pattern_complaint(pattern@).unwrap(),
                }),
            },
    {
        match regex_new(pattern) {
            Ok(regex) => Ok(CompiledPattern { regex }),
            Err(complaint) => Err(
                ScanError::InvalidPattern { pattern: pattern.to_owned(), complaint },
            ),
        }
    }

    /// The pattern text that was compiled.
    pub fn as_str(&self) -> (text: &str)
        ensures
            text@ == self@,
    {
        regex_as_str(&self.regex)
    }

    /// Whether the pattern matches anywhere in `name`.
    pub fn matches(&self, name: &str) -> (found: bool)
        ensures
            found == pattern_accepts(self@, name@),
    {
        regex_is_match(&self.regex, name)
    }
}

} // verus!
