//! Regular expressions. Compiling an expression and applying it to a line is
//! the work of the `regex` crate; this module states what the rest of the
//! library relies on and checks texts against forbidden characters.

use crate::error::{viewed, ScanError, ScanFailure};
use regex::Regex;
use vstd::prelude::*;
use vstd::string::StringExecFns;

verus! {

/// `regex::Regex`, a compiled expression. Nothing of its inside is known
/// here; what is known of one is what the functions below say.
#[verifier::external_type_specification]
#[verifier::external_body]
pub struct ExRegex(Regex);

/// The message with which `regex::Regex::new` refuses `pattern`; `None` where
/// it compiles the pattern.
pub uninterp spec fn regex_failure(pattern: Seq<char>) -> Option<Seq<char>>;

/// The pattern from which `regex::Regex::new` compiled `re`; `None` for an
/// expression that was built in another way, with options of its own.
pub uninterp spec fn regex_source(re: Regex) -> Option<Seq<char>>;

/// Whether the expression that `regex::Regex::new` compiles from `pattern` has
/// a match anywhere in `line`, as `regex::Regex::is_match` tells it.
pub uninterp spec fn regex_matches(pattern: Seq<char>, line: Seq<char>) -> bool;

/// The text of the first match in `line` of the expression that
/// `regex::Regex::new` compiles from `pattern`, as `regex::Regex::find` gives
/// it; `None` where `find` finds no match.
pub uninterp spec fn regex_first_match(pattern: Seq<char>, line: Seq<char>) -> Option<Seq<char>>;

/// Calls `regex::Regex::new`. Of a success the contract says that the pattern
/// has no failure and that the expression remembers it as its source; of an
/// error, that the error's text is the pattern's failure.
#[verifier::external_body]
pub(crate) fn regex_compile(pattern: &str) -> (r: Result<Regex, String>)
    ensures
        match r {
            Ok(re) => regex_failure(pattern@) is None && regex_source(re) == Some(pattern@),
            Err(reason) => regex_failure(pattern@) == Some(reason@),
        },
{
    match Regex::new(pattern) {
        Ok(re) => Ok(re),
        Err(e) => Err(e.to_string()),
    }
}

/// Calls `regex::Regex::is_match` on an expression that `regex_compile` made.
/// The contract only names the result: it depends on the pattern and the line
/// alone.
#[verifier::external_body]
pub(crate) fn regex_is_match(re: &Regex, line: &str) -> (found: bool)
    requires
        regex_source(*re) is Some,
    ensures
        found == regex_matches(regex_source(*re)->0, line@),
{
    re.is_match(line)
}

/// Calls `regex::Regex::find` on an expression that `regex_compile` made and
/// copies the matched text out. The contract only names the result.
#[verifier::external_body]
pub(crate) fn regex_find(re: &Regex, line: &str) -> (r: Option<String>)
    requires
        regex_source(*re) is Some,
    ensures
        match r {
            Some(text) => regex_first_match(regex_source(*re)->0, line@) == Some(text@),
            None => regex_first_match(regex_source(*re)->0, line@) is None,
        },
{
    match re.find(line) {
        Some(m) => Some(m.as_str().to_owned()),
        None => None,
    }
}

/// The failure that compiling `pattern` is reported with, if it has one.
pub open spec fn invalid_pattern(pattern: Seq<char>) -> Option<ScanFailure> {
    match regex_failure(pattern) {
        Some(reason) => Some(ScanFailure::InvalidPattern { pattern, reason }),
        None => None,
    }
}

/// Compiles `pattern`, or says why the regex engine refuses it.
pub(crate) fn compile(pattern: &str) -> (r: Result<Regex, ScanError>)
    ensures
        match r {
            Ok(re) => invalid_pattern(pattern@) is None && regex_source(re) == Some(pattern@),
            Err(e) => invalid_pattern(pattern@) == Some(e@),
        },
{
    match regex_compile(pattern) {
        Ok(re) => Ok(re),
        Err(reason) => Err(ScanError::InvalidPattern { pattern: String::from_str(pattern), reason }),
    }
}

/// The characters that an argument may not hold: all but letters, digits,
/// `_`, `.` and `-`.
pub open spec fn argument_pattern() -> Seq<char> {
    "[^\\w\\d_\\.-]"@
}

/// What checking a text against a forbidden pattern comes to, given whether
/// the pattern was found in the text.
pub open spec fn forbidden(found: bool, pattern: Seq<char>) -> Result<(), ScanFailure> {
    if found {
        Err(ScanFailure::Forbidden { pattern })
    } else {
        Ok(())
    }
}

/// What `check_str` returns for `text` and `pattern`.
pub open spec fn checked(text: Seq<char>, pattern: Seq<char>) -> Result<(), ScanFailure> {
    match invalid_pattern(pattern) {
        Some(failure) => Err(failure),
        None => forbidden(regex_matches(pattern, text), pattern),
    }
}

/// Accepts a text in which the forbidden pattern was not found.
pub fn forbid(found: bool, pattern: &str) -> (r: Result<(), ScanError>)
    ensures
        viewed(r) == forbidden(found, pattern@),
{
    if found {
        Err(ScanError::Forbidden { pattern: String::from_str(pattern) })
    } else {
        Ok(())
    }
}

/// Accepts `text` unless the regular expression `pattern` matches somewhere in
/// it. A pattern that does not compile is reported as such.
pub fn check_str(text: &str, pattern: &str) -> (r: Result<(), ScanError>)
    ensures
        viewed(r) == checked(text@, pattern@),
{
    match compile(pattern) {
        Ok(re) => forbid(regex_is_match(&re, text), pattern),
        Err(e) => Err(e),
    }
}

/// Accepts `text` if it holds nothing but letters, digits, `_`, `.` and `-`.
pub fn check_arg(text: &str) -> (r: Result<(), ScanError>)
    ensures
        viewed(r) == checked(text@, argument_pattern()),
{
    check_str(text, "[^\\w\\d_\\.-]")
}

} // verus!
