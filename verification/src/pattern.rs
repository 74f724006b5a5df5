//! Regular expressions, compiled and matched by the `regex` crate.
use vstd::prelude::*;

use regex::Regex;

verus! {

/// The text of the error that `Regex::new` gives for a pattern, where it refuses it.
pub uninterp spec fn regex_compile_error(pattern: Seq<char>) -> Option<Seq<char>>;

/// Whether the compiled pattern matches somewhere in the text (`Regex::is_match`).
pub uninterp spec fn regex_is_match(pattern: Seq<char>, text: Seq<char>) -> bool;

/// Compiles a pattern with `Regex::new` and reports the error's text where
/// it is refused. The outcome is named by `regex_compile_error`.
#[verifier::external_body]
pub(crate) fn check_pattern(pattern: &str) -> (res: Result<(), String>)
    ensures
        match regex_compile_error(pattern@) {
            None => res is Ok,
            Some(e) => res matches Err(m) && m@ == e,
        },
{
    match Regex::new(pattern) {
        Ok(_) => Ok(()),
        Err(e) => Err(e.to_string()),
    }
}

/// Whether a pattern that compiles matches somewhere in the text, with
/// `Regex::new` and `Regex::is_match`. The answer is named by `regex_is_match`.
#[verifier::external_body]
pub(crate) fn pattern_matches(pattern: &str, text: &str) -> (res: bool)
    requires
        regex_compile_error(pattern@) is None,
    ensures
        res == regex_is_match(pattern@, text@),
{
    Regex::new(pattern).unwrap().is_match(text)
}

} // verus!
