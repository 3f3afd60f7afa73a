//! Case-name patterns. Patterns are regular expressions compiled and
//! matched by the `regex` crate; this module states what the rest of the
//! library relies on from it.

use regex::Regex;
use vstd::prelude::*;

verus! {

/// `regex::Regex`, a compiled expression. Nothing inside it is visible here.
#[verifier::external_type_specification]
#[verifier::external_body]
pub struct ExRegex(regex::Regex);

/// `regex::Error`, the reason why a pattern was turned down. Nothing inside
/// it is visible here.
#[verifier::external_type_specification]
#[verifier::external_body]
pub struct ExRegexError(regex::Error);

/// What `regex::Regex::new` returns for `pattern`: the compiled expression,
/// or the reason the pattern was turned down.
pub uninterp spec fn compiled(pattern: Seq<char>) -> Result<Regex, regex::Error>;

/// What `regex::Regex::is_match` answers for `text`: whether the expression
/// matches somewhere in it.
pub uninterp spec fn found_in(selector: Regex, text: Seq<char>) -> bool;

/// What `regex::Error` displays as.
pub uninterp spec fn shown_error(error: regex::Error) -> Seq<char>;

/// `regex::Regex::new` compiles a pattern, or turns it down with an error.
/// The outcome is decided by the pattern text alone.
pub assume_specification[ Regex::new ](re: &str) -> (outcome: Result<Regex, regex::Error>)
    ensures
        outcome == compiled(re@),
;

/// `regex::Regex::is_match` tells whether the expression matches anywhere in
/// the haystack. The answer is decided by the expression and the haystack
/// alone.
pub assume_specification[ Regex::is_match ](selector: &Regex, haystack: &str) -> (found: bool)
    ensures
        found == found_in(*selector, haystack@),
;

/// The `Display` text of a `regex::Error`.
#[verifier::external_body]
pub(crate) fn error_text(error: &regex::Error) -> (text: String)
    ensures
        text@ == shown_error(*error),
{
    error.to_string()
}

/// Whether a case named `name` passes `selector`: every name passes when
/// there is no selector.
pub open spec fn passes(selector: Option<Regex>, name: Seq<char>) -> bool {
    match selector {
        Some(expression) => found_in(expression, name),
        None => true,
    }
}

/// Tells whether a case named `name` passes `selector`.
pub fn is_selected(selector: &Option<Regex>, name: &str) -> (selected: bool)
    ensures
        selected == passes(*selector, name@),
{
    match selector {
        Some(expression) => expression.is_match(name),
        None => true,
    }
}

} // verus!
