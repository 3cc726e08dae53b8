//! The asset filter: a regular expression compiled and run by the `regex`
//! crate. What the crate computes is referred to by name; nothing here
//! restates its syntax or its matching rules.

use vstd::prelude::*;

verus! {

/// `regex::Regex`, a compiled expression, carried as an opaque value.
#[verifier::external_type_specification]
#[verifier::external_body]
pub struct ExRegex(regex::Regex);

/// `regex::Error`, the reason why a pattern did not compile, carried as an
/// opaque value.
#[verifier::external_type_specification]
#[verifier::external_body]
pub struct ExRegexError(regex::Error);

/// What compiling `pattern` with the crate's default settings gives: the
/// compiled expression, or the reason why there is none.
pub uninterp spec fn compiled_pattern(pattern: Seq<char>) -> Result<regex::Regex, regex::Error>;

/// Whether the compiled expression `filter` finds a match anywhere in
/// `text`. The answer belongs to the expression as it was compiled, not to
/// the pattern text it came from: the same text compiled under other
/// settings may answer otherwise.
pub uninterp spec fn regex_accepts(filter: regex::Regex, text: Seq<char>) -> bool;

/// The explanation that `error` gives of itself.
pub uninterp spec fn regex_error_text(error: regex::Error) -> Seq<char>;

/// Whether `pattern` compiles.
pub open spec fn pattern_compiles(pattern: Seq<char>) -> bool {
    compiled_pattern(pattern) is Ok
}

/// Calls `regex::Regex::new`, which compiles with the default settings:
/// the outcome is the one that belongs to the pattern text.
#[verifier::external_body]
pub(crate) fn compile_pattern(pattern: &str) -> (compiled: Result<regex::Regex, regex::Error>)
    ensures
        compiled == compiled_pattern(pattern@),
{
    regex::Regex::new(pattern)
}

/// Calls `regex::Regex::is_match`: the answer is that of this compiled
/// expression on `text`.
#[verifier::external_body]
pub(crate) fn filter_accepts(filter: &regex::Regex, text: &str) -> (accepted: bool)
    ensures
        accepted == regex_accepts(*filter, text@),
{
    filter.is_match(text)
}

/// Calls the `Display` impl of `regex::Error` through `to_string`: the text
/// is the error's own explanation.
#[verifier::external_body]
pub(crate) fn describe_pattern_error(error: &regex::Error) -> (text: String)
    ensures
        text@ == regex_error_text(*error),
{
    error.to_string()
}

} // verus!
