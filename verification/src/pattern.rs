//! The regular-expression engine at the library's boundary: the compiled
//! pattern type is declared opaque, and what it matches is named, so that
//! the predicate built on it can carry an exact contract.

use vstd::prelude::*;

verus! {

#[verifier::external_type_specification]
#[verifier::external_body]
pub struct ExRegex(regex::Regex);

#[verifier::external_type_specification]
#[verifier::external_body]
pub struct ExRegexError(regex::Error);

/// What `regex::Regex::is_match` returns for a compiled pattern and a
/// haystack: whether the pattern matches anywhere in the text. Like the
/// contents of an opaque collection, this is named over the compiled
/// value itself, since nothing else of it is visible.
pub uninterp spec fn regex_match_of(r: regex::Regex, text: Seq<char>) -> bool;

/// What compiling `pattern` with the given case-insensitivity flag and
/// then matching `text` returns: a function of the three arguments alone.
pub uninterp spec fn regex_lang(pattern: Seq<char>, case_insensitive: bool, text: Seq<char>) -> bool;

/// Relies on `regex::RegexBuilder::new(pattern).case_insensitive(ci).build()`:
/// a compiled pattern's match function is determined by the pattern text
/// and the flag it was built with.
#[verifier::external_body]
pub(crate) fn build_regex(pattern: &str, case_insensitive: bool) -> (r: Result<
    regex::Regex,
    regex::Error,
>)
    ensures
        r matches Ok(re) ==> forall|t: Seq<char>|
            #[trigger] regex_match_of(re, t) == regex_lang(pattern@, case_insensitive, t),
{
    regex::RegexBuilder::new(pattern).case_insensitive(case_insensitive).build()
}

/// Relies on `regex::Regex::is_match`: true if and only if there is a
/// match for the regex anywhere in the haystack.
#[verifier::external_body]
pub(crate) fn regex_is_match(re: &regex::Regex, text: &str) -> (r: bool)
    ensures
        r == regex_match_of(*re, text@),
{
    re.is_match(text)
}

} // verus!
