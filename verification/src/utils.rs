//! Telling an address from a title.

use vstd::prelude::*;

verus! {

/// Whether the regular expression that `pattern` compiles to matches
/// somewhere in `haystack`; `None` where `pattern` does not compile.
pub uninterp spec fn regex_match(pattern: Seq<char>, haystack: Seq<char>) -> Option<bool>;

/// `s` begins with the scheme `https://`, letter for letter.
pub open spec fn is_url_text(s: Seq<char>) -> bool {
    "https://"@.is_prefix_of(s)
}

/// Compiles `pattern` with `regex::Regex::new` and asks `Regex::is_match` for
/// a match in `haystack`. In general the contract only names the result,
/// which depends on the two texts alone. Of the one pattern `^https://` it
/// says what the call returns: in the syntax of `regex`, `^` stands for the
/// beginning of the haystack and each of the other characters for itself, so
/// the pattern compiles and matches the texts that begin with `https://`.
#[verifier::external_body]
pub(crate) fn regex_is_match(pattern: &str, haystack: &str) -> (found: Option<bool>)
    ensures
        found == regex_match(pattern@, haystack@),
        pattern@ == "^https://"@ ==> found == Some(is_url_text(haystack@)),
{
    match regex::Regex::new(pattern) {
        Ok(re) => Some(re.is_match(haystack)),
        Err(_) => None,
    }
}

/// Whether `param` is an address rather than a title: whether it begins with
/// `https://`. The test is exact: no other scheme counts, nor another case.
pub fn is_url(param: &str) -> (url: bool)
    ensures
        url == is_url_text(param@),
{
    match regex_is_match("^https://", param) {
        Some(found) => found,
        None => false,
    }
}

} // verus!
