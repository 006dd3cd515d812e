//! Regular expressions, as the `regex` crate understands them.

use vstd::prelude::*;

verus! {

/// What searching `haystack` for the regular expression `pattern` comes to:
/// whether there is a match anywhere in it, or the text of the error with
/// which the pattern fails to compile.
pub uninterp spec fn regex_search(pattern: Seq<char>, haystack: Seq<char>) -> Result<
    bool,
    Seq<char>,
>;

/// Compiles `pattern` with `regex::Regex::new` and asks `Regex::is_match`
/// whether `haystack` holds a match. A pattern that does not compile gives
/// the error's own text. The outcome depends on the two texts alone.
#[verifier::external_body]
pub(crate) fn search(pattern: &str, haystack: &str) -> (r: Result<bool, String>)
    ensures
        match r {
            Ok(found) => regex_search(pattern@, haystack@) == Ok::<bool, Seq<char>>(found),
            Err(e) => regex_search(pattern@, haystack@) == Err::<bool, Seq<char>>(e@),
        },
{
    match regex::Regex::new(pattern) {
        Ok(re) => Ok(re.is_match(haystack)),
        Err(e) => Err(e.to_string()),
    }
}

} // verus!
