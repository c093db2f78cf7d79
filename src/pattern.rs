//! Field extraction by regular expression, through the `regex` crate.
use vstd::prelude::*;

verus! {

/// The text that capture group `group` of the regular expression `pattern`
/// holds at its leftmost-first match in `text`; `None` when the pattern does
/// not compile, nothing matches, or the group took no part in the match.
pub uninterp spec fn regex_group(pattern: Seq<char>, text: Seq<char>, group: nat) -> Option<
    Seq<char>,
>;

/// Relies on `regex::Regex::new` (an invalid pattern is an `Err`, never a panic)
/// and `regex::Regex::captures` with `Captures::get`: the text of one group at
/// the first match.
#[verifier::external_body]
pub(crate) fn capture(pattern: &str, text: &str, group: usize) -> (r: Option<String>)
    ensures
        r matches Some(g) ==> regex_group(pattern@, text@, group as nat) == Some(g@),
        r is None <==> regex_group(pattern@, text@, group as nat) is None,
{
    match regex::Regex::new(pattern) {
        Ok(re) => re.captures(text).and_then(|c| c.get(group)).map(|m| m.as_str().to_string()),
        Err(_) => None,
    }
}

} // verus!
