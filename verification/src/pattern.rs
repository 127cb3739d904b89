//! Regular expressions, as the crate `regex` reads them. The library asks
//! what a named group holds and works on the answer.

use crate::error::text_of;
use vstd::prelude::*;

verus! {

/// What the group `group` holds in the leftmost match of the regular
/// expression `pattern` in `text`, as the crate `regex` finds it: nothing
/// where the pattern is not valid, where it does not match, or where the
/// group took no part in the match.
pub uninterp spec fn regex_capture(pattern: Seq<char>, group: Seq<char>, text: Seq<char>) -> Option<
    Seq<char>,
>;

/// Calls `regex::Regex::new` on the pattern and, on the expression that
/// it gives, `captures` on the text and `name` on the match.
#[verifier::external_body]
pub(crate) fn capture(pattern: &str, group: &str, text: &str) -> (found: Option<String>)
    ensures
        text_of(found) == regex_capture(pattern@, group@, text@),
{
    let expression = regex::Regex::new(pattern).ok()?;
    let found = expression.captures(text)?.name(group)?;
    Some(found.as_str().to_owned())
}

/// What the group `group` holds in each of the successive matches of the
/// regular expression `pattern` in `text`, in their order, as the crate
/// `regex` finds them: one entry for each match, which is nothing where
/// the group took no part in it; no entry where the pattern is not valid.
pub uninterp spec fn regex_captures_all(
    pattern: Seq<char>,
    group: Seq<char>,
    text: Seq<char>,
) -> Seq<Option<Seq<char>>>;

/// The texts of a list of optional strings.
pub open spec fn texts_of(found: Seq<Option<String>>) -> Seq<Option<Seq<char>>> {
    Seq::new(found.len(), |i: int| text_of(found[i]))
}

/// Calls `regex::Regex::new` on the pattern and, on the expression that
/// it gives, `captures_iter` on the text and `name` on each match.
#[verifier::external_body]
pub(crate) fn captures_all(pattern: &str, group: &str, text: &str) -> (found: Vec<Option<String>>)
    ensures
        texts_of(found@) == regex_captures_all(pattern@, group@, text@),
{
    let mut found = Vec::new();
    if let Ok(expression) = regex::Regex::new(pattern) {
        for captures in expression.captures_iter(text) {
            found.push(captures.name(group).map(|m| m.as_str().to_owned()));
        }
    }
    found
}

} // verus!
