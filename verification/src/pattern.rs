//! Searching a text with a regular expression.

use vstd::prelude::*;
use vstd::string::*;

verus! {

/// `regex::Error`, the report of a pattern that does not compile. It is
/// carried through; nothing is known of what it holds.
#[verifier::external_type_specification]
#[verifier::external_body]
pub struct ExRegexError(regex::Error);

/// What the leftmost match of the regular expression `pattern` in `text`
/// captures in its group of index `group`: the result of compiling the
/// pattern, searching the text and taking the group, as one.
///
/// `None` where `pattern` is no regular expression; `Some(None)` where it
/// matches nowhere in `text`, or matches without that group taking part;
/// else the text that the group took.
pub uninterp spec fn group_capture(pattern: Seq<char>, text: Seq<char>, group: nat) -> Option<
    Option<Seq<char>>,
>;

/// Compiles `pattern` with `regex::Regex::new`, searches `text` with
/// `Regex::captures`, takes the group with `Captures::get` and its text
/// with `Match::as_str`. The one name `group_capture` stands for this
/// whole chain, which is a function of the pattern, the text and the
/// group's index alone. The contract only names what was found: how a
/// pattern matches is not stated here. A pattern that does not compile
/// gives the crate's error.
#[verifier::external_body]
pub(crate) fn capture_group(pattern: &str, text: &str, group: usize) -> (r: Result<
    Option<String>,
    regex::Error,
>)
    ensures
        match r {
            Ok(Some(found)) => group_capture(pattern@, text@, group as nat) == Some(Some(found@)),
            Ok(None) => group_capture(pattern@, text@, group as nat) == Some(None::<Seq<char>>),
            Err(_) => group_capture(pattern@, text@, group as nat) is None,
        },
{
    let compiled = regex::Regex::new(pattern)?;
    match compiled.captures(text) {
        Some(found) => match found.get(group) {
            Some(part) => Ok(Some(part.as_str().to_string())),
            None => Ok(None),
        },
        None => Ok(None),
    }
}

} // verus!
