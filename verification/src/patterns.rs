//! Regular expressions. The matching is the work of the `fancy_regex` crate,
//! for patterns with look-around, and of the `regex` crate; this module hands
//! what they find on as plain texts.

use vstd::prelude::*;

verus! {

/// What `fancy_regex` finds when it searches `text` for `pattern`: the
/// matches that do not overlap, from left to right, and of each match its
/// groups in the order of their opening brackets, group 0 being the whole
/// match and a group that took no part being `None`. A search that gives up
/// ends the list. `None` as a whole where `pattern` does not compile.
pub uninterp spec fn regex_captures(pattern: Seq<char>, text: Seq<char>) -> Option<
    Seq<Seq<Option<Seq<char>>>>,
>;

/// The matches of `pattern` in `text` that do not overlap, from left to
/// right, as `fancy_regex` finds them. `None` where `pattern` does not
/// compile or a search gives up.
pub uninterp spec fn regex_matches(pattern: Seq<char>, text: Seq<char>) -> Option<Seq<Seq<char>>>;

/// Whether `fancy_regex` finds `pattern` somewhere in `text`. `None` where
/// `pattern` does not compile or the search gives up.
pub uninterp spec fn regex_is_match(pattern: Seq<char>, text: Seq<char>) -> Option<bool>;

/// Compiles `pattern` with `fancy_regex::Regex::new`, runs
/// `Regex::captures_iter` on `text` and copies out the groups of every match
/// that `Captures::iter` yields. The result is the value named
/// [`regex_captures`].
#[verifier::external_body]
pub(crate) fn find_captures(pattern: &str, text: &str) -> (r: Option<Vec<Vec<Option<String>>>>)
    ensures
        r.deep_view() == regex_captures(pattern@, text@),
{
    let regex = fancy_regex::Regex::new(pattern).ok()?;
    Some(regex.captures_iter(text).filter_map(|found| found.ok()).map(|groups|
        groups.iter().map(|group| group.map(|m| m.as_str().to_string())).collect()
    ).collect())
}

/// Compiles `pattern` with `fancy_regex::Regex::new`, runs `Regex::find_iter`
/// on `text` and copies out every match. The result is the value named
/// [`regex_matches`].
#[verifier::external_body]
pub(crate) fn find_matches(pattern: &str, text: &str) -> (r: Option<Vec<String>>)
    ensures
        r.deep_view() == regex_matches(pattern@, text@),
{
    let regex = fancy_regex::Regex::new(pattern).ok()?;
    let found: Result<Vec<String>, fancy_regex::Error> =
        regex.find_iter(text).map(|m| m.map(|m| m.as_str().to_string())).collect();
    found.ok()
}

/// Compiles `pattern` with `fancy_regex::Regex::new` and runs
/// `Regex::is_match` on `text`. The result is the value named
/// [`regex_is_match`].
#[verifier::external_body]
pub(crate) fn is_match(pattern: &str, text: &str) -> (r: Option<bool>)
    ensures
        r == regex_is_match(pattern@, text@),
{
    fancy_regex::Regex::new(pattern).ok()?.is_match(text).ok()
}

/// What the group called `group` holds in the first match that `regex` finds
/// of `pattern` in `text`. `None` where `pattern` does not compile, where it
/// matches nowhere, or where the match has no such group.
pub uninterp spec fn regex_named_capture(
    pattern: Seq<char>,
    text: Seq<char>,
    group: Seq<char>,
) -> Option<Seq<char>>;

/// `text` with every match that `regex` finds of `pattern`, from left to
/// right and without overlap, replaced by `replacement`, in which `$` refers
/// to groups. `None` where `pattern` does not compile.
pub uninterp spec fn regex_replaced(
    pattern: Seq<char>,
    text: Seq<char>,
    replacement: Seq<char>,
) -> Option<Seq<char>>;

/// Compiles `pattern` with `regex::Regex::new`, runs `Regex::captures` on
/// `text` and copies out what `Captures::name` finds for `group`. The result
/// is the value named [`regex_named_capture`].
#[verifier::external_body]
pub(crate) fn capture_named(pattern: &str, text: &str, group: &str) -> (r: Option<String>)
    ensures
        r.deep_view() == regex_named_capture(pattern@, text@, group@),
{
    let regex = regex::Regex::new(pattern).ok()?;
    regex.captures(text)?.name(group).map(|m| m.as_str().to_string())
}

/// Compiles `pattern` with `regex::Regex::new` and runs `Regex::replace_all`
/// on `text` with `replacement`. The result is the value named
/// [`regex_replaced`].
#[verifier::external_body]
pub(crate) fn replace_all(pattern: &str, text: &str, replacement: &str) -> (r: Option<String>)
    ensures
        r.deep_view() == regex_replaced(pattern@, text@, replacement@),
{
    let regex = regex::Regex::new(pattern).ok()?;
    Some(regex.replace_all(text, replacement).into_owned())
}

} // verus!
