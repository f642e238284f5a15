//! Selecting text in HTML. The parsing and the matching of CSS selectors are
//! the work of the `scraper` crate; this module hands its findings on as
//! plain nested vectors.

use vstd::prelude::*;

verus! {

/// What `scraper` finds in `fragment`, parsed as an HTML fragment: for each
/// element that `selector` matches, in the order in which `scraper` yields
/// them, the text nodes below that element. `None` where `selector` is not a
/// selector that `scraper` accepts.
pub uninterp spec fn fragment_matches(fragment: Seq<char>, selector: Seq<char>) -> Option<
    Seq<Seq<Seq<char>>>,
>;

/// What `scraper` finds in `document`, parsed as a whole HTML document: for
/// each element that `outer` matches, in the order in which `scraper` yields
/// them, and for each selector of `inner`, in the order given, the
/// descendants of that element which the selector matches, each with the
/// text nodes below it. `None` where one of the selectors is not a selector
/// that `scraper` accepts.
pub uninterp spec fn document_matches(
    document: Seq<char>,
    outer: Seq<char>,
    inner: Seq<Seq<char>>,
) -> Option<Seq<Seq<Seq<Seq<Seq<char>>>>>>;

/// Runs `scraper::Html::parse_fragment` on `fragment` and
/// `scraper::Html::select` with `selector` on the tree, and copies out what
/// `scraper::ElementRef::text` yields for each match. Nothing is claimed of
/// the result but that it is the value named [`fragment_matches`].
#[verifier::external_body]
pub(crate) fn select_in_fragment(fragment: &str, selector: &str) -> (r: Option<Vec<Vec<String>>>)
    ensures
        r.deep_view() == fragment_matches(fragment@, selector@),
{
    let chosen = scraper::Selector::parse(selector).ok()?;
    let tree = scraper::Html::parse_fragment(fragment);
    Some(tree.select(&chosen).map(|node| node.text().map(|t| t.to_string()).collect()).collect())
}

/// Runs `scraper::Html::parse_document` on `document`,
/// `scraper::Html::select` with `outer` on the tree and
/// `scraper::ElementRef::select` with each selector of `inner` on each match,
/// and copies out what `scraper::ElementRef::text` yields. The result is the
/// value named [`document_matches`].
#[verifier::external_body]
pub(crate) fn select_in_document(document: &str, outer: &str, inner: &Vec<String>) -> (r: Option<
    Vec<Vec<Vec<Vec<String>>>>,
>)
    ensures
        r.deep_view() == document_matches(document@, outer@, inner.deep_view()),
{
    let outer = scraper::Selector::parse(outer).ok()?;
    let mut within = Vec::new();
    for selector in inner {
        within.push(scraper::Selector::parse(selector).ok()?);
    }
    let tree = scraper::Html::parse_document(document);
    Some(tree.select(&outer).map(|block| within.iter().map(|s|
        block.select(s).map(|node| node.text().map(|t| t.to_string()).collect()).collect()
    ).collect()).collect())
}

} // verus!
