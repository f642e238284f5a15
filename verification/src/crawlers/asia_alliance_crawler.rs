//! The adapter for the crediting page of Asia Alliance Bank: one HTML
//! document, one offer per `.element--crediting` element.

use crate::crawlers::credit::{Credit, CreditView};
use crate::crawlers::error::{CrawlError, CrawlErrorView};
use crate::crawlers::markup::{document_matches, select_in_document};
use crate::crawlers::text_helpers::{clean_text, cleaned, credit_type_of, find_credit_type};
use vstd::prelude::*;
use vstd::string::StringExecFns;

verus! {

/// The selector of one offer.
pub open spec fn offer_selector() -> Seq<char> {
    ".element--crediting"@
}

/// The selector of an offer's title, below the offer.
pub open spec fn title_selector() -> Seq<char> {
    ".element__title"@
}

/// The selector of an offer's parameters, below the offer.
pub open spec fn param_selector() -> Seq<char> {
    ".element__params .element__param"@
}

/// The name under which a missing title is reported.
pub open spec fn title_field() -> Seq<char> {
    "title"@
}

/// The text of node `k` of `nodes`; empty where there is no such node.
pub open spec fn node_text(nodes: Seq<Seq<Seq<char>>>, k: int) -> Seq<char> {
    if 0 <= k < nodes.len() {
        cleaned(nodes[k])
    } else {
        Seq::empty()
    }
}

/// The offer that one element of the page stands for. `block[0]` holds the
/// nodes that the title selector matched, `block[1]` those that the parameter
/// selector matched. The first three parameters are the rate, the term and the
/// sum, in that order; further ones are not read. An element without a title
/// node, or with a title that is empty once cleaned, is a missing field.
pub open spec fn block_offer(block: Seq<Seq<Seq<Seq<char>>>>) -> Result<CreditView, CrawlErrorView> {
    if block.len() == 0 || block[0].len() == 0 || cleaned(block[0][0]).len() == 0 {
        Err(CrawlErrorView::MissingField { field: title_field() })
    } else {
        let title = cleaned(block[0][0]);
        let params = if block.len() > 1 {
            block[1]
        } else {
            Seq::empty()
        };
        Ok(
            CreditView {
                title: title,
                credit_type: credit_type_of(title),
                interest_rate: node_text(params, 0),
                credit_period: node_text(params, 1),
                max_sum: node_text(params, 2),
                ..CreditView::blank()
            },
        )
    }
}

/// The offers of a page, one per element and in the elements' order; the
/// error of the first element that has one.
pub open spec fn blocks_offers(blocks: Seq<Seq<Seq<Seq<Seq<char>>>>>) -> Result<
    Seq<CreditView>,
    CrawlErrorView,
>
    decreases blocks.len(),
{
    if blocks.len() == 0 {
        Ok(Seq::empty())
    } else {
        match blocks_offers(blocks.drop_last()) {
            Err(e) => Err(e),
            Ok(before) => match block_offer(blocks.last()) {
                Err(e) => Err(e),
                Ok(offer) => Ok(before.push(offer)),
            },
        }
    }
}

/// The offers that the body of the crediting page holds.
pub open spec fn asia_alliance_offers(body: Seq<char>) -> Result<Seq<CreditView>, CrawlErrorView> {
    match document_matches(body, offer_selector(), seq![title_selector(), param_selector()]) {
        None => Err(CrawlErrorView::DecodeError),
        Some(blocks) => blocks_offers(blocks),
    }
}

/// The views of a result that holds one offer.
pub open spec fn offer_outcome(r: Result<Credit, CrawlError>) -> Result<CreditView, CrawlErrorView> {
    match r {
        Ok(offer) => Ok(offer@),
        Err(e) => Err(e@),
    }
}

/// The views of a result that holds a list of offers.
pub open spec fn offers_outcome(r: Result<Vec<Credit>, CrawlError>) -> Result<
    Seq<CreditView>,
    CrawlErrorView,
> {
    match r {
        Ok(offers) => Ok(offers.deep_view()),
        Err(e) => Err(e@),
    }
}

/// The cleaned text of node `k`, or the empty text.
pub fn text_of_node(nodes: &Vec<Vec<String>>, k: usize) -> (r: String)
    ensures
        r@ == node_text(nodes.deep_view(), k as int),
{
    if k < nodes.len() {
        clean_text(&nodes[k])
    } else {
        String::new()
    }
}

/// Builds the offer of one element from the nodes found below it.
pub fn offer_from_block(block: &Vec<Vec<Vec<String>>>) -> (r: Result<Credit, CrawlError>)
    ensures
        offer_outcome(r) == block_offer(block.deep_view()),
{
    if block.len() == 0 || block[0].len() == 0 {
        return Err(CrawlError::MissingField { field: String::from_str("title") });
    }
    let title = clean_text(&block[0][0]);
    if title.as_str().is_empty() {
        return Err(CrawlError::MissingField { field: String::from_str("title") });
    }
    let mut credit = Credit::new();
    credit.credit_type = find_credit_type(title.as_str());
    credit.title = title;
    if block.len() > 1 {
        credit.interest_rate = text_of_node(&block[1], 0);
        credit.credit_period = text_of_node(&block[1], 1);
        credit.max_sum = text_of_node(&block[1], 2);
    }
    Ok(credit)
}

/// Builds the offers of a page from the nodes found below its elements.
pub fn offers_from_blocks(blocks: &Vec<Vec<Vec<Vec<String>>>>) -> (r: Result<
    Vec<Credit>,
    CrawlError,
>)
    ensures
        offers_outcome(r) == blocks_offers(blocks.deep_view()),
{
    let mut offers: Vec<Credit> = Vec::new();
    let mut i: usize = 0;
    proof {
        assert(offers.deep_view() == Seq::<CreditView>::empty());
    }
    while i < blocks.len()
        invariant
            i <= blocks.len(),
            blocks_offers(blocks.deep_view().take(i as int)) == Ok::<
                Seq<CreditView>,
                CrawlErrorView,
            >(offers.deep_view()),
        decreases blocks.len() - i,
    {
        let ghost seen = blocks.deep_view().take(i + 1);
        proof {
            assert(seen.drop_last() == blocks.deep_view().take(i as int));
            assert(seen.last() == blocks[i as int].deep_view());
        }
        match offer_from_block(&blocks[i]) {
            Err(e) => {
                proof {
                    lemma_error_stays(blocks.deep_view(), i + 1);
                }
                return Err(e);
            },
            Ok(offer) => {
                let ghost before = offers.deep_view();
                offers.push(offer);
                proof {
                    assert(offers.deep_view() == before.push(offer@));
                }
            },
        }
        i = i + 1;
    }
    proof {
        assert(blocks.deep_view().take(blocks.len() as int) == blocks.deep_view());
    }
    Ok(offers)
}

/// Once a prefix of the elements has failed, the whole page fails alike.
pub proof fn lemma_error_stays(blocks: Seq<Seq<Seq<Seq<Seq<char>>>>>, n: int)
    requires
        0 <= n <= blocks.len(),
        blocks_offers(blocks.take(n)) is Err,
    ensures
        blocks_offers(blocks) == blocks_offers(blocks.take(n)),
    decreases blocks.len() - n,
{
    if n < blocks.len() {
        assert(blocks.take(n + 1).drop_last() == blocks.take(n));
        lemma_error_stays(blocks, n + 1);
    } else {
        assert(blocks.take(n) == blocks);
    }
}

/// Reads the offers out of the body of the crediting page.
pub fn parse_asia_alliance(body: &str) -> (r: Result<Vec<Credit>, CrawlError>)
    ensures
        offers_outcome(r) == asia_alliance_offers(body@),
{
    let mut inner: Vec<String> = Vec::new();
    inner.push(String::from_str(".element__title"));
    inner.push(String::from_str(".element__params .element__param"));
    proof {
        assert(inner.deep_view() == seq![title_selector(), param_selector()]);
    }
    match select_in_document(body, ".element--crediting", &inner) {
        None => Err(CrawlError::DecodeError),
        Some(blocks) => offers_from_blocks(&blocks),
    }
}

} // verus!
