//! What holds of every adapter run, whatever the sites answer.

use crate::crawlers::asaka_crawler::{
    item_members, list_key, listing_drafts, row_draft, rows_drafts, detail_rate, DraftView,
};
use crate::crawlers::asia_alliance_crawler::{
    block_offer, blocks_offers, offer_selector, param_selector, title_selector,
};
use crate::crawlers::credit::CreditView;
use crate::crawlers::error::CrawlErrorView;
use crate::crawlers::markup::document_matches;
use crate::crawlers::payload::json_table;
use crate::crawlers::text_helpers::credit_type_of;
use crate::crawlers::session::{
    advance, initial, is_success, outcome, proceed, with_rate, CrawlView, ReplyView, Source,
    StepView,
};
use vstd::prelude::*;

verus! {

/// The number of items that the listing in `body` shows; `None` where the
/// body is no listing of the site.
pub open spec fn item_count(source: Source, body: Seq<char>) -> Option<nat> {
    match source {
        Source::Asaka => match json_table(body, list_key(), item_members()) {
            Some(rows) => Some(rows.len()),
            None => None,
        },
        Source::AsiaAlliance => match document_matches(
            body,
            offer_selector(),
            seq![title_selector(), param_selector()],
        ) {
            Some(blocks) => Some(blocks.len()),
            None => None,
        },
    }
}

/// Whether `reply` is a successful answer whose body names a rate, and
/// `offer` is the draft's offer with that rate.
pub open spec fn fills(reply: ReplyView, draft: DraftView, offer: CreditView) -> bool {
    match reply {
        ReplyView::Response { status, body } => is_success(status) && match detail_rate(body) {
            Ok(rate) => offer == with_rate(draft.offer, rate),
            Err(_) => false,
        },
        ReplyView::Unreadable { .. } => false,
        ReplyView::Failure { .. } => false,
    }
}

/// Where all rows of a listing give a draft, there is one draft per row, in
/// the rows' order.
pub proof fn lemma_one_draft_per_row(rows: Seq<Seq<(Option<Seq<char>>, Option<Seq<char>>)>>)
    requires
        rows_drafts(rows) is Ok,
    ensures
        rows_drafts(rows)->Ok_0.len() == rows.len(),
        forall|i: int|
            0 <= i < rows.len() ==> row_draft(#[trigger] rows[i]) == Ok::<
                DraftView,
                CrawlErrorView,
            >(rows_drafts(rows)->Ok_0[i]),
    decreases rows.len(),
{
    if rows.len() > 0 {
        lemma_one_draft_per_row(rows.drop_last());
        let before = rows_drafts(rows.drop_last())->Ok_0;
        assert forall|i: int| 0 <= i < rows.len() implies row_draft(#[trigger] rows[i]) == Ok::<
            DraftView,
            CrawlErrorView,
        >(rows_drafts(rows)->Ok_0[i]) by {
            if i < rows.len() - 1 {
                assert(rows.drop_last()[i] == rows[i]);
            }
        }
    }
}

/// Where all elements of a page give an offer, there is one offer per
/// element, in the elements' order.
pub proof fn lemma_one_offer_per_block(blocks: Seq<Seq<Seq<Seq<Seq<char>>>>>)
    requires
        blocks_offers(blocks) is Ok,
    ensures
        blocks_offers(blocks)->Ok_0.len() == blocks.len(),
        forall|i: int|
            0 <= i < blocks.len() ==> block_offer(#[trigger] blocks[i]) == Ok::<
                CreditView,
                CrawlErrorView,
            >(blocks_offers(blocks)->Ok_0[i]),
    decreases blocks.len(),
{
    if blocks.len() > 0 {
        lemma_one_offer_per_block(blocks.drop_last());
        assert forall|i: int| 0 <= i < blocks.len() implies block_offer(#[trigger] blocks[i])
            == Ok::<CreditView, CrawlErrorView>(blocks_offers(blocks)->Ok_0[i]) by {
            if i < blocks.len() - 1 {
                assert(blocks.drop_last()[i] == blocks[i]);
            }
        }
    }
}

/// A run that has read its listing and ends with offers ends with the offers
/// it had and, after them, one offer per waiting draft, in their order, each
/// with the rate of the reply that came for it.
pub proof fn lemma_details_in_order(crawl: CrawlView, replies: Seq<ReplyView>)
    requires
        crawl.source == Source::Asaka,
        crawl.listed,
        crawl.waiting.len() > 0,
        outcome(crawl, replies) matches Some(Ok(_)),
    ensures
        replies.len() >= crawl.waiting.len(),
        ({
            let offers = outcome(crawl, replies)->Some_0->Ok_0;
            &&& offers.len() == crawl.done.len() + crawl.waiting.len()
            &&& forall|i: int| 0 <= i < crawl.done.len() ==> #[trigger] offers[i] == crawl.done[i]
            &&& forall|j: int|
                0 <= j < crawl.waiting.len() ==> fills(
                    replies[j],
                    #[trigger] crawl.waiting[j],
                    offers[crawl.done.len() + j],
                )
        }),
    decreases replies.len(),
{
    let offers = outcome(crawl, replies)->Some_0->Ok_0;
    let reply = replies[0];
    let rate = detail_rate(reply->Response_body)->Ok_0;
    let next = CrawlView {
        done: crawl.done.push(with_rate(crawl.waiting[0].offer, rate)),
        waiting: crawl.waiting.drop_first(),
        ..crawl
    };
    assert(advance(crawl, reply) == proceed(next));
    if next.waiting.len() > 0 {
        let rest = replies.drop_first();
        assert(outcome(crawl, replies) == outcome(next, rest));
        lemma_details_in_order(next, rest);
        assert forall|i: int| 0 <= i < crawl.done.len() implies #[trigger] offers[i]
            == crawl.done[i] by {
            assert(next.done[i] == crawl.done[i]);
        }
        assert forall|j: int| 0 <= j < crawl.waiting.len() implies fills(
            replies[j],
            #[trigger] crawl.waiting[j],
            offers[crawl.done.len() + j],
        ) by {
            if j == 0 {
                assert(offers[crawl.done.len() as int] == next.done[crawl.done.len() as int]);
            } else {
                assert(next.waiting[j - 1] == crawl.waiting[j]);
                assert(rest[j - 1] == replies[j]);
                assert(fills(rest[j - 1], next.waiting[j - 1], offers[next.done.len() + (j - 1)]));
            }
        }
    } else {
        assert(offers == next.done);
    }
}

/// A successful run on Asaka yields exactly one offer for each item of the
/// listing, in the order of the items: offer `i` is the draft of row `i` with
/// the rate named by the reply to the `i`-th detail request.
pub proof fn lemma_asaka_one_offer_per_item(base: Seq<char>, replies: Seq<ReplyView>)
    requires
        outcome(initial(Source::Asaka, base), replies) matches Some(Ok(_)),
    ensures
        replies.len() > 0,
        replies[0] is Response,
        ({
            let offers = outcome(initial(Source::Asaka, base), replies)->Some_0->Ok_0;
            let body = replies[0]->Response_body;
            &&& json_table(body, list_key(), item_members()) matches Some(rows)
            &&& offers.len() == rows.len()
            &&& replies.len() > rows.len()
            &&& forall|i: int|
                0 <= i < rows.len() ==> row_draft(#[trigger] rows[i]) is Ok && fills(
                    replies[i + 1],
                    row_draft(rows[i])->Ok_0,
                    offers[i],
                )
        }),
{
    let start = initial(Source::Asaka, base);
    let offers = outcome(start, replies)->Some_0->Ok_0;
    let body = replies[0]->Response_body;
    let rows = json_table(body, list_key(), item_members())->Some_0;
    let drafts = listing_drafts(body)->Ok_0;
    lemma_one_draft_per_row(rows);
    let listed = CrawlView { listed: true, done: Seq::empty(), waiting: drafts, ..start };
    assert(advance(start, replies[0]) == proceed(listed));
    if drafts.len() > 0 {
        let rest = replies.drop_first();
        assert(outcome(start, replies) == outcome(listed, rest));
        lemma_details_in_order(listed, rest);
        assert forall|i: int| 0 <= i < rows.len() implies row_draft(#[trigger] rows[i]) is Ok
            && fills(replies[i + 1], row_draft(rows[i])->Ok_0, offers[i]) by {
            assert(rest[i] == replies[i + 1]);
            assert(fills(rest[i], listed.waiting[i], offers[listed.done.len() + i]));
        }
    }
}

/// A successful run on Asia Alliance yields exactly one offer for each
/// offer element of the page, in the order of the elements.
pub proof fn lemma_asia_alliance_one_offer_per_item(base: Seq<char>, replies: Seq<ReplyView>)
    requires
        outcome(initial(Source::AsiaAlliance, base), replies) matches Some(Ok(_)),
    ensures
        replies.len() > 0,
        replies[0] is Response,
        ({
            let offers = outcome(initial(Source::AsiaAlliance, base), replies)->Some_0->Ok_0;
            let body = replies[0]->Response_body;
            &&& document_matches(body, offer_selector(), seq![title_selector(), param_selector()])
                matches Some(blocks)
            &&& offers.len() == blocks.len()
            &&& forall|i: int|
                0 <= i < blocks.len() ==> block_offer(#[trigger] blocks[i]) == Ok::<
                    CreditView,
                    CrawlErrorView,
                >(offers[i])
        }),
{
    let body = replies[0]->Response_body;
    let blocks = document_matches(
        body,
        offer_selector(),
        seq![title_selector(), param_selector()],
    )->Some_0;
    lemma_one_offer_per_block(blocks);
}

/// A successful run yields as many offers as its listing shows items.
pub proof fn lemma_one_offer_per_item(source: Source, base: Seq<char>, replies: Seq<ReplyView>)
    requires
        outcome(initial(source, base), replies) matches Some(Ok(_)),
    ensures
        replies.len() > 0,
        replies[0] is Response,
        item_count(source, replies[0]->Response_body) == Some(
            outcome(initial(source, base), replies)->Some_0->Ok_0.len(),
        ),
{
    match source {
        Source::Asaka => lemma_asaka_one_offer_per_item(base, replies),
        Source::AsiaAlliance => lemma_asia_alliance_one_offer_per_item(base, replies),
    }
}

/// Whether an offer is as every adapter leaves it: it has a title, its
/// category is the one its title is classified as, and beside the title, the
/// category, the rate, the term and the sum everything is blank.
pub open spec fn is_canonical(offer: CreditView) -> bool {
    &&& offer.title.len() > 0
    &&& offer.credit_type == credit_type_of(offer.title)
    &&& offer == (CreditView {
        title: offer.title,
        credit_type: offer.credit_type,
        interest_rate: offer.interest_rate,
        credit_period: offer.credit_period,
        max_sum: offer.max_sum,
        ..CreditView::blank()
    })
}

/// Every offer of a successful run has a title that is not empty, the
/// category of its title, and blank extended attributes.
pub proof fn lemma_offers_are_canonical(source: Source, base: Seq<char>, replies: Seq<ReplyView>)
    requires
        outcome(initial(source, base), replies) matches Some(Ok(_)),
    ensures
        forall|i: int|
            0 <= i < outcome(initial(source, base), replies)->Some_0->Ok_0.len() ==> is_canonical(
                #[trigger] outcome(initial(source, base), replies)->Some_0->Ok_0[i],
            ),
{
    let offers = outcome(initial(source, base), replies)->Some_0->Ok_0;
    let body = replies[0]->Response_body;
    match source {
        Source::Asaka => {
            lemma_asaka_one_offer_per_item(base, replies);
            let rows = json_table(body, list_key(), item_members())->Some_0;
            assert forall|i: int| 0 <= i < offers.len() implies is_canonical(
                #[trigger] offers[i],
            ) by {
                assert(row_draft(rows[i]) is Ok);
                assert(fills(replies[i + 1], row_draft(rows[i])->Ok_0, offers[i]));
            }
        },
        Source::AsiaAlliance => {
            lemma_asia_alliance_one_offer_per_item(base, replies);
            let blocks = document_matches(
                body,
                offer_selector(),
                seq![title_selector(), param_selector()],
            )->Some_0;
            assert forall|i: int| 0 <= i < offers.len() implies is_canonical(
                #[trigger] offers[i],
            ) by {
                assert(block_offer(blocks[i]) == Ok::<CreditView, CrawlErrorView>(offers[i]));
            }
        },
    }
}

/// A reply that is no success ends the run at once with an error, so that no
/// offer comes out of it: a failed request as a network error, a status
/// outside 200..=299 as that status, a body that is no text as a decode
/// error.
pub proof fn lemma_bad_reply_fails(crawl: CrawlView, reply: ReplyView, later: Seq<ReplyView>)
    requires
        reply matches ReplyView::Response { status, .. } ==> !is_success(status),
    ensures
        advance(crawl, reply) is Failed,
        outcome(crawl, seq![reply] + later) matches Some(Err(_)),
        reply matches ReplyView::Response { status, .. } ==> advance(crawl, reply)
            == (StepView::Failed { error: CrawlErrorView::UnexpectedStatus { status } }),
        reply matches ReplyView::Unreadable { status } ==> advance(crawl, reply)
            == (StepView::Failed {
            error: if is_success(status) {
                CrawlErrorView::DecodeError
            } else {
                CrawlErrorView::UnexpectedStatus { status }
            },
        }),
        reply matches ReplyView::Failure { reason } ==> advance(crawl, reply) == (StepView::Failed {
            error: CrawlErrorView::NetworkError { reason },
        }),
{
    assert((seq![reply] + later)[0] == reply);
}

} // verus!
