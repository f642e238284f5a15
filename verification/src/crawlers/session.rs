//! One adapter run as a state machine. The caller performs the requests; the
//! machine decides, from each reply, what is fetched next and when the run
//! ends. A run keeps no state beyond its own value, so runs of several
//! adapters do not touch each other.

use crate::crawlers::asaka_crawler::{
    detail_address, detail_rate, detail_url, listing_address, listing_drafts, listing_url,
    parse_asaka_listing, parse_asaka_rate, Draft, DraftView,
};
use crate::crawlers::asia_alliance_crawler::{asia_alliance_offers, parse_asia_alliance};
use crate::crawlers::credit::{Credit, CreditView};
use crate::crawlers::error::{CrawlError, CrawlErrorView};
use vstd::prelude::*;
use vstd::string::StringExecFns;

verus! {

/// The sites that have an adapter.
#[derive(Debug, Clone, Copy, PartialEq, Eq, Structural)]
pub enum Source {
    Asaka,
    AsiaAlliance,
}

/// What came back for a request.
#[derive(Debug)]
pub enum Reply {
    /// The site answered.
    Response { status: u16, body: String },
    /// The site answered with a body that is no text.
    Unreadable { status: u16 },
    /// No answer could be had.
    Failure { reason: String },
}

/// The mathematical value of a [`Reply`].
pub enum ReplyView {
    Response { status: u16, body: Seq<char> },
    Unreadable { status: u16 },
    Failure { reason: Seq<char> },
}

impl View for Reply {
    type V = ReplyView;

    open spec fn view(&self) -> ReplyView {
        match self {
            Reply::Response { status, body } => ReplyView::Response { status: *status, body: body@ },
            Reply::Unreadable { status } => ReplyView::Unreadable { status: *status },
            Reply::Failure { reason } => ReplyView::Failure { reason: reason@ },
        }
    }
}

/// A run that waits for a reply.
#[derive(Debug)]
pub struct Crawl {
    source: Source,
    base: String,
    listed: bool,
    done: Vec<Credit>,
    waiting: Vec<Draft>,
}

/// The mathematical value of a [`Crawl`]: the site, the address it is read
/// under, whether the listing has been read, the offers that are complete and
/// the drafts whose detail is still to come, both in listing order. The run
/// waits for the detail of the first waiting draft, or for the listing.
pub struct CrawlView {
    pub source: Source,
    pub base: Seq<char>,
    pub listed: bool,
    pub done: Seq<CreditView>,
    pub waiting: Seq<DraftView>,
}

impl View for Crawl {
    type V = CrawlView;

    closed spec fn view(&self) -> CrawlView {
        CrawlView {
            source: self.source,
            base: self.base@,
            listed: self.listed,
            done: self.done.deep_view(),
            waiting: self.waiting.deep_view(),
        }
    }
}

/// What a run asks of its caller next.
#[derive(Debug)]
pub enum Step {
    /// Fetch `url` and hand the reply to `crawl`.
    Fetch { crawl: Crawl, url: String },
    /// The run has ended with these offers, in listing order.
    Done { offers: Vec<Credit> },
    /// The run has ended without offers.
    Failed { error: CrawlError },
}

/// The mathematical value of a [`Step`].
pub enum StepView {
    Fetch { crawl: CrawlView, url: Seq<char> },
    Done { offers: Seq<CreditView> },
    Failed { error: CrawlErrorView },
}

impl View for Step {
    type V = StepView;

    open spec fn view(&self) -> StepView {
        match self {
            Step::Fetch { crawl, url } => StepView::Fetch { crawl: crawl@, url: url@ },
            Step::Done { offers } => StepView::Done { offers: offers.deep_view() },
            Step::Failed { error } => StepView::Failed { error: error@ },
        }
    }
}

/// The address that a site is read under where the caller names no other.
pub open spec fn default_base(source: Source) -> Seq<char> {
    match source {
        Source::Asaka => "https://back.asakabank.uz"@,
        Source::AsiaAlliance => "https://aab.uz/ru/private/crediting/"@,
    }
}

/// The address that a run is read under.
pub open spec fn base_of(source: Source, url: Option<Seq<char>>) -> Seq<char> {
    match url {
        Some(given) => given,
        None => default_base(source),
    }
}

/// A run before its first request.
pub open spec fn initial(source: Source, base: Seq<char>) -> CrawlView {
    CrawlView { source, base, listed: false, done: Seq::empty(), waiting: Seq::empty() }
}

/// The first request of a run.
pub open spec fn first_url(source: Source, base: Seq<char>) -> Seq<char> {
    match source {
        Source::Asaka => listing_url(base),
        Source::AsiaAlliance => base,
    }
}

/// Whether a status tells of success.
pub open spec fn is_success(status: u16) -> bool {
    200 <= status <= 299
}

/// `offer` with its interest rate set.
pub open spec fn with_rate(offer: CreditView, rate: Seq<char>) -> CreditView {
    CreditView { interest_rate: rate, ..offer }
}

/// What a run whose listing has been read does next: it asks for the detail
/// of the first waiting draft, or ends where none waits.
pub open spec fn proceed(crawl: CrawlView) -> StepView {
    if crawl.waiting.len() > 0 {
        StepView::Fetch { crawl, url: detail_url(crawl.base, crawl.waiting[0].id) }
    } else {
        StepView::Done { offers: crawl.done }
    }
}

/// The step that `reply` leads to from `crawl`. A failed request, a status
/// outside 200..=299 and a body that cannot be read each end the run with
/// their error; nothing is tried again.
pub open spec fn advance(crawl: CrawlView, reply: ReplyView) -> StepView {
    match reply {
        ReplyView::Failure { reason } => StepView::Failed {
            error: CrawlErrorView::NetworkError { reason },
        },
        ReplyView::Unreadable { status } => if !is_success(status) {
            StepView::Failed { error: CrawlErrorView::UnexpectedStatus { status } }
        } else {
            StepView::Failed { error: CrawlErrorView::DecodeError }
        },
        ReplyView::Response { status, body } => if !is_success(status) {
            StepView::Failed { error: CrawlErrorView::UnexpectedStatus { status } }
        } else {
            match crawl.source {
                Source::AsiaAlliance => match asia_alliance_offers(body) {
                    Ok(offers) => StepView::Done { offers },
                    Err(error) => StepView::Failed { error },
                },
                Source::Asaka => if !crawl.listed {
                    match listing_drafts(body) {
                        Ok(drafts) => proceed(
                            CrawlView {
                                listed: true,
                                done: Seq::empty(),
                                waiting: drafts,
                                ..crawl
                            },
                        ),
                        Err(error) => StepView::Failed { error },
                    }
                } else if crawl.waiting.len() == 0 {
                    StepView::Done { offers: crawl.done }
                } else {
                    match detail_rate(body) {
                        Ok(rate) => proceed(
                            CrawlView {
                                done: crawl.done.push(with_rate(crawl.waiting[0].offer, rate)),
                                waiting: crawl.waiting.drop_first(),
                                ..crawl
                            },
                        ),
                        Err(error) => StepView::Failed { error },
                    }
                },
            }
        },
    }
}

/// How a run ends that gets `replies` to its requests, in their order: `None`
/// where the replies run out before the run has ended. Replies past the end
/// of the run are not read.
pub open spec fn outcome(crawl: CrawlView, replies: Seq<ReplyView>) -> Option<
    Result<Seq<CreditView>, CrawlErrorView>,
>
    decreases replies.len(),
{
    if replies.len() == 0 {
        None
    } else {
        match advance(crawl, replies[0]) {
            StepView::Fetch { crawl: next, url } => outcome(next, replies.drop_first()),
            StepView::Done { offers } => Some(Ok(offers)),
            StepView::Failed { error } => Some(Err(error)),
        }
    }
}

impl Crawl {
    /// Starts a run on `source`, read under `url` where one is given, and
    /// names its first request.
    pub fn start(source: Source, url: Option<&str>) -> (r: (Crawl, String))
        ensures
            r.0@ == initial(source, base_of(source, url.deep_view())),
            r.1@ == first_url(source, base_of(source, url.deep_view())),
    {
        let base = match url {
            Some(given) => String::from_str(given),
            None => match source {
                Source::Asaka => String::from_str("https://back.asakabank.uz"),
                Source::AsiaAlliance => String::from_str("https://aab.uz/ru/private/crediting/"),
            },
        };
        let first = match source {
            Source::Asaka => listing_address(base.as_str()),
            Source::AsiaAlliance => base.clone(),
        };
        let crawl = Crawl { source, base, listed: false, done: Vec::new(), waiting: Vec::new() };
        proof {
            assert(crawl.done.deep_view() == Seq::<CreditView>::empty());
            assert(crawl.waiting.deep_view() == Seq::<DraftView>::empty());
        }
        (crawl, first)
    }

    fn proceed(self) -> (r: Step)
        ensures
            r@ == proceed(self@),
    {
        if self.waiting.len() > 0 {
            let url = detail_address(self.base.as_str(), self.waiting[0].id.as_str());
            Step::Fetch { crawl: self, url }
        } else {
            Step::Done { offers: self.done }
        }
    }

    /// Takes the reply to the request that the run waits for.
    pub fn advance(self, reply: Reply) -> (r: Step)
        ensures
            r@ == advance(self@, reply@),
    {
        let Crawl { source, base, listed, done, waiting } = self;
        let mut done = done;
        let mut waiting = waiting;
        match reply {
            Reply::Failure { reason } => Step::Failed { error: CrawlError::NetworkError { reason } },
            Reply::Unreadable { status } => {
                if status < 200 || status > 299 {
                    Step::Failed { error: CrawlError::UnexpectedStatus { status } }
                } else {
                    Step::Failed { error: CrawlError::DecodeError }
                }
            },
            Reply::Response { status, body } => {
                if status < 200 || status > 299 {
                    return Step::Failed { error: CrawlError::UnexpectedStatus { status } };
                }
                match source {
                    Source::AsiaAlliance => match parse_asia_alliance(body.as_str()) {
                        Ok(offers) => Step::Done { offers },
                        Err(error) => Step::Failed { error },
                    },
                    Source::Asaka => {
                        if !listed {
                            match parse_asaka_listing(body.as_str()) {
                                Ok(drafts) => {
                                    let next = Crawl {
                                        source,
                                        base,
                                        listed: true,
                                        done: Vec::new(),
                                        waiting: drafts,
                                    };
                                    proof {
                                        assert(next.done.deep_view() == Seq::<CreditView>::empty());
                                    }
                                    next.proceed()
                                },
                                Err(error) => Step::Failed { error },
                            }
                        } else if waiting.len() == 0 {
                            Step::Done { offers: done }
                        } else {
                            match parse_asaka_rate(body.as_str()) {
                                Ok(rate) => {
                                    let ghost old_done = done.deep_view();
                                    let ghost old_waiting = waiting.deep_view();
                                    let Draft { offer, id } = waiting.remove(0);
                                    let mut offer = offer;
                                    offer.interest_rate = rate;
                                    done.push(offer);
                                    proof {
                                        assert(done.deep_view() == old_done.push(
                                            with_rate(old_waiting[0].offer, rate@),
                                        ));
                                        assert(waiting.deep_view() == old_waiting.drop_first());
                                    }
                                    let next = Crawl { source, base, listed, done, waiting };
                                    next.proceed()
                                },
                                Err(error) => Step::Failed { error },
                            }
                        }
                    },
                }
            },
        }
    }
}

} // verus!
