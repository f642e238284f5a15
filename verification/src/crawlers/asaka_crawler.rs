//! The adapter for the credit catalogue of Asaka Bank: a JSON listing, and
//! for each of its items a JSON detail that carries the interest rate.

use crate::crawlers::credit::{Credit, CreditView};
use crate::crawlers::error::{CrawlError, CrawlErrorView};
use crate::crawlers::markup::{fragment_matches, select_in_fragment};
use crate::crawlers::payload::{json_table, read_table};
use crate::crawlers::text_helpers::{clean_text, cleaned, credit_type_of, find_credit_type};
use vstd::prelude::*;
use vstd::string::StringExecFns;

verus! {

/// An offer read from the listing, which still lacks its interest rate, with
/// the identifier under which the site serves its detail.
#[derive(Debug)]
pub struct Draft {
    pub offer: Credit,
    pub id: String,
}

/// The mathematical value of a [`Draft`].
pub struct DraftView {
    pub offer: CreditView,
    pub id: Seq<char>,
}

impl View for Draft {
    type V = DraftView;

    open spec fn view(&self) -> DraftView {
        DraftView { offer: self.offer@, id: self.id@ }
    }
}

impl DeepView for Draft {
    type V = DraftView;

    open spec fn deep_view(&self) -> DraftView {
        self@
    }
}

/// The address of the listing below `base`.
pub open spec fn listing_url(base: Seq<char>) -> Seq<char> {
    base + "/1/credit/?category=5&page_size=50"@
}

/// The address below `base` of the detail of the item `id`.
pub open spec fn detail_url(base: Seq<char>, id: Seq<char>) -> Seq<char> {
    base + "/1/credit/"@ + id + "/property/"@
}

/// The key of the list, in the listing and in a detail alike.
pub open spec fn list_key() -> Seq<char> {
    "results"@
}

/// The members that are read of each item of the listing, in the order in
/// which a row holds them.
pub open spec fn item_members() -> Seq<Seq<char>> {
    seq!["title_ru"@, "max_amount_ru"@, "credit_period_ru"@, "id"@]
}

/// The members that are read of each entry of a detail.
pub open spec fn detail_members() -> Seq<Seq<char>> {
    seq!["interest_rate"@]
}

/// The selectors tried on the amount of an item, in the order in which they
/// are tried: a heading of the third level decides where the amount has one,
/// a paragraph where it has none.
pub open spec fn sum_rules() -> Seq<Seq<char>> {
    seq!["h3"@, "p"@]
}

/// The selectors tried on the term of an item.
pub open spec fn term_rules() -> Seq<Seq<char>> {
    seq!["h1"@]
}

/// The cleaned text of the first node found, if one was found.
pub open spec fn first_node_text(found: Option<Seq<Seq<Seq<char>>>>) -> Option<Seq<char>> {
    match found {
        Some(nodes) => if nodes.len() > 0 {
            Some(cleaned(nodes[0]))
        } else {
            None
        },
        None => None,
    }
}

/// The text that an ordered list of extraction rules finds in `fragment`: the
/// cleaned text of the first node that the first matching selector selects.
/// A selector that selects nothing, or that is no selector, is passed over;
/// where none selects anything the text is empty.
pub open spec fn first_rule_text(fragment: Seq<char>, rules: Seq<Seq<char>>) -> Seq<char>
    decreases rules.len(),
{
    if rules.len() == 0 {
        Seq::empty()
    } else {
        match first_node_text(fragment_matches(fragment, rules[0])) {
            Some(text) => text,
            None => first_rule_text(fragment, rules.drop_first()),
        }
    }
}

/// The string value of member `k` of `row`, if the row has one.
pub open spec fn member_text(row: Seq<(Option<Seq<char>>, Option<Seq<char>>)>, k: int) -> Option<
    Seq<char>,
> {
    if 0 <= k < row.len() {
        row[k].0
    } else {
        None
    }
}

/// Member `k` of `row` written out as JSON, if the row has that member.
pub open spec fn member_rendered(
    row: Seq<(Option<Seq<char>>, Option<Seq<char>>)>,
    k: int,
) -> Option<Seq<char>> {
    if 0 <= k < row.len() {
        row[k].1
    } else {
        None
    }
}

/// The text that `rules` find in member `k` of `row`; empty where the member
/// is absent or no string.
pub open spec fn member_rule_text(
    row: Seq<(Option<Seq<char>>, Option<Seq<char>>)>,
    k: int,
    rules: Seq<Seq<char>>,
) -> Seq<char> {
    match member_text(row, k) {
        Some(fragment) => first_rule_text(fragment, rules),
        None => Seq::empty(),
    }
}

/// Whether the row names a title: a string that is not empty.
pub open spec fn has_title(row: Seq<(Option<Seq<char>>, Option<Seq<char>>)>) -> bool {
    member_text(row, 0) matches Some(title) && title.len() > 0
}

/// Whether the row names an identifier: a member that is not `null`.
pub open spec fn has_id(row: Seq<(Option<Seq<char>>, Option<Seq<char>>)>) -> bool {
    member_rendered(row, 3) matches Some(id) && id != "null"@
}

/// The draft that one row of the listing stands for. The title and the
/// identifier are required; the amount and the term are read by their rules
/// and stay empty where nothing is found.
pub open spec fn row_draft(row: Seq<(Option<Seq<char>>, Option<Seq<char>>)>) -> Result<
    DraftView,
    CrawlErrorView,
> {
    if !has_title(row) {
        Err(CrawlErrorView::MissingField { field: "title_ru"@ })
    } else if !has_id(row) {
        Err(CrawlErrorView::MissingField { field: "id"@ })
    } else {
        let title = member_text(row, 0)->Some_0;
        Ok(
            DraftView {
                offer: CreditView {
                    title: title,
                    credit_type: credit_type_of(title),
                    max_sum: member_rule_text(row, 1, sum_rules()),
                    credit_period: member_rule_text(row, 2, term_rules()),
                    ..CreditView::blank()
                },
                id: member_rendered(row, 3)->Some_0,
            },
        )
    }
}

/// The drafts of a listing, one per row and in the rows' order; the error of
/// the first row that has one.
pub open spec fn rows_drafts(rows: Seq<Seq<(Option<Seq<char>>, Option<Seq<char>>)>>) -> Result<
    Seq<DraftView>,
    CrawlErrorView,
>
    decreases rows.len(),
{
    if rows.len() == 0 {
        Ok(Seq::empty())
    } else {
        match rows_drafts(rows.drop_last()) {
            Err(e) => Err(e),
            Ok(before) => match row_draft(rows.last()) {
                Err(e) => Err(e),
                Ok(draft) => Ok(before.push(draft)),
            },
        }
    }
}

/// The drafts that the body of the listing holds.
pub open spec fn listing_drafts(body: Seq<char>) -> Result<Seq<DraftView>, CrawlErrorView> {
    match json_table(body, list_key(), item_members()) {
        None => Err(CrawlErrorView::DecodeError),
        Some(rows) => rows_drafts(rows),
    }
}

/// The interest rate that the entries of a detail name: the string under
/// `interest_rate` of the first entry, or the empty text.
pub open spec fn rows_rate(rows: Seq<Seq<(Option<Seq<char>>, Option<Seq<char>>)>>) -> Seq<char> {
    if rows.len() > 0 {
        match member_text(rows[0], 0) {
            Some(rate) => rate,
            None => Seq::empty(),
        }
    } else {
        Seq::empty()
    }
}

/// The interest rate that the body of a detail names.
pub open spec fn detail_rate(body: Seq<char>) -> Result<Seq<char>, CrawlErrorView> {
    match json_table(body, list_key(), detail_members()) {
        None => Err(CrawlErrorView::DecodeError),
        Some(rows) => Ok(rows_rate(rows)),
    }
}

/// The views of a result that holds one draft.
pub open spec fn draft_outcome(r: Result<Draft, CrawlError>) -> Result<DraftView, CrawlErrorView> {
    match r {
        Ok(draft) => Ok(draft@),
        Err(e) => Err(e@),
    }
}

/// The views of a result that holds a list of drafts.
pub open spec fn drafts_outcome(r: Result<Vec<Draft>, CrawlError>) -> Result<
    Seq<DraftView>,
    CrawlErrorView,
> {
    match r {
        Ok(drafts) => Ok(drafts.deep_view()),
        Err(e) => Err(e@),
    }
}

/// The views of a result that holds a text.
pub open spec fn text_outcome(r: Result<String, CrawlError>) -> Result<Seq<char>, CrawlErrorView> {
    match r {
        Ok(text) => Ok(text@),
        Err(e) => Err(e@),
    }
}

/// The address of the listing below `base`.
pub fn listing_address(base: &str) -> (r: String)
    ensures
        r@ == listing_url(base@),
{
    String::from_str(base).concat("/1/credit/?category=5&page_size=50")
}

/// The address below `base` of the detail of the item `id`.
pub fn detail_address(base: &str, id: &str) -> (r: String)
    ensures
        r@ == detail_url(base@, id@),
{
    String::from_str(base).concat("/1/credit/").concat(id).concat("/property/")
}

/// The cleaned text of the first node found, if one was found.
pub fn text_of_first_node(found: &Option<Vec<Vec<String>>>) -> (r: Option<String>)
    ensures
        r.deep_view() == first_node_text(found.deep_view()),
{
    match found {
        Some(nodes) => if nodes.len() > 0 {
            Some(clean_text(&nodes[0]))
        } else {
            None
        },
        None => None,
    }
}

/// Applies an ordered list of extraction rules to an HTML fragment.
pub fn extract_text(fragment: &str, rules: &Vec<String>) -> (r: String)
    ensures
        r@ == first_rule_text(fragment@, rules.deep_view()),
{
    let mut i: usize = 0;
    proof {
        assert(rules.deep_view().skip(0) == rules.deep_view());
    }
    while i < rules.len()
        invariant
            i <= rules.len(),
            first_rule_text(fragment@, rules.deep_view()) == first_rule_text(
                fragment@,
                rules.deep_view().skip(i as int),
            ),
        decreases rules.len() - i,
    {
        let ghost rest = rules.deep_view().skip(i as int);
        proof {
            assert(rest[0] == rules[i as int]@);
            assert(rest.drop_first() == rules.deep_view().skip(i + 1));
        }
        let found = select_in_fragment(fragment, rules[i].as_str());
        match text_of_first_node(&found) {
            Some(text) => {
                return text;
            },
            None => {},
        }
        i = i + 1;
    }
    String::new()
}

fn sum_rule_list() -> (r: Vec<String>)
    ensures
        r.deep_view() == sum_rules(),
{
    let mut rules: Vec<String> = Vec::new();
    rules.push(String::from_str("h3"));
    rules.push(String::from_str("p"));
    proof {
        assert(rules.deep_view() == sum_rules());
    }
    rules
}

fn term_rule_list() -> (r: Vec<String>)
    ensures
        r.deep_view() == term_rules(),
{
    let mut rules: Vec<String> = Vec::new();
    rules.push(String::from_str("h1"));
    proof {
        assert(rules.deep_view() == term_rules());
    }
    rules
}

fn member_rule_extract(row: &Vec<(Option<String>, Option<String>)>, k: usize, rules: &Vec<String>) -> (r:
    String)
    ensures
        r@ == member_rule_text(row.deep_view(), k as int, rules.deep_view()),
{
    if k < row.len() {
        match &row[k].0 {
            Some(fragment) => extract_text(fragment.as_str(), rules),
            None => String::new(),
        }
    } else {
        String::new()
    }
}

/// Builds the draft of one row of the listing.
pub fn draft_from_row(row: &Vec<(Option<String>, Option<String>)>) -> (r: Result<Draft, CrawlError>)
    ensures
        draft_outcome(r) == row_draft(row.deep_view()),
{
    let title = if row.len() > 0 {
        match &row[0].0 {
            Some(title) => title.clone(),
            None => String::new(),
        }
    } else {
        String::new()
    };
    if title.as_str().is_empty() {
        return Err(CrawlError::MissingField { field: String::from_str("title_ru") });
    }
    let id = if row.len() > 3 {
        match &row[3].1 {
            Some(id) => id.clone(),
            None => String::from_str("null"),
        }
    } else {
        String::from_str("null")
    };
    if id == String::from_str("null") {
        return Err(CrawlError::MissingField { field: String::from_str("id") });
    }
    let sum_rules = sum_rule_list();
    let term_rules = term_rule_list();
    let mut offer = Credit::new();
    offer.credit_type = find_credit_type(title.as_str());
    offer.title = title;
    offer.max_sum = member_rule_extract(row, 1, &sum_rules);
    offer.credit_period = member_rule_extract(row, 2, &term_rules);
    Ok(Draft { offer, id })
}

/// Once a prefix of the rows has failed, the whole listing fails alike.
pub proof fn lemma_error_stays(rows: Seq<Seq<(Option<Seq<char>>, Option<Seq<char>>)>>, n: int)
    requires
        0 <= n <= rows.len(),
        rows_drafts(rows.take(n)) is Err,
    ensures
        rows_drafts(rows) == rows_drafts(rows.take(n)),
    decreases rows.len() - n,
{
    if n < rows.len() {
        assert(rows.take(n + 1).drop_last() == rows.take(n));
        lemma_error_stays(rows, n + 1);
    } else {
        assert(rows.take(n) == rows);
    }
}

/// Builds the drafts of a listing from its rows.
pub fn drafts_from_rows(rows: &Vec<Vec<(Option<String>, Option<String>)>>) -> (r: Result<
    Vec<Draft>,
    CrawlError,
>)
    ensures
        drafts_outcome(r) == rows_drafts(rows.deep_view()),
{
    let mut drafts: Vec<Draft> = Vec::new();
    let mut i: usize = 0;
    proof {
        assert(drafts.deep_view() == Seq::<DraftView>::empty());
    }
    while i < rows.len()
        invariant
            i <= rows.len(),
            rows_drafts(rows.deep_view().take(i as int)) == Ok::<Seq<DraftView>, CrawlErrorView>(
                drafts.deep_view(),
            ),
        decreases rows.len() - i,
    {
        let ghost seen = rows.deep_view().take(i + 1);
        proof {
            assert(seen.drop_last() == rows.deep_view().take(i as int));
            assert(seen.last() == rows[i as int].deep_view());
        }
        match draft_from_row(&rows[i]) {
            Err(e) => {
                proof {
                    lemma_error_stays(rows.deep_view(), i + 1);
                }
                return Err(e);
            },
            Ok(draft) => {
                let ghost before = drafts.deep_view();
                drafts.push(draft);
                proof {
                    assert(drafts.deep_view() == before.push(draft@));
                }
            },
        }
        i = i + 1;
    }
    proof {
        assert(rows.deep_view().take(rows.len() as int) == rows.deep_view());
    }
    Ok(drafts)
}

/// Reads the drafts out of the body of the listing.
pub fn parse_asaka_listing(body: &str) -> (r: Result<Vec<Draft>, CrawlError>)
    ensures
        drafts_outcome(r) == listing_drafts(body@),
{
    let mut members: Vec<String> = Vec::new();
    members.push(String::from_str("title_ru"));
    members.push(String::from_str("max_amount_ru"));
    members.push(String::from_str("credit_period_ru"));
    members.push(String::from_str("id"));
    proof {
        assert(members.deep_view() == item_members());
    }
    match read_table(body, "results", &members) {
        None => Err(CrawlError::DecodeError),
        Some(rows) => drafts_from_rows(&rows),
    }
}

/// The interest rate that the entries of a detail name.
pub fn rate_from_rows(rows: &Vec<Vec<(Option<String>, Option<String>)>>) -> (r: String)
    ensures
        r@ == rows_rate(rows.deep_view()),
{
    if rows.len() > 0 && rows[0].len() > 0 {
        match &rows[0][0].0 {
            Some(rate) => rate.clone(),
            None => String::new(),
        }
    } else {
        String::new()
    }
}

/// Reads the interest rate out of the body of a detail.
pub fn parse_asaka_rate(body: &str) -> (r: Result<String, CrawlError>)
    ensures
        text_outcome(r) == detail_rate(body@),
{
    let mut members: Vec<String> = Vec::new();
    members.push(String::from_str("interest_rate"));
    proof {
        assert(members.deep_view() == detail_members());
    }
    match read_table(body, "results", &members) {
        None => Err(CrawlError::DecodeError),
        Some(rows) => Ok(rate_from_rows(&rows)),
    }
}

} // verus!
