use personal_utils::crawlers::asaka_crawler::{
    detail_address, draft_from_row, extract_text, listing_address, parse_asaka_listing,
    parse_asaka_rate, text_of_first_node,
};
use personal_utils::crawlers::asia_alliance_crawler::{
    offer_from_block, offers_from_blocks, parse_asia_alliance,
};
use personal_utils::crawlers::session::{Crawl, Reply, Source, Step};
use personal_utils::crawlers::{CrawlError, Credit, CreditType};

fn ok(body: &str) -> Reply {
    Reply::Response {
        status: 200,
        body: body.to_string(),
    }
}

fn texts(parts: &[&str]) -> Vec<String> {
    parts.iter().map(|p| p.to_string()).collect()
}

fn run(source: Source, url: Option<&str>, replies: Vec<Reply>) -> (Vec<String>, Result<Vec<Credit>, CrawlError>) {
    let (mut crawl, first) = Crawl::start(source, url);
    let mut asked = vec![first];
    for reply in replies {
        match crawl.advance(reply) {
            Step::Fetch { crawl: next, url } => {
                asked.push(url);
                crawl = next;
            }
            Step::Done { offers } => return (asked, Ok(offers)),
            Step::Failed { error } => return (asked, Err(error)),
        }
    }
    panic!("the run asked for more replies than were given");
}

const LISTING: &str = r#"{"results":[{"title_ru": "Автокредит", "max_amount_ru": "<p>100 000 000 UZS</p>", "credit_period_ru": "<h1>36 месяцев</h1>", "id": 7}]}"#;
const DETAIL: &str = r#"{"results":[{"interest_rate":"24%"}]}"#;

const PAGE: &str = "<html><body>\
    <div class=\"element--crediting\">\
      <div class=\"element__title\"> Ипотека  на дом </div>\
      <div class=\"element__params\">\
        <div class=\"element__param\"><span>22</span> <b>%</b></div>\
        <div class=\"element__param\">240 мес</div>\
        <div class=\"element__param\">1 000 000</div>\
        <div class=\"element__param\">extra</div>\
      </div>\
    </div>\
    <div class=\"element--crediting\">\
      <div class=\"element__title\">Образовательный кредит</div>\
      <div class=\"element__params\">\
        <div class=\"element__param\">18%</div>\
      </div>\
    </div></body></html>";

#[test]
fn asaka_listing_and_detail_give_one_offer() {
    let (asked, offers) = run(
        Source::Asaka,
        Some("http://127.0.0.1:9"),
        vec![ok(LISTING), ok(DETAIL)],
    );
    assert_eq!(
        asked,
        vec![
            "http://127.0.0.1:9/1/credit/?category=5&page_size=50".to_string(),
            "http://127.0.0.1:9/1/credit/7/property/".to_string(),
        ]
    );
    let offers = offers.unwrap();
    assert_eq!(offers.len(), 1);
    assert_eq!(offers[0].title, "Автокредит");
    assert_eq!(offers[0].credit_type, CreditType::Auto);
    assert_eq!(offers[0].max_sum, "100 000 000 UZS");
    assert_eq!(offers[0].credit_period, "36 месяцев");
    assert_eq!(offers[0].interest_rate, "24%");
    assert_eq!(offers[0].currency, "");
    assert!(!offers[0].early_repayment);
}

#[test]
fn asaka_reads_the_default_site() {
    let (_, first) = Crawl::start(Source::Asaka, None);
    assert_eq!(
        first,
        "https://back.asakabank.uz/1/credit/?category=5&page_size=50"
    );
    let (_, first) = Crawl::start(Source::AsiaAlliance, None);
    assert_eq!(first, "https://aab.uz/ru/private/crediting/");
    let (_, first) = Crawl::start(Source::AsiaAlliance, Some("http://localhost/x"));
    assert_eq!(first, "http://localhost/x");
}

#[test]
fn asaka_yields_offers_in_listing_order() {
    let listing = r#"{"results":[
        {"title_ru": "Ипотека", "max_amount_ru": "<h3>1</h3>", "credit_period_ru": "", "id": 4},
        {"title_ru": "Микрозайм", "max_amount_ru": "<p>2</p>", "credit_period_ru": "<h1>b</h1>", "id": "x"},
        {"title_ru": "Прочее", "max_amount_ru": "<p>3</p>", "credit_period_ru": "<h1>c</h1>", "id": 61}
    ]}"#;
    let (asked, offers) = run(
        Source::Asaka,
        Some("http://h"),
        vec![
            ok(listing),
            ok(r#"{"results":[{"interest_rate":"10%"}]}"#),
            ok(r#"{"results":[]}"#),
            ok(r#"{"results":[{"interest_rate":"30%"},{"interest_rate":"31%"}]}"#),
        ],
    );
    assert_eq!(
        asked,
        vec![
            "http://h/1/credit/?category=5&page_size=50".to_string(),
            "http://h/1/credit/4/property/".to_string(),
            "http://h/1/credit/\"x\"/property/".to_string(),
            "http://h/1/credit/61/property/".to_string(),
        ]
    );
    let offers = offers.unwrap();
    assert_eq!(offers.len(), 3);
    assert_eq!(offers[0].title, "Ипотека");
    assert_eq!(offers[0].credit_type, CreditType::Mortgage);
    assert_eq!(offers[0].max_sum, "1");
    assert_eq!(offers[0].credit_period, "");
    assert_eq!(offers[0].interest_rate, "10%");
    assert_eq!(offers[1].title, "Микрозайм");
    assert_eq!(offers[1].credit_type, CreditType::Micro);
    assert_eq!(offers[1].interest_rate, "");
    assert_eq!(offers[2].title, "Прочее");
    assert_eq!(offers[2].credit_type, CreditType::Other);
    assert_eq!(offers[2].interest_rate, "30%");
}

#[test]
fn empty_listing_ends_at_once() {
    let (asked, offers) = run(Source::Asaka, Some("http://h"), vec![ok(r#"{"results":[]}"#)]);
    assert_eq!(asked.len(), 1);
    assert_eq!(offers.unwrap().len(), 0);
}

#[test]
fn amount_without_matching_node_stays_empty() {
    let listing = r#"{"results":[{"title_ru": "Автокредит", "max_amount_ru": "<div>100</div> text", "credit_period_ru": "<h2>36</h2>", "id": 7}]}"#;
    let drafts = parse_asaka_listing(listing).unwrap();
    assert_eq!(drafts.len(), 1);
    assert_eq!(drafts[0].offer.max_sum, "");
    assert_eq!(drafts[0].offer.credit_period, "");
    assert_eq!(drafts[0].offer.title, "Автокредит");
    assert_eq!(drafts[0].id, "7");
}

#[test]
fn amount_that_is_no_string_stays_empty() {
    let listing = r#"{"results":[{"title_ru": "Автокредит", "max_amount_ru": 5, "id": 7}]}"#;
    let drafts = parse_asaka_listing(listing).unwrap();
    assert_eq!(drafts[0].offer.max_sum, "");
    assert_eq!(drafts[0].offer.credit_period, "");
}

#[test]
fn first_matching_rule_gives_the_text() {
    let rules = texts(&["p", "h3"]);
    assert_eq!(extract_text("<h3>b</h3><p> a </p><p>c</p>", &rules), "a");
    assert_eq!(extract_text("<h3> b <i>c</i></h3>", &rules), "b c");
    assert_eq!(extract_text("<h2>b</h2>", &rules), "");
    assert_eq!(extract_text("<p></p><h3>b</h3>", &rules), "");
    assert_eq!(extract_text("<p>a</p>", &texts(&[])), "");
    assert_eq!(extract_text("<p>a</p>", &texts(&["p[", "p"])), "a");
}

#[test]
fn first_node_is_cleaned() {
    assert_eq!(
        text_of_first_node(&Some(vec![texts(&[" a ", " ", "b"]), texts(&["c"])])),
        Some("a b".to_string())
    );
    assert_eq!(text_of_first_node(&Some(vec![])), None);
    assert_eq!(text_of_first_node(&None), None);
}

#[test]
fn addresses_are_built_from_the_base() {
    assert_eq!(listing_address("b"), "b/1/credit/?category=5&page_size=50");
    assert_eq!(detail_address("b", "33"), "b/1/credit/33/property/");
}

#[test]
fn listing_without_title_is_a_missing_field() {
    let listing = r#"{"results":[{"max_amount_ru": "<p>1</p>", "id": 7}]}"#;
    match parse_asaka_listing(listing) {
        Err(CrawlError::MissingField { field }) => assert_eq!(field, "title_ru"),
        other => panic!("unexpected: {:?}", other),
    }
    let listing = r#"{"results":[{"title_ru": "", "id": 7}]}"#;
    match parse_asaka_listing(listing) {
        Err(CrawlError::MissingField { field }) => assert_eq!(field, "title_ru"),
        other => panic!("unexpected: {:?}", other),
    }
}

#[test]
fn listing_without_identifier_is_a_missing_field() {
    let listing = r#"{"results":[{"title_ru": "Автокредит"}]}"#;
    match parse_asaka_listing(listing) {
        Err(CrawlError::MissingField { field }) => assert_eq!(field, "id"),
        other => panic!("unexpected: {:?}", other),
    }
    let listing = r#"{"results":[{"title_ru": "Автокредит", "id": null}]}"#;
    match parse_asaka_listing(listing) {
        Err(CrawlError::MissingField { field }) => assert_eq!(field, "id"),
        other => panic!("unexpected: {:?}", other),
    }
}

#[test]
fn first_bad_row_decides_the_error() {
    let listing = r#"{"results":[{"title_ru": "A", "id": 1}, {"title_ru": "B"}, {"id": 3}]}"#;
    match parse_asaka_listing(listing) {
        Err(CrawlError::MissingField { field }) => assert_eq!(field, "id"),
        other => panic!("unexpected: {:?}", other),
    }
}

#[test]
fn row_is_read_by_place() {
    let row = vec![
        (Some("Овердрафт".to_string()), Some("\"Овердрафт\"".to_string())),
        (Some("<h3>5</h3>".to_string()), Some("\"<h3>5</h3>\"".to_string())),
        (None, None),
        (None, Some("12".to_string())),
    ];
    let draft = draft_from_row(&row).unwrap();
    assert_eq!(draft.id, "12");
    assert_eq!(draft.offer.title, "Овердрафт");
    assert_eq!(draft.offer.credit_type, CreditType::Overdraft);
    assert_eq!(draft.offer.max_sum, "5");
    assert_eq!(draft.offer.credit_period, "");
    assert!(draft_from_row(&vec![]).is_err());
}

#[test]
fn undecodable_listing_is_a_decode_error() {
    assert!(matches!(
        parse_asaka_listing("<html>"),
        Err(CrawlError::DecodeError)
    ));
    assert!(matches!(
        parse_asaka_listing(r#"{"results": 5}"#),
        Err(CrawlError::DecodeError)
    ));
    assert!(matches!(
        parse_asaka_listing(r#"[1, 2]"#),
        Err(CrawlError::DecodeError)
    ));
    assert!(matches!(parse_asaka_rate("{"), Err(CrawlError::DecodeError)));
}

#[test]
fn rate_is_read_from_the_first_entry() {
    assert_eq!(parse_asaka_rate(DETAIL).unwrap(), "24%");
    assert_eq!(parse_asaka_rate(r#"{"results":[]}"#).unwrap(), "");
    assert_eq!(
        parse_asaka_rate(r#"{"results":[{"interest_rate": 24}]}"#).unwrap(),
        ""
    );
}

#[test]
fn undecodable_detail_ends_the_run() {
    let (_, offers) = run(
        Source::Asaka,
        Some("http://h"),
        vec![ok(LISTING), ok("not json")],
    );
    assert!(matches!(offers, Err(CrawlError::DecodeError)));
}

#[test]
fn server_error_ends_the_run_without_offers() {
    let failing = Reply::Response {
        status: 500,
        body: LISTING.to_string(),
    };
    let (asked, offers) = run(Source::Asaka, Some("http://a"), vec![failing]);
    assert_eq!(asked.len(), 1);
    match offers {
        Err(CrawlError::UnexpectedStatus { status }) => assert_eq!(status, 500),
        other => panic!("unexpected: {:?}", other),
    }
    let (_, sibling) = run(Source::AsiaAlliance, Some("http://b"), vec![ok(PAGE)]);
    assert_eq!(sibling.unwrap().len(), 2);
}

#[test]
fn status_bounds_are_200_and_299() {
    for (status, good) in [(199u16, false), (200, true), (204, true), (299, true), (300, false), (404, false)] {
        let reply = Reply::Response {
            status,
            body: PAGE.to_string(),
        };
        let (_, offers) = run(Source::AsiaAlliance, None, vec![reply]);
        assert_eq!(offers.is_ok(), good, "status {}", status);
    }
}

#[test]
fn server_error_on_a_detail_ends_the_run() {
    let failing = Reply::Response {
        status: 503,
        body: DETAIL.to_string(),
    };
    let (_, offers) = run(Source::Asaka, Some("http://a"), vec![ok(LISTING), failing]);
    assert!(matches!(
        offers,
        Err(CrawlError::UnexpectedStatus { status: 503 })
    ));
}

#[test]
fn failed_request_is_a_network_error() {
    let reply = Reply::Failure {
        reason: "connection refused".to_string(),
    };
    let (_, offers) = run(Source::AsiaAlliance, None, vec![reply]);
    match offers {
        Err(CrawlError::NetworkError { reason }) => assert_eq!(reason, "connection refused"),
        other => panic!("unexpected: {:?}", other),
    }
}

#[test]
fn three_params_map_to_rate_term_sum() {
    let offers = parse_asia_alliance(PAGE).unwrap();
    assert_eq!(offers.len(), 2);
    assert_eq!(offers[0].title, "Ипотека  на дом");
    assert_eq!(offers[0].credit_type, CreditType::Mortgage);
    assert_eq!(offers[0].interest_rate, "22 %");
    assert_eq!(offers[0].credit_period, "240 мес");
    assert_eq!(offers[0].max_sum, "1 000 000");
    assert_eq!(offers[1].title, "Образовательный кредит");
    assert_eq!(offers[1].credit_type, CreditType::Education);
    assert_eq!(offers[1].interest_rate, "18%");
    assert_eq!(offers[1].credit_period, "");
    assert_eq!(offers[1].max_sum, "");
}

#[test]
fn fourth_param_is_ignored() {
    let block = vec![
        vec![texts(&[" Потребительский "])],
        vec![texts(&["r"]), texts(&["t"]), texts(&["s"]), texts(&["x"])],
    ];
    let offer = offer_from_block(&block).unwrap();
    assert_eq!(offer.title, "Потребительский");
    assert_eq!(offer.credit_type, CreditType::Consumer);
    assert_eq!(offer.interest_rate, "r");
    assert_eq!(offer.credit_period, "t");
    assert_eq!(offer.max_sum, "s");
    assert_eq!(offer.initial_fee, "");
    assert_eq!(offer.additional_conditions, "");
}

#[test]
fn page_without_offers_is_empty() {
    assert_eq!(parse_asia_alliance("<html></html>").unwrap().len(), 0);
    assert_eq!(parse_asia_alliance("").unwrap().len(), 0);
}

#[test]
fn offer_without_title_is_a_missing_field() {
    let page = "<div class=\"element--crediting\"><div class=\"element__params\">\
        <div class=\"element__param\">1</div></div></div>";
    match parse_asia_alliance(page) {
        Err(CrawlError::MissingField { field }) => assert_eq!(field, "title"),
        other => panic!("unexpected: {:?}", other),
    }
    let blank = vec![vec![vec![texts(&["  "])], vec![]]];
    assert!(matches!(
        offers_from_blocks(&blank),
        Err(CrawlError::MissingField { .. })
    ));
    assert!(offer_from_block(&vec![]).is_err());
}

#[test]
fn blank_offer_is_empty() {
    let blank = Credit::new();
    assert_eq!(blank.title, "");
    assert_eq!(blank.interest_rate, "");
    assert_eq!(blank.credit_period, "");
    assert_eq!(blank.max_sum, "");
    assert_eq!(blank.initial_fee, "");
    assert_eq!(blank.currency, "");
    assert_eq!(blank.overdue_interest_rate, "");
    assert_eq!(blank.type_of_interest_rate, "");
    assert_eq!(blank.grace_period, "");
    assert_eq!(blank.document_required, "");
    assert_eq!(blank.loan_security, "");
    assert_eq!(blank.loan_processing_method, "");
    assert_eq!(blank.frequency_of_payments, "");
    assert_eq!(blank.additional_conditions, "");
    assert!(!blank.early_repayment);
    assert_eq!(blank.credit_type, CreditType::Auto);
}

// Known fragility: the parameters are read by their place on the page, not
// by what they say. A page that lists the term first gets it as the rate.
#[test]
fn params_are_mapped_by_place_not_by_meaning() {
    let page = "<div class=\"element--crediting\">\
        <div class=\"element__title\">Автокредит</div>\
        <div class=\"element__params\">\
          <div class=\"element__param\">36 мес</div>\
          <div class=\"element__param\">24%</div>\
        </div></div>";
    let offers = parse_asia_alliance(page).unwrap();
    assert_eq!(offers[0].interest_rate, "36 мес");
    assert_eq!(offers[0].credit_period, "24%");
    assert_eq!(offers[0].max_sum, "");
}

#[test]
fn params_outside_the_params_element_are_not_read() {
    let page = "<div class=\"element--crediting\">\
        <div class=\"element__title\">Автокредит</div>\
        <div class=\"element__param\">stray</div>\
        <div class=\"element__params\"><div class=\"element__param\">24%</div></div>\
        </div>";
    let offers = parse_asia_alliance(page).unwrap();
    assert_eq!(offers[0].interest_rate, "24%");
    assert_eq!(offers[0].credit_period, "");
}

#[test]
fn failures_are_told_in_words() {
    assert_eq!(
        CrawlError::NetworkError { reason: "timed out".to_string() }.message(),
        "network error: timed out"
    );
    assert_eq!(
        CrawlError::UnexpectedStatus { status: 500 }.message(),
        "unexpected status: 500"
    );
    assert_eq!(CrawlError::DecodeError.message(), "undecodable body");
    assert_eq!(
        CrawlError::MissingField { field: "id".to_string() }.message(),
        "missing field: id"
    );
}

#[test]
fn title_is_kept_as_the_site_writes_it() {
    let listing = r#"{"results":[{"title_ru": "Автокредit", "max_amount_ru": "<p>100 000 000 UZS</p>", "credit_period_ru": "<h1>36 месяцев</h1>", "id": 7}]}"#;
    let (_, offers) = run(Source::Asaka, Some("http://h"), vec![ok(listing), ok(DETAIL)]);
    let offers = offers.unwrap();
    assert_eq!(offers[0].title, "Автокредit");
    assert_eq!(offers[0].credit_type, CreditType::Other);
    assert_eq!(offers[0].interest_rate, "24%");
}

#[test]
fn heading_decides_the_amount_where_both_are_there() {
    let listing = r#"{"results":[
        {"title_ru": "A", "max_amount_ru": "<p>from the paragraph</p><h3>from the heading</h3>", "id": 1},
        {"title_ru": "B", "max_amount_ru": "<h3>heading first</h3><p>paragraph</p>", "id": 2},
        {"title_ru": "C", "max_amount_ru": "<p>only a paragraph</p>", "id": 3},
        {"title_ru": "D", "max_amount_ru": "<p>paragraph</p><h3> </h3>", "id": 4}
    ]}"#;
    let drafts = parse_asaka_listing(listing).unwrap();
    assert_eq!(drafts[0].offer.max_sum, "from the heading");
    assert_eq!(drafts[1].offer.max_sum, "heading first");
    assert_eq!(drafts[2].offer.max_sum, "only a paragraph");
    assert_eq!(drafts[3].offer.max_sum, "");
    let row = vec![
        (Some("T".to_string()), Some("\"T\"".to_string())),
        (Some("<p>p</p><h3>h</h3>".to_string()), None),
        (None, None),
        (None, Some("1".to_string())),
    ];
    assert_eq!(draft_from_row(&row).unwrap().offer.max_sum, "h");
}

#[test]
fn body_that_is_no_text_is_a_decode_error() {
    let (_, offers) = run(
        Source::Asaka,
        Some("http://h"),
        vec![Reply::Unreadable { status: 200 }],
    );
    assert!(matches!(offers, Err(CrawlError::DecodeError)));
    let (_, offers) = run(
        Source::Asaka,
        Some("http://h"),
        vec![ok(LISTING), Reply::Unreadable { status: 200 }],
    );
    assert!(matches!(offers, Err(CrawlError::DecodeError)));
    let (_, offers) = run(
        Source::AsiaAlliance,
        None,
        vec![Reply::Unreadable { status: 502 }],
    );
    assert!(matches!(
        offers,
        Err(CrawlError::UnexpectedStatus { status: 502 })
    ));
}
