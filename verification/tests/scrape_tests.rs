use webscrape::scrape::{Scrape, Scraper, parse_document, scrape_text};
use webscrape::scrape_error::ScrapeError;

#[test]
fn all_returns_every_match_in_document_order() {
    let html = parse_document("<ul><li>a</li><li>b</li></ul>");
    let scraper = Scraper::from_document(&html).unwrap();
    assert_eq!(scraper.all_text("li").unwrap(), vec!["a".to_string(), "b".to_string()]);
}

#[test]
fn only_fails_on_multiple_matches() {
    let html = parse_document("<ul><li>a</li><li>b</li></ul>");
    let scraper = Scraper::from_document(&html).unwrap();
    match scraper.only_text("li") {
        Err(ScrapeError::ExpectedOneGotMultiple { selection }) => assert_eq!(selection, "li"),
        other => panic!("expected ExpectedOneGotMultiple, got {other:?}"),
    }
}

#[test]
fn optional_fails_on_multiple_matches() {
    let html = parse_document("<ul><li>a</li><li>b</li></ul>");
    let scraper = Scraper::from_document(&html).unwrap();
    match scraper.optional_text("li") {
        Err(ScrapeError::ExpectedOptionalGotMultiple { selection }) => {
            assert_eq!(selection, "li")
        }
        other => panic!("expected ExpectedOptionalGotMultiple, got {other:?}"),
    }
}

#[test]
fn only_fails_on_no_match() {
    let html = parse_document("<ul></ul>");
    let scraper = Scraper::from_document(&html).unwrap();
    match scraper.only_text("li") {
        Err(ScrapeError::ExpectedOneGotNone { selection }) => assert_eq!(selection, "li"),
        other => panic!("expected ExpectedOneGotNone, got {other:?}"),
    }
}

#[test]
fn optional_returns_nothing_on_no_match() {
    let html = parse_document("<ul></ul>");
    let scraper = Scraper::from_document(&html).unwrap();
    assert_eq!(scraper.optional_text("li"), Ok(None));
}

#[test]
fn optional_returns_the_single_match() {
    let html = parse_document("<ul><li>a</li></ul>");
    let scraper = Scraper::from_document(&html).unwrap();
    assert_eq!(scraper.optional_text("li"), Ok(Some("a".to_string())));
    assert_eq!(scraper.only_text("li"), Ok("a".to_string()));
}

#[test]
fn invalid_selector_fails_every_combinator_alike() {
    let html = parse_document("<ul><li>a</li></ul>");
    let scraper = Scraper::from_document(&html).unwrap();
    fn expect_invalid<T: std::fmt::Debug>(result: Result<T, ScrapeError>) {
        match result {
            Err(ScrapeError::InvalidSelection { selection, .. }) => assert_eq!(selection, "li["),
            other => panic!("expected InvalidSelection, got {other:?}"),
        }
    }
    expect_invalid(scraper.all_text("li["));
    expect_invalid(scraper.all_html("li["));
    expect_invalid(scraper.only_text("li["));
    expect_invalid(scraper.only_html("li["));
    expect_invalid(scraper.optional_text("li["));
    expect_invalid(scraper.optional_html("li["));
    expect_invalid(scraper.all("li[", scrape_text));
    expect_invalid(scraper.only("li[", scrape_text));
    expect_invalid(scraper.optional("li[", scrape_text));
    expect_invalid(scraper.only_att("li[", "href"));
}

#[test]
fn only_att_reads_the_attribute() {
    let html = parse_document("<p><a href=\"/target\">go</a></p>");
    let scraper = Scraper::from_document(&html).unwrap();
    assert_eq!(scraper.only_att("a", "href"), Ok("/target".to_string()));
}

#[test]
fn only_att_missing_attribute_counts_as_none() {
    let html = parse_document("<p><a href=\"/target\">go</a></p>");
    let scraper = Scraper::from_document(&html).unwrap();
    match scraper.only_att("a", "title") {
        Err(ScrapeError::ExpectedOneGotNone { selection }) => assert_eq!(selection, "a"),
        other => panic!("expected ExpectedOneGotNone, got {other:?}"),
    }
}

#[test]
fn all_html_serializes_each_matchs_inner_markup() {
    let html = parse_document("<ul><li><b>a</b></li><li>b</li></ul>");
    let scraper = Scraper::from_document(&html).unwrap();
    assert_eq!(
        scraper.all_html("li").unwrap(),
        vec!["<b>a</b>".to_string(), "b".to_string()],
    );
    assert_eq!(scraper.only_html("ul li:first-child"), Ok("<b>a</b>".to_string()));
}

#[test]
fn all_short_circuits_on_the_first_error() {
    let html = parse_document("<ul><li>1</li><li>no</li><li>3</li></ul>");
    let scraper = Scraper::from_document(&html).unwrap();
    let result: Result<Vec<i64>, ScrapeError> = scraper.all("li", |s: Scraper| {
        let text = scrape_text(s).unwrap();
        text.parse::<i64>().map_err(|_| ScrapeError::Other(text))
    });
    assert_eq!(result, Err(ScrapeError::Other("no".to_string())));
}

#[test]
fn all_flat_drops_matches_without_a_value() {
    let html = parse_document("<ul><li>1</li><li>no</li><li>3</li></ul>");
    let scraper = Scraper::from_document(&html).unwrap();
    let result: Result<Vec<i64>, ScrapeError> = scraper.all_flat("li", |s: Scraper| {
        Ok(scrape_text(s).unwrap().parse::<i64>().ok())
    });
    assert_eq!(result, Ok(vec![1, 3]));
}

#[test]
fn only_evaluates_the_first_match_before_counting() {
    // the extraction function's error wins over the multiple-match error
    let html = parse_document("<ul><li>a</li><li>b</li></ul>");
    let scraper = Scraper::from_document(&html).unwrap();
    let result: Result<String, ScrapeError> =
        scraper.only("li", |_s: Scraper| Err(ScrapeError::Other("first".to_string())));
    assert_eq!(result, Err(ScrapeError::Other("first".to_string())));
}

#[test]
fn element_hands_out_the_wrapped_node() {
    let html = parse_document("<p id=\"x\">text</p>");
    let scraper = Scraper::from_document(&html).unwrap();
    let inner = scraper.only("p", |s: Scraper| Ok(s.element().html())).unwrap();
    assert_eq!(inner, "<p id=\"x\">text</p>");
}

#[test]
fn scrape_error_messages_name_the_selection() {
    let e = ScrapeError::ExpectedOneGotNone { selection: "li".to_string() };
    assert_eq!(e.message(), "expected one, got none: li");
    let e = ScrapeError::InvalidSelection {
        selection: "li[".to_string(),
        message: "unmatched bracket".to_string(),
    };
    assert_eq!(e.message(), "invalid selection 'li[': unmatched bracket");
    let e = ScrapeError::Other("boom".to_string());
    assert_eq!(e.message(), "error scraping page: boom");
}

struct Item {
    name: String,
}

impl Scrape for Item {
    fn scrape(s: Scraper<'_>) -> Result<Item, ScrapeError> {
        Ok(Item { name: s.only_text(".name")? })
    }
}

#[test]
fn scrape_trait_builds_an_element_from_markup() {
    let html = parse_document("<div><span class=\"name\">widget</span></div>");
    let scraper = Scraper::from_document(&html).unwrap();
    let item = Item::scrape(scraper).unwrap();
    assert_eq!(item.name, "widget");
}

#[test]
fn from_document_finds_the_root_of_any_parsed_document() {
    for text in ["", "plain text", "<ul><li>a</li></ul>"] {
        let html = parse_document(text);
        assert!(Scraper::from_document(&html).is_some());
    }
}

#[test]
fn only_att_first_match_decides_before_counting() {
    // the first match carries no attribute: got-none wins over got-multiple
    let html = parse_document("<p><a>one</a><a href=\"x\">two</a></p>");
    let scraper = Scraper::from_document(&html).unwrap();
    match scraper.only_att("a", "href") {
        Err(ScrapeError::ExpectedOneGotNone { selection }) => assert_eq!(selection, "a"),
        other => panic!("expected ExpectedOneGotNone, got {other:?}"),
    }
    // the first match carries the attribute: multiple matches are the fault
    let html = parse_document("<p><a href=\"x\">1</a><a href=\"y\">2</a></p>");
    let scraper = Scraper::from_document(&html).unwrap();
    match scraper.only_att("a", "href") {
        Err(ScrapeError::ExpectedOneGotMultiple { selection }) => assert_eq!(selection, "a"),
        other => panic!("expected ExpectedOneGotMultiple, got {other:?}"),
    }
}
