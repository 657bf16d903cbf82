use recipebook_api::scrape::{
    get_webpage_content, parse_response, plan_fetch, scrape_webpage, FetchEvent, ScraperError,
};

#[test]
fn test_invalid_url() {
    let result = scrape_webpage("", FetchEvent::Body(String::from("<html></html>")));
    assert!(matches!(result, Err(ScraperError::InvalidUrl(_))));
}

#[test]
fn test_empty_url() {
    let result = get_webpage_content("", FetchEvent::Body(String::from("<html></html>")));
    assert!(result.is_err());
}

#[test]
fn plan_fetch_rejects_empty_url_before_any_fetch() {
    match plan_fetch("") {
        Err(ScraperError::InvalidUrl(detail)) => assert_eq!(detail, "URL cannot be empty"),
        other => panic!("expected InvalidUrl, got {:?}", other),
    }
}

#[test]
fn plan_fetch_keeps_url_and_fixed_timeout() {
    let plan = plan_fetch("https://example.com/recipe").unwrap();
    assert_eq!(plan.url, "https://example.com/recipe");
    assert_eq!(plan.timeout_secs, 30);
}

#[test]
fn title_is_the_title_elements_text() {
    let html = "<html><head><title>Hello Cake</title></head><body>Hi</body></html>";
    let page = parse_response(html, "http://x").unwrap();
    assert_eq!(page.title, "Hello Cake");
}

#[test]
fn title_text_is_taken_verbatim() {
    // a title element holds raw text, so markup inside it is literal
    let html = "<html><head><title>Hello <b>Cake</b></title></head><body>Hi</body></html>";
    let page = parse_response(html, "http://x").unwrap();
    assert_eq!(page.title, "Hello <b>Cake</b>");
}

#[test]
fn missing_title_falls_back_to_sentinel() {
    let html = "<html><body>Hi there</body></html>";
    let page = parse_response(html, "http://x").unwrap();
    assert_eq!(page.title, "No title found");
}

#[test]
fn content_concatenates_body_text_nodes() {
    let html = "<html><body>1 cup <b>flour</b>, 2 eggs</body></html>";
    let page = parse_response(html, "http://x").unwrap();
    assert_eq!(page.content, "1 cup flour, 2 eggs");
}

#[test]
fn page_keeps_url_and_raw_html() {
    let html = "<html><head><title>T</title></head><body>B</body></html>";
    let page = parse_response(html, "http://example.org/p").unwrap();
    assert_eq!(page.url, "http://example.org/p");
    assert_eq!(page.html, html);
}

#[test]
fn blank_body_is_empty_content() {
    let result = scrape_webpage("http://x", FetchEvent::Body(String::from("  \n\t ")));
    assert!(matches!(result, Err(ScraperError::EmptyContent)));
}

#[test]
fn timeout_event_is_classified() {
    let result = scrape_webpage("http://x", FetchEvent::TimedOut);
    assert!(matches!(result, Err(ScraperError::TimeoutError)));
}

#[test]
fn fetch_transport_failure_keeps_its_detail() {
    let result = scrape_webpage("http://x", FetchEvent::Failed(String::from("dns failure")));
    match result {
        Err(ScraperError::NetworkError(detail)) => assert_eq!(detail, "dns failure"),
        other => panic!("expected NetworkError, got {:?}", other),
    }
}

#[test]
fn content_is_returned_alone() {
    let html = "<html><body>Just this text</body></html>";
    let content = get_webpage_content("http://x", FetchEvent::Body(String::from(html))).unwrap();
    assert_eq!(content, "Just this text");
}

#[test]
fn scraper_error_descriptions() {
    assert_eq!(ScraperError::TimeoutError.describe(), "Request timeout");
    assert_eq!(ScraperError::EmptyContent.describe(), "No content found");
    assert_eq!(
        ScraperError::InvalidUrl(String::from("URL cannot be empty")).describe(),
        "Invalid URL: URL cannot be empty"
    );
    assert_eq!(
        ScraperError::NetworkError(String::from("refused")).describe(),
        "Network error: refused"
    );
    assert_eq!(ScraperError::ParseError(String::from("bad")).describe(), "Parse error: bad");
}
