use vstd::prelude::*;
use crate::text::{spec_trim, trim_str};

verus! {

/// A scraped web page: the URL it came from, its title, the visible text
/// extracted from the body, and the raw HTML it was built from.
#[derive(Debug)]
pub struct WebPage {
    pub url: String,
    pub title: String,
    pub content: String,
    pub html: String,
}

pub ghost struct WebPageView {
    pub url: Seq<char>,
    pub title: Seq<char>,
    pub content: Seq<char>,
    pub html: Seq<char>,
}

impl View for WebPage {
    type V = WebPageView;

    open spec fn view(&self) -> WebPageView {
        WebPageView {
            url: self.url@,
            title: self.title@,
            content: self.content@,
            html: self.html@,
        }
    }
}

/// What can go wrong while fetching and parsing a page.
#[derive(Debug, PartialEq)]
pub enum ScraperError {
    NetworkError(String),
    InvalidUrl(String),
    ParseError(String),
    TimeoutError,
    EmptyContent,
}

pub ghost enum ScraperErrorView {
    NetworkError(Seq<char>),
    InvalidUrl(Seq<char>),
    ParseError(Seq<char>),
    TimeoutError,
    EmptyContent,
}

impl View for ScraperError {
    type V = ScraperErrorView;

    open spec fn view(&self) -> ScraperErrorView {
        match self {
            ScraperError::NetworkError(d) => ScraperErrorView::NetworkError(d@),
            ScraperError::InvalidUrl(d) => ScraperErrorView::InvalidUrl(d@),
            ScraperError::ParseError(d) => ScraperErrorView::ParseError(d@),
            ScraperError::TimeoutError => ScraperErrorView::TimeoutError,
            ScraperError::EmptyContent => ScraperErrorView::EmptyContent,
        }
    }
}

pub open spec fn spec_scraper_error_text(e: ScraperErrorView) -> Seq<char> {
    match e {
        ScraperErrorView::NetworkError(d) => "Network error: "@ + d,
        ScraperErrorView::InvalidUrl(d) => "Invalid URL: "@ + d,
        ScraperErrorView::ParseError(d) => "Parse error: "@ + d,
        ScraperErrorView::TimeoutError => "Request timeout"@,
        ScraperErrorView::EmptyContent => "No content found"@,
    }
}

impl ScraperError {
    /// A one-line description of the error, for reporting.
    pub fn describe(&self) -> (r: String)
        ensures
            r@ == spec_scraper_error_text(self@),
    {
        match self {
            ScraperError::NetworkError(d) => String::from_str("Network error: ").concat(
                d.as_str(),
            ),
            ScraperError::InvalidUrl(d) => String::from_str("Invalid URL: ").concat(d.as_str()),
            ScraperError::ParseError(d) => String::from_str("Parse error: ").concat(d.as_str()),
            ScraperError::TimeoutError => String::from_str("Request timeout"),
            ScraperError::EmptyContent => String::from_str("No content found"),
        }
    }
}

/// The transport outcome of one GET against the page's URL, as the caller
/// that performed it reports it: the body text read in full, a timeout, or
/// another transport failure with its description.
pub enum FetchEvent {
    Body(String),
    TimedOut,
    Failed(String),
}

pub ghost enum FetchEventView {
    Body(Seq<char>),
    TimedOut,
    Failed(Seq<char>),
}

impl View for FetchEvent {
    type V = FetchEventView;

    open spec fn view(&self) -> FetchEventView {
        match self {
            FetchEvent::Body(b) => FetchEventView::Body(b@),
            FetchEvent::TimedOut => FetchEventView::TimedOut,
            FetchEvent::Failed(d) => FetchEventView::Failed(d@),
        }
    }
}

/// The one GET the fetcher asks its caller to perform: the URL, with the
/// fixed total timeout in seconds.
#[derive(Debug)]
pub struct FetchPlan {
    pub url: String,
    pub timeout_secs: u64,
}

/// The text of the first `title` element of the parsed document, its
/// descendant text nodes concatenated in document order; `None` when the
/// document has no `title` element.
pub uninterp spec fn title_text_of(html: Seq<char>) -> Option<Seq<char>>;

/// The text of the first `body` element of the parsed document, its
/// descendant text nodes concatenated in document order; `None` when the
/// document has no `body` element.
pub uninterp spec fn body_text_of(html: Seq<char>) -> Option<Seq<char>>;

/// Relies on scraper's `Html::parse_document`, `Selector::parse`,
/// `Html::select` and `ElementRef::text`: parsing is deterministic, so the
/// concatenated text of the first `title` element is a function of the HTML
/// text alone, and there is such an element exactly when the result is
/// `Some`.  The fixed selector "title" is valid CSS, so `Selector::parse`
/// cannot fail on it.
#[verifier::external_body]
fn first_title_text(html: &str) -> (r: Option<String>)
    ensures
        r is Some <==> title_text_of(html@) is Some,
        r matches Some(t) ==> title_text_of(html@) == Some(t@),
{
    let document = scraper::Html::parse_document(html);
    let selector = match scraper::Selector::parse("title") {
        Ok(s) => s,
        Err(_) => return None,
    };
    match document.select(&selector).next() {
        Some(element) => Some(element.text().collect()),
        None => None,
    }
}

/// Relies on scraper's `Html::parse_document`, `Selector::parse`,
/// `Html::select` and `ElementRef::text`, as `first_title_text` does, for the
/// first `body` element.  The fixed selector "body" is valid CSS, so
/// `Selector::parse` cannot fail on it.
#[verifier::external_body]
fn first_body_text(html: &str) -> (r: Option<String>)
    ensures
        r is Some <==> body_text_of(html@) is Some,
        r matches Some(t) ==> body_text_of(html@) == Some(t@),
{
    let document = scraper::Html::parse_document(html);
    let selector = match scraper::Selector::parse("body") {
        Ok(s) => s,
        Err(_) => return None,
    };
    match document.select(&selector).next() {
        Some(element) => Some(element.text().collect()),
        None => None,
    }
}

/// The sentinel title used when the document has none.
pub open spec fn default_title() -> Seq<char> {
    "No title found"@
}

/// The detail carried by the rejection of an empty URL.
pub open spec fn empty_url_detail() -> Seq<char> {
    "URL cannot be empty"@
}

/// The page title: the first `title` element's text, or the sentinel.
pub open spec fn spec_page_title(html: Seq<char>) -> Seq<char> {
    match title_text_of(html) {
        Some(t) => t,
        None => default_title(),
    }
}

/// The page content: the first `body` element's text, or, when the document
/// has no `body` element, the raw HTML itself.
pub open spec fn spec_page_content(html: Seq<char>) -> Seq<char> {
    match body_text_of(html) {
        Some(t) => t,
        None => html,
    }
}

/// What parsing a fetched body yields: the rejection of a blank body, or the
/// fully populated page record.
pub open spec fn spec_parse_response(html: Seq<char>, url: Seq<char>) -> Result<
    WebPageView,
    ScraperErrorView,
> {
    if spec_trim(html).len() == 0 {
        Err(ScraperErrorView::EmptyContent)
    } else {
        Ok(
            WebPageView {
                url: url,
                title: spec_page_title(html),
                content: spec_page_content(html),
                html: html,
            },
        )
    }
}

/// What scraping decides for a URL and a transport outcome.
pub open spec fn spec_scrape(url: Seq<char>, ev: FetchEventView) -> Result<
    WebPageView,
    ScraperErrorView,
> {
    if url.len() == 0 {
        Err(ScraperErrorView::InvalidUrl(empty_url_detail()))
    } else {
        match ev {
            FetchEventView::TimedOut => Err(ScraperErrorView::TimeoutError),
            FetchEventView::Failed(d) => Err(ScraperErrorView::NetworkError(d)),
            FetchEventView::Body(b) => spec_parse_response(b, url),
        }
    }
}

/// Law: what the parsed page shows of the document.  For a body that is not
/// all whitespace, parsing succeeds; the page's title is the first title
/// element's concatenated text, or the sentinel when the document has no
/// title element; and its content is the first body element's concatenated
/// text, or the raw HTML itself when the document has no body element.
pub proof fn lemma_page_extraction(html: Seq<char>, url: Seq<char>)
    requires
        spec_trim(html).len() > 0,
    ensures
        spec_parse_response(html, url) is Ok,
        title_text_of(html) matches Some(t) ==> spec_parse_response(html, url)->Ok_0.title == t,
        title_text_of(html) is None ==> spec_parse_response(html, url)->Ok_0.title
            == default_title(),
        body_text_of(html) matches Some(b) ==> spec_parse_response(html, url)->Ok_0.content == b,
        body_text_of(html) is None ==> spec_parse_response(html, url)->Ok_0.content == html,
{
}

/// Law: an empty URL is rejected before the network exists.  The outcome for
/// an empty URL is the invalid-URL error whatever any fetch returned, so no
/// fetch outcome can influence it and none needs to be produced.
pub proof fn lemma_empty_url_needs_no_fetch(url: Seq<char>, ev1: FetchEventView, ev2: FetchEventView)
    requires
        url.len() == 0,
    ensures
        spec_scrape(url, ev1) == spec_scrape(url, ev2),
        spec_scrape(url, ev1) == Err::<WebPageView, ScraperErrorView>(
            ScraperErrorView::InvalidUrl(empty_url_detail()),
        ),
{
}

/// Decides whether a fetch may be performed at all.  An empty URL is rejected
/// here, before any network action exists; a non-empty one yields the single
/// GET to perform, with the fixed 30-second timeout.
pub fn plan_fetch(url: &str) -> (r: Result<FetchPlan, ScraperError>)
    ensures
        r is Ok <==> url@.len() > 0,
        r matches Ok(p) ==> p.url@ == url@ && p.timeout_secs == 30,
        r matches Err(e) ==> e@ == ScraperErrorView::InvalidUrl(empty_url_detail()),
{
    if url.is_empty() {
        Err(ScraperError::InvalidUrl(String::from_str("URL cannot be empty")))
    } else {
        Ok(FetchPlan { url: String::from_str(url), timeout_secs: 30 })
    }
}

/// Parses a fetched body: rejects a blank one, otherwise extracts title and
/// body text, falling back to the sentinel title and to the raw HTML.
pub fn parse_response(html: &str, url: &str) -> (r: Result<WebPage, ScraperError>)
    ensures
        r is Ok <==> spec_parse_response(html@, url@) is Ok,
        r matches Ok(p) ==> Ok::<WebPageView, ScraperErrorView>(p@) == spec_parse_response(
            html@,
            url@,
        ),
        r matches Err(e) ==> Err::<WebPageView, ScraperErrorView>(e@) == spec_parse_response(
            html@,
            url@,
        ),
{
    let trimmed = trim_str(html);
    if trimmed.is_empty() {
        return Err(ScraperError::EmptyContent);
    }
    let title = match first_title_text(html) {
        Some(t) => t,
        None => String::from_str("No title found"),
    };
    let content = match first_body_text(html) {
        Some(c) => c,
        None => String::from_str(html),
    };
    Ok(
        WebPage {
            url: String::from_str(url),
            title: title,
            content: content,
            html: String::from_str(html),
        },
    )
}

/// Scrapes one page from the outcome of its fetch: an empty URL is rejected
/// without consulting the outcome at all, a timeout and a transport failure
/// are classified, and a read body is parsed into a page record.
pub fn scrape_webpage(url: &str, event: FetchEvent) -> (r: Result<WebPage, ScraperError>)
    ensures
        r is Ok <==> spec_scrape(url@, event@) is Ok,
        r matches Ok(p) ==> Ok::<WebPageView, ScraperErrorView>(p@) == spec_scrape(url@, event@),
        r matches Err(e) ==> Err::<WebPageView, ScraperErrorView>(e@) == spec_scrape(url@, event@),
{
    if url.is_empty() {
        return Err(ScraperError::InvalidUrl(String::from_str("URL cannot be empty")));
    }
    match event {
        FetchEvent::TimedOut => Err(ScraperError::TimeoutError),
        FetchEvent::Failed(d) => Err(ScraperError::NetworkError(d)),
        FetchEvent::Body(b) => parse_response(b.as_str(), url),
    }
}

/// The content of a scraped page alone.
pub fn get_webpage_content(url: &str, event: FetchEvent) -> (r: Result<String, ScraperError>)
    ensures
        r is Ok <==> spec_scrape(url@, event@) is Ok,
        r matches Ok(c) ==> spec_scrape(url@, event@) matches Ok(p) && c@ == p.content,
        r matches Err(e) ==> Err::<WebPageView, ScraperErrorView>(e@) == spec_scrape(url@, event@),
{
    match scrape_webpage(url, event) {
        Ok(page) => Ok(page.content),
        Err(e) => Err(e),
    }
}

} // verus!
