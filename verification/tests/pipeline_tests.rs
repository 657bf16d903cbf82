use recipebook_api::llm::{HttpEvent, LlmError};
use recipebook_api::pipeline::{run_pipeline, PipelineError};
use recipebook_api::scrape::{FetchEvent, ScraperError};

fn envelope_with_content(content: &str) -> String {
    format!(
        "{{\"choices\":[{{\"message\":{{\"role\":\"assistant\",\"content\":\"{}\"}}}}]}}",
        content.replace('\\', "\\\\").replace('"', "\\\"")
    )
}

#[test]
fn end_to_end_fixed_page_and_reply() {
    let html = "<html><head><title>Lamingtons</title></head><body>1 cup flour, 2 eggs. Prep 20 min.</body></html>";
    let reply = "{\"ingredients\":[\"1 cup flour\",\"2 eggs\"],\"prep_time\":\"20 min\",\"cook_time\":null,\"total_time\":null,\"servings\":null}";
    let info = run_pipeline(
        "https://example.com/lamingtons",
        FetchEvent::Body(html.to_string()),
        &HttpEvent::Response { status: 200, body: envelope_with_content(reply) },
    )
    .unwrap();
    assert_eq!(info.ingredients, vec!["1 cup flour".to_string(), "2 eggs".to_string()]);
    assert_eq!(info.prep_time, Some("20 min".to_string()));
    assert_eq!(info.cook_time, None);
    assert_eq!(info.total_time, None);
    assert_eq!(info.servings, None);
}

#[test]
fn scrape_failure_halts_the_run() {
    let good_reply = HttpEvent::Response {
        status: 200,
        body: envelope_with_content("{\"ingredients\":[\"x\"]}"),
    };
    let result = run_pipeline("", FetchEvent::Body("<html>x</html>".to_string()), &good_reply);
    assert!(matches!(result, Err(PipelineError::Scrape(ScraperError::InvalidUrl(_)))));
    let result = run_pipeline("http://x", FetchEvent::TimedOut, &good_reply);
    assert!(matches!(result, Err(PipelineError::Scrape(ScraperError::TimeoutError))));
}

#[test]
fn extraction_failure_is_reported_as_such() {
    let result = run_pipeline(
        "http://x",
        FetchEvent::Body("<html><body>some page</body></html>".to_string()),
        &HttpEvent::Failed("connection refused".to_string()),
    );
    match result {
        Err(PipelineError::Llm(LlmError::NetworkError(detail))) => {
            assert_eq!(detail, "connection refused")
        },
        other => panic!("expected a network error, got {:?}", other),
    }
}

#[test]
fn pipeline_error_descriptions_pass_through() {
    assert_eq!(
        PipelineError::Scrape(ScraperError::TimeoutError).describe(),
        "Request timeout"
    );
    assert_eq!(
        PipelineError::Llm(LlmError::InvalidResponse).describe(),
        "Invalid response from API"
    );
}
