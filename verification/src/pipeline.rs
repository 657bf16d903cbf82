use vstd::prelude::*;
use crate::scrape::{
    scrape_webpage, spec_scrape, spec_scraper_error_text, FetchEvent, ScraperError,
    ScraperErrorView,
};
use crate::llm::{
    chat_choices_len_of, extract_recipe_info, json_text_ok, recipe_wf, spec_api_error_text,
    spec_extracted, spec_llm_error_text, spec_reply_readable, spec_status_success, HttpEvent,
    HttpEventView, LlmError, LlmErrorView, RecipeInfo,
};

verus! {

/// The first failure of a pipeline run, tagged by the stage it came from.
#[derive(Debug, PartialEq)]
pub enum PipelineError {
    Scrape(ScraperError),
    Llm(LlmError),
}

pub ghost enum PipelineErrorView {
    Scrape(ScraperErrorView),
    Llm(LlmErrorView),
}

impl View for PipelineError {
    type V = PipelineErrorView;

    open spec fn view(&self) -> PipelineErrorView {
        match self {
            PipelineError::Scrape(e) => PipelineErrorView::Scrape(e@),
            PipelineError::Llm(e) => PipelineErrorView::Llm(e@),
        }
    }
}

pub open spec fn spec_pipeline_error_text(e: PipelineErrorView) -> Seq<char> {
    match e {
        PipelineErrorView::Scrape(inner) => spec_scraper_error_text(inner),
        PipelineErrorView::Llm(inner) => spec_llm_error_text(inner),
    }
}

impl PipelineError {
    /// A one-line description of the failed stage's error, for reporting.
    pub fn describe(&self) -> (r: String)
        ensures
            r@ == spec_pipeline_error_text(self@),
    {
        match self {
            PipelineError::Scrape(e) => e.describe(),
            PipelineError::Llm(e) => e.describe(),
        }
    }
}

/// Runs the two-stage pipeline for one URL on the outcomes of its two
/// outside calls.  A scrape failure is surfaced at once, whatever the second
/// outcome holds: the extraction stage is never consulted.  On a scraped
/// page, the extraction outcome is surfaced as it stands, success or failure.
pub fn run_pipeline(url: &str, fetch_event: FetchEvent, llm_event: &HttpEvent) -> (r: Result<
    RecipeInfo,
    PipelineError,
>)
    ensures
        spec_scrape(url@, fetch_event@) matches Err(e) ==> (r matches Err(pe) && pe@
            == PipelineErrorView::Scrape(e)),
        spec_scrape(url@, fetch_event@) is Ok ==> {
            &&& llm_event@ matches HttpEventView::Failed(d) ==> (r matches Err(pe) && pe@
                == PipelineErrorView::Llm(LlmErrorView::NetworkError(d)))
            &&& llm_event@ matches HttpEventView::Response { status, body } ==> {
                &&& !spec_status_success(status) ==> (r matches Err(pe) && pe@
                    == PipelineErrorView::Llm(
                    LlmErrorView::ApiError(spec_api_error_text(status, body)),
                ))
                &&& spec_status_success(status) ==> {
                    &&& (r is Ok <==> spec_reply_readable(body))
                    &&& (r matches Ok(info) ==> info@ == spec_extracted(body))
                    &&& (r matches Ok(info) ==> recipe_wf(info@))
                    &&& ((json_text_ok(body) && chat_choices_len_of(body) == Some(0int)) <==> (
                    r matches Err(pe) && pe@ == PipelineErrorView::Llm(
                        LlmErrorView::InvalidResponse,
                    )))
                    &&& (r matches Err(pe) ==> (pe@ == PipelineErrorView::Llm(
                        LlmErrorView::InvalidResponse,
                    ) || pe@ matches PipelineErrorView::Llm(LlmErrorView::ParseError(_))))
                }
            }
        },
{
    match scrape_webpage(url, fetch_event) {
        Err(e) => Err(PipelineError::Scrape(e)),
        Ok(_page) => match extract_recipe_info(llm_event) {
            Ok(info) => Ok(info),
            Err(e) => Err(PipelineError::Llm(e)),
        },
    }
}

} // verus!
