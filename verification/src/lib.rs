//! A two-stage recipe pipeline: fetch a web page and extract its readable
//! text, then ask a chat-completion endpoint for structured recipe data and
//! read its reply strictly.  The decisions of both stages are verified; the
//! network calls themselves are performed by the caller, which hands their
//! outcomes in as plain events.

pub mod llm;
pub mod pipeline;
pub mod scrape;
pub mod text;

pub use llm::{ChatMessage, ChatRequest, HttpEvent, JsonField, LlmError, RecipeFields, RecipeInfo};
pub use pipeline::PipelineError;
pub use scrape::{FetchEvent, FetchPlan, ScraperError, WebPage};
