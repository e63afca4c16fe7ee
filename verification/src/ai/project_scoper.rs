//! Scoping a project: what is asked of the collaborator, and what is made of
//! its reply. The exchange itself is the caller's; the reply is handed on as
//! it came, neither parsed nor stored.

use crate::error::EngineError;
use vstd::prelude::*;
use vstd::string::StringExecFns;

verus! {

/// The address of the collaborator, up to the credential.
pub open spec fn endpoint() -> Seq<char> {
    "https://generativelanguage.googleapis.com/v1beta/models/gemini-2.5-pro:generateContent?key="@
}

/// The prompt up to the project description.
pub open spec fn prompt_opening() -> Seq<char> {
    "You are an expert project manager. A user has provided the following project description: '"@
}

/// The prompt from the project description on.
pub open spec fn prompt_closing() -> Seq<char> {
    "'.\n        Based on this description, generate a list of high-level tasks required to complete the project.\n        Return the tasks as a JSON array of strings. For example: [\"Task 1\", \"Task 2\", \"Task 3\"].\n        IMPORTANT: Only output the raw JSON array. Do not include any other text, explanations, or Markdown code blocks like ```json."@
}

/// What a refusal by status is reported with, before the status itself.
pub open spec fn refusal_opening() -> Seq<char> {
    "API Error: "@
}

/// What is reported of a reply that holds no text.
pub open spec fn no_text() -> Seq<char> {
    "No text found in AI response"@
}

/// One part of a request: a text.
pub struct Part {
    pub text: String,
}

/// The parts of one turn of a request.
pub struct Content {
    pub parts: Vec<Part>,
}

/// The body of a request, in the collaborator's shape.
pub struct GeminiRequest {
    pub contents: Vec<Content>,
}

/// One part of a reply: a text.
pub struct PartResponse {
    pub text: String,
}

/// The parts of one candidate.
pub struct ContentResponse {
    pub parts: Vec<PartResponse>,
}

/// One of the answers that a reply offers.
pub struct Candidate {
    pub content: ContentResponse,
}

/// The body of a reply, in the collaborator's shape.
pub struct GeminiResponse {
    pub candidates: Vec<Candidate>,
}

/// A request to the collaborator.
pub struct ScopeRequest {
    pub url: String,
    pub body: GeminiRequest,
}

/// How an exchange with the collaborator ended.
pub enum Exchange {
    /// No reply was had, or its body could not be read; the text is the
    /// client's account.
    Failed(String),
    /// A reply came. `status_line` is the status as the client writes it;
    /// `body` is read only where the status is a success.
    Replied { status: u16, status_line: String, body: GeminiResponse },
}

impl GeminiRequest {
    /// Whether this request holds `prompt` as its one part.
    pub open spec fn asks(self, prompt: Seq<char>) -> bool {
        &&& self.contents@.len() == 1
        &&& self.contents@[0].parts@.len() == 1
        &&& self.contents@[0].parts@[0].text@ == prompt
    }
}

impl GeminiResponse {
    /// The text of the first part of the first candidate.
    pub open spec fn first_text(self) -> Option<Seq<char>> {
        if self.candidates@.len() > 0 && self.candidates@[0].content.parts@.len() > 0 {
            Some(self.candidates@[0].content.parts@[0].text@)
        } else {
            None
        }
    }
}

/// What scoping makes of an exchange.
pub open spec fn scoped(exchange: Exchange) -> Result<Seq<char>, Seq<char>> {
    match exchange {
        Exchange::Failed(account) => Err(account@),
        Exchange::Replied { status, status_line, body } => {
            if !(200 <= status < 300) {
                Err(refusal_opening() + status_line@)
            } else {
                match body.first_text() {
                    Some(text) => Ok(text),
                    None => Err(no_text()),
                }
            }
        },
    }
}

/// Whether a status says that the request succeeded.
pub fn is_success(status: u16) -> (success: bool)
    ensures
        success == (200 <= status < 300),
{
    200 <= status && status < 300
}

/// The address to send a request to.
pub fn endpoint_url(api_key: &str) -> (url: String)
    ensures
        url@ == endpoint() + api_key@,
{
    String::from_str(
        "https://generativelanguage.googleapis.com/v1beta/models/gemini-2.5-pro:generateContent?key=",
    ).concat(api_key)
}

/// The prompt that asks for the tasks of a project.
pub fn build_prompt(project_description: &str) -> (prompt: String)
    ensures
        prompt@ == prompt_opening() + project_description@ + prompt_closing(),
{
    String::from_str(
        "You are an expert project manager. A user has provided the following project description: '",
    ).concat(project_description).concat(
        "'.\n        Based on this description, generate a list of high-level tasks required to complete the project.\n        Return the tasks as a JSON array of strings. For example: [\"Task 1\", \"Task 2\", \"Task 3\"].\n        IMPORTANT: Only output the raw JSON array. Do not include any other text, explanations, or Markdown code blocks like ```json.",
    )
}

/// The request that asks for the tasks of a project.
pub fn scope_request(project_description: &str, api_key: &str) -> (request: ScopeRequest)
    ensures
        request.url@ == endpoint() + api_key@,
        request.body.asks(prompt_opening() + project_description@ + prompt_closing()),
{
    let mut parts: Vec<Part> = Vec::new();
    parts.push(Part { text: build_prompt(project_description) });
    let mut contents: Vec<Content> = Vec::new();
    contents.push(Content { parts });
    ScopeRequest { url: endpoint_url(api_key), body: GeminiRequest { contents } }
}

/// The suggested tasks, as the raw text of the reply: the text of the first
/// part of the first candidate, unchanged. A failed exchange, a status that
/// is no success and a reply without text are upstream errors.
pub fn scope_project(exchange: Exchange) -> (suggested: Result<String, EngineError>)
    ensures
        match scoped(exchange) {
            Ok(text) => suggested matches Ok(raw) && raw@ == text,
            Err(account) => suggested matches Err(EngineError::UpstreamError(said)) && said@
                == account,
        },
{
    match exchange {
        Exchange::Failed(account) => Err(EngineError::UpstreamError(account)),
        Exchange::Replied { status, status_line, body } => {
            if !is_success(status) {
                return Err(
                    EngineError::UpstreamError(
                        String::from_str("API Error: ").concat(status_line.as_str()),
                    ),
                );
            }
            if body.candidates.len() > 0 && body.candidates[0].content.parts.len() > 0 {
                Ok(body.candidates[0].content.parts[0].text.clone())
            } else {
                Err(EngineError::UpstreamError(String::from_str("No text found in AI response")))
            }
        },
    }
}

} // verus!
