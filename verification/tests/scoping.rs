use backend::ai::project_scoper::{
    build_prompt, endpoint_url, is_success, scope_project, scope_request, Candidate,
    ContentResponse, Exchange, GeminiResponse, PartResponse,
};
use backend::error::{EngineError, ErrorKind, StoreFailure};
use backend::graphql::schema::MutationRoot;

fn reply(texts: &[&[&str]]) -> GeminiResponse {
    GeminiResponse {
        candidates: texts
            .iter()
            .map(|parts| Candidate {
                content: ContentResponse {
                    parts: parts.iter().map(|t| PartResponse { text: t.to_string() }).collect(),
                },
            })
            .collect(),
    }
}

fn replied(status: u16, line: &str, body: GeminiResponse) -> Exchange {
    Exchange::Replied { status, status_line: line.to_string(), body }
}

#[test]
fn suggested_tasks_are_the_raw_text_of_the_reply() {
    let request = scope_request("Build a mobile app", "k");
    assert!(request.body.contents[0].parts[0].text.contains("'Build a mobile app'"));
    let raw = "[\"Design UI\", \"Build backend\",  \"Ship\"]\n";
    let text = MutationRoot.scope_project_with_ai(replied(200, "200 OK", reply(&[&[raw]])));
    assert_eq!(text, Ok(raw.to_string()));
}

#[test]
fn text_that_is_no_json_is_handed_on_as_it_came() {
    let raw = "```json\nnot even json";
    assert_eq!(
        scope_project(replied(200, "200 OK", reply(&[&[raw]]))),
        Ok(raw.to_string())
    );
    assert_eq!(scope_project(replied(299, "299", reply(&[&[""]]))), Ok(String::new()));
}

#[test]
fn only_the_first_part_of_the_first_candidate_is_taken() {
    let body = reply(&[&["first", "second"], &["third"]]);
    assert_eq!(scope_project(replied(201, "201 Created", body)), Ok("first".to_string()));
}

#[test]
fn status_that_is_no_success_is_an_upstream_error() {
    for (status, line) in [(404, "404 Not Found"), (500, "500 Internal Server Error"), (199, "199"), (300, "300 Multiple Choices")] {
        assert_eq!(
            scope_project(replied(status, line, reply(&[&["ignored"]]))),
            Err(EngineError::UpstreamError(format!("API Error: {line}")))
        );
    }
}

#[test]
fn reply_without_text_is_an_upstream_error() {
    let expected = Err(EngineError::UpstreamError("No text found in AI response".to_string()));
    assert_eq!(scope_project(replied(200, "200 OK", reply(&[]))), expected);
    assert_eq!(scope_project(replied(200, "200 OK", reply(&[&[]]))), expected);
    assert_eq!(scope_project(replied(200, "200 OK", reply(&[&[], &["late"]]))), expected);
}

#[test]
fn failed_exchange_is_an_upstream_error_with_its_account() {
    assert_eq!(
        scope_project(Exchange::Failed("connection refused".to_string())),
        Err(EngineError::UpstreamError("connection refused".to_string()))
    );
}

#[test]
fn mutation_reports_a_failed_scoping_with_its_account() {
    assert_eq!(
        MutationRoot.scope_project_with_ai(replied(503, "503 Service Unavailable", reply(&[]))),
        Err(EngineError::UpstreamError(
            "led to scope project with AI: API Error: 503 Service Unavailable".to_string()
        ))
    );
    assert_eq!(
        MutationRoot.scope_project_with_ai(Exchange::Failed("timed out".to_string())),
        Err(EngineError::UpstreamError("led to scope project with AI: timed out".to_string()))
    );
}

#[test]
fn success_is_a_status_from_200_to_299() {
    assert!(!is_success(0));
    assert!(!is_success(199));
    assert!(is_success(200));
    assert!(is_success(204));
    assert!(is_success(299));
    assert!(!is_success(300));
    assert!(!is_success(u16::MAX));
}

#[test]
fn request_holds_the_prompt_and_the_credential() {
    assert_eq!(
        endpoint_url("abc"),
        "https://generativelanguage.googleapis.com/v1beta/models/gemini-2.5-pro:generateContent?key=abc"
    );
    let prompt = build_prompt("Build a mobile app");
    assert_eq!(
        prompt,
        "You are an expert project manager. A user has provided the following project description: 'Build a mobile app'.\n        Based on this description, generate a list of high-level tasks required to complete the project.\n        Return the tasks as a JSON array of strings. For example: [\"Task 1\", \"Task 2\", \"Task 3\"].\n        IMPORTANT: Only output the raw JSON array. Do not include any other text, explanations, or Markdown code blocks like ```json."
    );
    let request = scope_request("Build a mobile app", "abc");
    assert_eq!(request.url, endpoint_url("abc"));
    assert_eq!(request.body.contents.len(), 1);
    assert_eq!(request.body.contents[0].parts.len(), 1);
    assert_eq!(request.body.contents[0].parts[0].text, prompt);
}

#[test]
fn every_error_has_its_kind_and_message() {
    let cases = [
        (EngineError::NotFound, ErrorKind::NotFound, "entity not found"),
        (
            EngineError::InvalidReference,
            ErrorKind::InvalidReference,
            "referenced entity does not exist",
        ),
        (EngineError::Conflict, ErrorKind::Conflict, "uniqueness constraint violated"),
        (
            EngineError::UpstreamError("503".to_string()),
            ErrorKind::UpstreamError,
            "503",
        ),
        (
            EngineError::MalformedIdentifier,
            ErrorKind::MalformedIdentifier,
            "identifier is not a valid UUID",
        ),
    ];
    for (error, kind, message) in cases {
        assert_eq!(error.kind(), kind);
        assert_eq!(error.message(), message);
        assert_eq!(error.clone(), error);
    }
}

#[test]
fn store_failures_have_their_engine_errors() {
    assert_eq!(EngineError::from_store(StoreFailure::RowNotFound), EngineError::NotFound);
    assert_eq!(
        EngineError::from_store(StoreFailure::ForeignKeyViolation),
        EngineError::InvalidReference
    );
    assert_eq!(EngineError::from_store(StoreFailure::UniqueViolation), EngineError::Conflict);
}
