use http::HeaderMap;

use agentic_gateway::error::{ExecutorError, StorageError};
use agentic_gateway::handler::{
    health, persist as persist_request, ready, rehydrated, require_token, too_large,
    PersistRequest, UpstreamBody, WORKLOAD_TOKEN_HEADER,
};
use agentic_gateway::internal::{internal_hydrate, HydrateQuery};
use agentic_gateway::json::Json;
use agentic_gateway::split::{
    ensure_splittable, forwardable, hydrate, hydrated, is_kept, persist, persisted, Rehydrated,
    ResponsePayload, ResponseStatus,
};
use agentic_gateway::types::{
    CustomTool, InputItem, RequestPayload, ResponsesInput, ResponsesTool,
};

fn request(input: &str, previous: Option<&str>) -> RequestPayload {
    RequestPayload {
        model: "test-model".to_owned(),
        input: ResponsesInput::Text(input.to_owned()),
        conversation_id: None,
        previous_response_id: previous.map(str::to_owned),
        tools: None,
        context_management: None,
        store: true,
        stream: false,
    }
}

fn gateway_tool() -> RequestPayload {
    RequestPayload {
        tools: Some(vec![ResponsesTool::Gateway("web_search_preview".to_owned())]),
        ..request("hi", None)
    }
}

fn refusal<T>(result: Result<T, ExecutorError>) -> String {
    match result {
        Err(ExecutorError::InvalidRequest(message)) => message,
        Err(error) => panic!("refused with {error:?}"),
        Ok(_) => panic!("accepted"),
    }
}

#[test]
fn the_boundary_check_names_what_cannot_be_split() {
    let error = ensure_splittable(&gateway_tool()).expect_err("the loop needs a caller");
    assert!(error.detail().expect("explained").contains("tools"), "got: {error:?}");

    let mut conversational = request("hi", None);
    conversational.conversation_id = Some("conv_1".into());
    let error = ensure_splittable(&conversational).expect_err("its version cannot cross");
    assert!(error.detail().expect("explained").contains("conversation_id"), "got: {error:?}");

    let mut streaming = request("hi", None);
    streaming.stream = true;
    ensure_splittable(&streaming).expect("the caller relays the frames, then replays them");
    ensure_splittable(&request("hi", None)).expect("a plain turn is splittable");
}

#[test]
fn split_execution_integration_the_boundary_check_names_what_cannot_be_split() {
    let error = ensure_splittable(&gateway_tool()).expect_err("the loop needs a caller");
    assert!(error.detail().expect("explained").contains("tools"), "got: {error:?}");

    let mut conversational = request("hi", None);
    conversational.conversation_id = Some("conv_1".into());
    let error = ensure_splittable(&conversational).expect_err("its version cannot cross");
    assert!(error.detail().expect("explained").contains("conversation_id"), "got: {error:?}");

    let mut streaming = request("hi", None);
    streaming.stream = true;
    ensure_splittable(&streaming).expect("the caller relays the frames, then replays them");
    ensure_splittable(&request("hi", None)).expect("a plain turn is splittable");
}

#[test]
fn hydration_begins_with_the_boundary_check() {
    assert!(refusal(hydrate(gateway_tool())).contains("tools"));
    let mut streaming = request("hi", None);
    streaming.stream = true;
    assert!(hydrate(streaming).expect("splittable").stream);
}

#[test]
fn every_feature_is_named_in_turn() {
    let mut request = gateway_tool();
    request.conversation_id = Some("conv_1".into());
    request.input = ResponsesInput::Items(vec![InputItem::Unknown, InputItem::Compaction]);
    request.context_management = Some(Json::Null);

    assert_eq!(
        refusal(ensure_splittable(&request)),
        "conversation_id is not supported for split execution"
    );
    request.conversation_id = None;
    assert_eq!(
        refusal(ensure_splittable(&request)),
        "gateway-owned tools is not supported for split execution"
    );
    request.tools = Some(vec![ResponsesTool::Custom(CustomTool { name: "grammar".to_owned() })]);
    assert_eq!(
        refusal(ensure_splittable(&request)),
        "compaction input is not supported for split execution"
    );
    request.input = ResponsesInput::Items(vec![InputItem::Unknown]);
    assert_eq!(
        refusal(ensure_splittable(&request)),
        "context_management is not supported for split execution"
    );
    request.context_management = None;
    assert_eq!(request.in_process_feature(), None);
}

#[test]
fn a_continued_turn_is_splittable() {
    let admitted = hydrate(request("and then?", Some("resp_1"))).expect("splittable");
    assert_eq!(admitted.previous_response_id.as_deref(), Some("resp_1"));
}

#[test]
fn the_tool_loop_makes_up_for_gateway_tools() {
    assert!(!HydrateQuery::default().tool_loop);
    assert!(internal_hydrate(gateway_tool(), &HydrateQuery::default()).is_err());
    assert!(internal_hydrate(gateway_tool(), &HydrateQuery { tool_loop: true }).is_ok());

    let mut conversational = gateway_tool();
    conversational.conversation_id = Some("conv_1".into());
    assert_eq!(
        refusal(internal_hydrate(conversational, &HydrateQuery { tool_loop: true })),
        "conversation_id is not supported for split execution"
    );
}

#[test]
fn what_will_run_is_checked_again() {
    let turn = |enriched_request: RequestPayload| Rehydrated { context: 7, enriched_request, stream: true };
    let kept = rehydrated(Ok(turn(request("hi", None)))).expect("splittable");
    assert_eq!(kept.context, 7);
    assert!(kept.stream);
    assert_eq!(
        refusal(rehydrated(Ok(turn(gateway_tool())))),
        "gateway-owned tools is not supported for split execution"
    );
    let missing: Result<Rehydrated<i32>, ExecutorError> =
        Err(ExecutorError::NotFound("resp_missing".to_owned()));
    assert_eq!(rehydrated(missing).map(|_| ()).unwrap_err().http_status(), 404);
}

#[test]
fn the_request_is_forwarded_as_it_was_built() {
    let hydration = hydrated("context", Ok(" {\"input\": [ ]}\r\n".to_owned())).expect("json");
    assert_eq!(hydration.request, "{\"input\": [ ]}");
    assert_eq!(hydration.context, "context");
    assert!(matches!(hydrated((), Ok("{".to_owned())), Err(ExecutorError::JsonError(_))));
    assert!(matches!(forwardable(Ok("{} {}".to_owned())), Err(ExecutorError::JsonError(_))));
    let failed = forwardable(Err(ExecutorError::InvalidRequest("no".to_owned())));
    assert_eq!(refusal(failed), "no");
}

fn reply(status: &str) -> ResponsePayload {
    ResponsePayload { status: status.to_owned(), body: Json::Null }
}

#[test]
fn only_a_reply_that_has_ended_is_stored() {
    for status in ["completed", "incomplete"] {
        let kept = persist(Ok(reply(status))).expect("storable");
        assert_eq!(persisted(kept, Ok(())).expect("stored").status, status);
    }
    for status in ["in_progress", "queued", "failed", "", "Completed"] {
        assert_eq!(
            refusal(persist(Ok(reply(status)))),
            format!("upstream response status '{status}' cannot be persisted")
        );
    }
    assert_eq!(ResponseStatus::named("incomplete"), ResponseStatus::Incomplete);
}

#[test]
fn a_failed_step_of_persisting_is_passed_on() {
    let unread = persist(Err(ExecutorError::ParseError("no output".to_owned())));
    assert_eq!(unread.unwrap_err().http_status(), 400);
    let unstored = persisted(reply("completed"), Err(ExecutorError::Storage(StorageError::NotConfigured)));
    assert_eq!(unstored.unwrap_err().http_status(), 500);
}

fn persisting(response: Option<&str>, sse: Option<&str>) -> PersistRequest {
    PersistRequest {
        context: "sealed".to_owned(),
        response: response.map(str::to_owned),
        sse: sse.map(str::to_owned),
    }
}

#[test]
fn a_reply_comes_in_exactly_one_form() {
    let turn = persist_request(persisting(Some("{}"), None)).expect("one form");
    assert_eq!(turn.context, "sealed");
    assert!(matches!(turn.upstream, UpstreamBody::Json(text) if text == "{}"));
    let turn = persist_request(persisting(None, Some("data: x"))).expect("one form");
    assert!(matches!(turn.upstream, UpstreamBody::Sse(text) if text == "data: x"));
    for request in [persisting(None, None), persisting(Some("{}"), Some("data: x"))] {
        assert_eq!(
            refusal(persist_request(request)),
            "exactly one of `response` or `sse` is required"
        );
    }
}

fn with_token(token: &str) -> HeaderMap {
    let mut headers = HeaderMap::new();
    headers.insert(WORKLOAD_TOKEN_HEADER, token.parse().unwrap());
    headers
}

#[test]
fn a_call_needs_the_shared_token() {
    assert!(require_token(&with_token("secret"), "secret").is_ok());
    for headers in [with_token("secres"), with_token("secre"), with_token("secret "), HeaderMap::new()] {
        let reply = require_token(&headers, "secret").unwrap_err();
        assert_eq!(reply.status, 401);
        assert_eq!(
            reply.body,
            r#"{"error":{"type":"invalid_request_error","message":"missing or invalid bearer token"}}"#
        );
    }
}

#[test]
fn a_body_may_not_be_too_large() {
    let reply = too_large();
    assert_eq!(reply.status, 413);
    assert_eq!(
        reply.body,
        r#"{"error":{"type":"invalid_request_error","message":"request body too large"}}"#
    );
}

#[test]
fn readiness_means_that_storage_answers() {
    assert_eq!(health(), 200);
    assert_eq!(ready(true), 200);
    assert_eq!(ready(false), 503);
}

#[test]
fn a_turn_is_kept_where_it_is_asked_for_or_continues_a_chain() {
    assert!(is_kept(true, false));
    assert!(is_kept(false, true));
    assert!(is_kept(true, true));
    assert!(!is_kept(false, false));
}
