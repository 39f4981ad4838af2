use serde_json::Value;

use agentic_gateway::error::ExecutorError;
use agentic_gateway::json::Json;
use agentic_gateway::protocol::chat::response_to_responses_json;
use agentic_gateway::protocol::reply::{
    can_total, chat_usage, output_items, responses_body, FunctionToolCall, MessageStatus,
    OutputItem,
};
use agentic_gateway::wire::{parse, render};

fn value(text: &str) -> Value {
    serde_json::from_str(text).expect("valid json")
}

fn json(text: &str) -> Json {
    parse(text.as_bytes()).expect("valid json")
}

fn id(prefix: &str) -> String {
    format!("{prefix}0")
}

fn mapped(body: &str) -> Value {
    value(&response_to_responses_json(body, id).expect("response maps"))
}

#[test]
fn response_content_becomes_output_message() {
    let mapped = mapped(
        r#"{
            "id": "chatcmpl-1",
            "choices": [{
                "index": 0,
                "message": { "role": "assistant", "content": "hi there" },
                "finish_reason": "stop"
            }],
            "usage": { "prompt_tokens": 10, "completion_tokens": 6, "total_tokens": 16 }
        }"#,
    );

    assert_eq!(mapped["id"], "chatcmpl-1");
    assert_eq!(mapped["status"], "completed");
    assert_eq!(mapped["output"][0]["type"], "message");
    assert_eq!(mapped["output"][0]["content"][0]["text"], "hi there");
    assert_eq!(
        mapped["usage"],
        value(r#"{ "input_tokens": 10, "output_tokens": 6, "total_tokens": 16 }"#)
    );
}

#[test]
fn length_finish_reason_marks_response_incomplete() {
    let mapped = mapped(
        r#"{
            "id": "chatcmpl-1",
            "choices": [{ "message": { "content": "tru" }, "finish_reason": "length" }]
        }"#,
    );

    assert_eq!(mapped["status"], "incomplete");
    assert_eq!(mapped["incomplete_details"]["reason"], "max_output_tokens");
}

#[test]
fn response_tool_calls_become_function_call_items() {
    let mapped = mapped(
        r#"{
            "id": "chatcmpl-1",
            "choices": [{
                "message": {
                    "content": null,
                    "tool_calls": [{
                        "id": "call_1",
                        "type": "function",
                        "function": { "name": "get_weather", "arguments": "{\"city\":\"NYC\"}" }
                    }]
                },
                "finish_reason": "tool_calls"
            }]
        }"#,
    );

    assert_eq!(mapped["output"][0]["type"], "function_call");
    assert_eq!(mapped["output"][0]["call_id"], "call_1");
    assert_eq!(mapped["output"][0]["name"], "get_weather");
}

#[test]
fn mapped_output_items_survive_deserialization() {
    let text = response_to_responses_json(
        r#"{
            "id": "chatcmpl-1",
            "choices": [{
                "message": {
                    "content": "hi",
                    "tool_calls": [{
                        "id": "call_1",
                        "function": { "name": "f", "arguments": "{}" }
                    }]
                },
                "finish_reason": "stop"
            }]
        }"#,
        id,
    )
    .expect("response maps");
    let mapped = json(&text);

    let output = mapped.get("output").and_then(Json::as_array).expect("output array");
    let items: Vec<OutputItem> = output
        .iter()
        .map(|item| OutputItem::from_json(item).expect("output items parse"))
        .collect();

    assert_eq!(items.len(), 2);
    assert!(matches!(items[0], OutputItem::Message(_)));
    assert!(matches!(items[1], OutputItem::FunctionCall(_)));
}

#[test]
fn missing_choices_is_a_parse_error() {
    let error = response_to_responses_json(r#"{ "id": "chatcmpl-1" }"#, id).unwrap_err();

    assert!(error.detail().expect("explained").contains("no choices"));
}

#[test]
fn a_reply_without_an_identifier_is_a_parse_error() {
    for body in [r#"{ "choices": [{}] }"#, r#"{ "id": 7, "choices": [{}] }"#, "[]"] {
        let error = response_to_responses_json(body, id).unwrap_err();
        assert!(matches!(error, ExecutorError::ParseError(_)));
        assert_eq!(error.detail(), Some("missing 'id' field in chat completion response"));
        assert_eq!(error.http_status(), 400);
    }
}

#[test]
fn a_reply_that_is_not_json_is_a_json_error() {
    let error = response_to_responses_json("{", id).unwrap_err();
    assert!(matches!(error, ExecutorError::JsonError(_)));
    assert_eq!(error.detail(), None);
}

#[test]
fn a_whole_reply_is_written_out() {
    let mapped = mapped(
        r#"{
            "id": "chatcmpl-1",
            "choices": [
                {
                    "message": {
                        "content": "hi",
                        "tool_calls": [
                            { "id": "call_1", "function": { "name": "f", "arguments": "{}" } },
                            {}
                        ]
                    },
                    "finish_reason": "length"
                },
                { "message": { "content": "another" } }
            ],
            "usage": { "prompt_tokens": 3, "completion_tokens": 4 }
        }"#,
    );

    assert_eq!(
        mapped,
        value(
            r#"{
                "id": "chatcmpl-1",
                "output": [
                    {
                        "type": "message", "id": "msg_0", "role": "assistant", "status": "completed",
                        "content": [{ "type": "output_text", "text": "hi", "annotations": [] }]
                    },
                    {
                        "type": "function_call", "id": "fc_0", "call_id": "call_1", "name": "f",
                        "arguments": "{}", "status": "completed"
                    },
                    {
                        "type": "function_call", "id": "fc_0", "call_id": "", "name": "",
                        "arguments": "", "status": "completed"
                    }
                ],
                "status": "incomplete",
                "incomplete_details": { "reason": "max_output_tokens" },
                "usage": { "input_tokens": 3, "output_tokens": 4, "total_tokens": 7 }
            }"#
        )
    );
}

#[test]
fn an_empty_text_is_no_message() {
    let mapped = mapped(r#"{ "id": "c", "choices": [{ "message": { "content": "" } }] }"#);
    assert_eq!(mapped["output"], value("[]"));
    assert!(mapped.get("usage").is_none());
    assert!(mapped.get("incomplete_details").is_none());
}

#[test]
fn token_counts_that_are_missing_count_as_none() {
    let usage = chat_usage(&json("{}")).expect("an object");
    assert_eq!(
        value(&render(&usage).expect("rendered")),
        value(r#"{ "input_tokens": 0, "output_tokens": 0, "total_tokens": 0 }"#)
    );
    assert!(chat_usage(&json("null")).is_none());
    assert!(chat_usage(&json("[]")).is_none());
    let usage = chat_usage(&json(r#"{ "prompt_tokens": 1.5, "total_tokens": -2 }"#)).expect("an object");
    assert_eq!(usage.get("input_tokens").and_then(Json::as_i64), Some(0));
    assert_eq!(usage.get("total_tokens").and_then(Json::as_i64), Some(-2));
}

#[test]
fn token_counts_that_do_not_add_up_are_refused() {
    let usage = r#"{ "prompt_tokens": 9223372036854775807, "completion_tokens": 1 }"#;
    assert!(!can_total(&json(usage)));
    assert!(can_total(&json(r#"{ "prompt_tokens": 9223372036854775806, "completion_tokens": 1 }"#)));

    let body = format!(r#"{{ "id": "c", "choices": [{{}}], "usage": {usage} }}"#);
    let error = response_to_responses_json(&body, id).unwrap_err();
    assert_eq!(
        error.detail(),
        Some("token counts of chat completion response do not add up")
    );
}

#[test]
fn identifiers_are_used_in_order() {
    let message = json(r#"{ "content": "hi", "tool_calls": [{ "id": "a" }, { "id": "b" }] }"#);
    let ids = vec!["m".to_owned(), "x".to_owned(), "y".to_owned()];
    let items = output_items(&message, &ids);
    assert_eq!(items.len(), 3);
    match &items[2] {
        OutputItem::FunctionCall(call) => {
            assert_eq!(call.id, "y");
            assert_eq!(call.call_id, "b");
            assert_eq!(call.namespace, None);
        }
        other => panic!("unexpected item {other:?}"),
    }

    let chat = json(r#"{ "id": "c", "choices": [{ "message": { "content": "hi" } }] }"#);
    let reply = responses_body(&chat, &vec!["m".to_owned()]).expect("response maps");
    assert_eq!(reply.get("id").and_then(Json::as_str), Some("c"));
}

#[test]
fn an_item_is_read_as_it_was_written() {
    let item = OutputItem::FunctionCall(FunctionToolCall {
        id: "fc_1".to_owned(),
        call_id: "call_1".to_owned(),
        name: "f".to_owned(),
        namespace: Some("n".to_owned()),
        arguments: "{}".to_owned(),
        status: MessageStatus::InProgress,
    });
    match OutputItem::from_json(&item.to_json()).expect("output item parses") {
        OutputItem::FunctionCall(call) => {
            assert_eq!(call.id, "fc_1");
            assert_eq!(call.call_id, "call_1");
            assert_eq!(call.name, "f");
            assert_eq!(call.namespace.as_deref(), Some("n"));
            assert_eq!(call.arguments, "{}");
            assert_eq!(call.status, MessageStatus::InProgress);
        }
        other => panic!("unexpected item {other:?}"),
    }
}

#[test]
fn a_malformed_item_is_not_read() {
    for text in [
        "7",
        r#"{ "type": "message", "status": "completed", "content": [] }"#,
        r#"{ "type": "message", "id": "m", "status": "done", "content": [] }"#,
        r#"{ "type": "message", "id": "m", "status": "completed", "content": [{ "type": "image" }] }"#,
        r#"{ "type": "message", "id": "m", "status": "completed", "content": "hi" }"#,
        r#"{ "type": "function_call", "id": "f", "status": "completed", "call_id": "c", "name": "f" }"#,
        r#"{ "type": "function_call", "id": "f", "status": "completed", "call_id": "c", "name": "f",
             "arguments": "", "namespace": 3 }"#,
        r#"{ "type": "mystery", "id": "m", "status": "completed" }"#,
    ] {
        assert!(OutputItem::from_json(&json(text)).is_none(), "read: {text}");
    }
}
