use serde_json::Value;

use agentic_gateway::error::ExecutorError;
use agentic_gateway::json::Json;
use agentic_gateway::protocol::chat::{message_text, part_text, request_json};
use agentic_gateway::types::{
    CustomTool, FunctionCall, FunctionCallOutput, FunctionTool, InputContent, InputItem,
    InputMessage, InputMessageContent, ResponsesInput, TextContent, ToolChoice, UpstreamRequest,
    UpstreamTool,
};
use agentic_gateway::wire::parse;

fn value(text: &str) -> Value {
    serde_json::from_str(text).expect("valid json")
}

fn request(input: ResponsesInput) -> UpstreamRequest {
    UpstreamRequest {
        model: "m".to_owned(),
        instructions: None,
        input,
        max_output_tokens: None,
        temperature: None,
        top_p: None,
        parallel_tool_calls: None,
        tools: None,
        tool_choice: Some(ToolChoice::Auto),
    }
}

fn hello() -> UpstreamRequest {
    request(ResponsesInput::Text("hello".to_owned()))
}

fn body(request: UpstreamRequest) -> Value {
    value(&request_json(Ok(request), false).expect("request maps"))
}

fn message(role: &str, content: &str) -> InputItem {
    InputItem::Message(InputMessage {
        role: role.to_owned(),
        content: InputMessageContent::Text(content.to_owned()),
    })
}

fn function_tool(name: &str, description: Option<&str>, parameters: Option<&str>) -> UpstreamTool {
    UpstreamTool::Function(FunctionTool {
        name: name.to_owned(),
        description: description.map(str::to_owned),
        parameters: parameters.map(|text| parse(text.as_bytes()).expect("valid json")),
    })
}

#[test]
fn text_input_becomes_user_message() {
    let mapped = body(hello());

    assert_eq!(mapped["messages"], value(r#"[{ "role": "user", "content": "hello" }]"#));
    assert_eq!(mapped["model"], "m");
    assert_eq!(mapped["stream"], false);
}

#[test]
fn instructions_become_leading_system_message() {
    let mapped = body(UpstreamRequest { instructions: Some("be terse".to_owned()), ..hello() });

    assert_eq!(mapped["messages"][0], value(r#"{ "role": "system", "content": "be terse" }"#));
    assert_eq!(mapped["messages"][1]["role"], "user");
}

#[test]
fn max_output_tokens_becomes_max_tokens() {
    let mapped = body(UpstreamRequest { max_output_tokens: Some(64), ..hello() });

    assert_eq!(mapped["max_tokens"], 64);
    assert!(mapped.get("max_output_tokens").is_none());
}

#[test]
fn tool_call_history_becomes_assistant_and_tool_messages() {
    let mapped = body(request(ResponsesInput::Items(vec![
        message("user", "weather?"),
        InputItem::FunctionCall(FunctionCall {
            call_id: "call_1".to_owned(),
            name: "get_weather".to_owned(),
            arguments: "{}".to_owned(),
        }),
        InputItem::FunctionCallOutput(FunctionCallOutput {
            call_id: "call_1".to_owned(),
            output: Json::string("sunny"),
        }),
    ])));

    let messages = mapped["messages"].as_array().expect("messages array");
    assert_eq!(messages.len(), 3);
    assert_eq!(messages[1]["role"], "assistant");
    assert_eq!(messages[1]["tool_calls"][0]["id"], "call_1");
    assert_eq!(messages[1]["tool_calls"][0]["function"]["name"], "get_weather");
    assert_eq!(
        messages[2],
        value(r#"{ "role": "tool", "tool_call_id": "call_1", "content": "sunny" }"#)
    );
}

#[test]
fn function_tools_are_nested_under_function_key() {
    let mapped = body(UpstreamRequest {
        tools: Some(vec![function_tool(
            "get_weather",
            Some("look up weather"),
            Some(r#"{ "type": "object", "properties": {} }"#),
        )]),
        ..hello()
    });

    assert_eq!(mapped["tools"][0]["type"], "function");
    assert_eq!(mapped["tools"][0]["function"]["name"], "get_weather");
    assert_eq!(mapped["tools"][0]["function"]["description"], "look up weather");
}

#[test]
fn toolless_request_omits_tool_choice() {
    let mapped = body(hello());

    assert!(mapped.get("tool_choice").is_none(), "got {mapped}");
    assert!(mapped.get("tools").is_none(), "got {mapped}");
}

#[test]
fn default_auto_tool_choice_is_omitted_even_with_tools() {
    let mapped = body(UpstreamRequest {
        tool_choice: Some(ToolChoice::Auto),
        tools: Some(vec![function_tool("f", None, Some("{}"))]),
        ..hello()
    });

    assert!(mapped.get("tools").is_some());
    assert!(mapped.get("tool_choice").is_none(), "got {mapped}");
}

#[test]
fn explicit_tool_choice_is_forwarded_with_tools() {
    let mapped = body(UpstreamRequest {
        tool_choice: Some(ToolChoice::Required),
        tools: Some(vec![function_tool("f", None, Some("{}"))]),
        ..hello()
    });

    assert_eq!(mapped["tool_choice"], "required");
}

#[test]
fn streaming_is_rejected() {
    let error = request_json(Ok(request(ResponsesInput::Text("hi".to_owned()))), true).unwrap_err();

    assert!(error.detail().expect("explained").contains("streaming is not supported"));
    assert_eq!(error.http_status(), 400);
}

#[test]
fn a_failed_preparation_is_passed_on() {
    let failed = || Err(ExecutorError::InvalidRequest("unknown tool".to_owned()));

    let error = request_json(failed(), false).unwrap_err();
    assert_eq!(error.detail(), Some("unknown tool"));

    let error = request_json(failed(), true).unwrap_err();
    assert!(error.detail().expect("explained").starts_with("streaming"));
}

#[test]
fn a_whole_request_is_written_out() {
    let mapped = body(UpstreamRequest {
        instructions: Some("be terse".to_owned()),
        max_output_tokens: Some(0),
        temperature: Some(serde_json::Number::from(1)),
        top_p: Some(serde_json::Number::from(0)),
        parallel_tool_calls: Some(false),
        tool_choice: Some(ToolChoice::Function { name: "f".to_owned() }),
        tools: Some(vec![
            UpstreamTool::Custom(CustomTool { name: "grammar".to_owned() }),
            function_tool("f", None, None),
        ]),
        ..hello()
    });

    assert_eq!(
        mapped,
        value(
            r#"{
                "model": "m",
                "messages": [
                    { "role": "system", "content": "be terse" },
                    { "role": "user", "content": "hello" }
                ],
                "stream": false,
                "max_tokens": 0,
                "temperature": 1,
                "top_p": 0,
                "parallel_tool_calls": false,
                "tools": [{
                    "type": "function",
                    "function": {
                        "name": "f",
                        "description": null,
                        "parameters": { "type": "object", "properties": {} }
                    }
                }],
                "tool_choice": { "type": "function", "function": { "name": "f" } }
            }"#
        )
    );
}

#[test]
fn freeform_tools_have_no_counterpart() {
    let mapped = body(UpstreamRequest {
        tool_choice: Some(ToolChoice::Custom { name: "grammar".to_owned() }),
        tools: Some(vec![UpstreamTool::Custom(CustomTool { name: "grammar".to_owned() })]),
        ..hello()
    });
    assert!(mapped.get("tools").is_none());
    assert!(mapped.get("tool_choice").is_none());

    let mapped = body(UpstreamRequest {
        tool_choice: Some(ToolChoice::Custom { name: "grammar".to_owned() }),
        tools: Some(vec![function_tool("f", None, None)]),
        ..hello()
    });
    assert!(mapped.get("tools").is_some());
    assert!(mapped.get("tool_choice").is_none());
}

#[test]
fn no_tool_at_all_can_be_chosen() {
    let mapped = body(UpstreamRequest {
        tool_choice: Some(ToolChoice::Never),
        tools: Some(vec![function_tool("f", None, None)]),
        ..hello()
    });
    assert_eq!(mapped["tool_choice"], "none");
}

#[test]
fn items_without_a_counterpart_are_left_out() {
    let mapped = body(request(ResponsesInput::Items(vec![
        InputItem::Reasoning,
        message("user", "one"),
        InputItem::CustomToolCall,
        InputItem::CustomToolCallOutput,
        InputItem::Compaction,
        InputItem::Unknown,
        message("assistant", "two"),
    ])));

    assert_eq!(
        mapped["messages"],
        value(
            r#"[
                { "role": "user", "content": "one" },
                { "role": "assistant", "content": "two" }
            ]"#
        )
    );
}

#[test]
fn a_structured_tool_result_keeps_its_shape() {
    let output = r#"[{ "type": "input_text", "text": "sunny", "n": 3 }]"#;
    let mapped = body(request(ResponsesInput::Items(vec![InputItem::FunctionCallOutput(
        FunctionCallOutput {
            call_id: "call_1".to_owned(),
            output: parse(output.as_bytes()).expect("valid json"),
        },
    )])));

    assert_eq!(mapped["messages"][0]["content"], value(output));
}

#[test]
fn the_parts_of_a_message_are_run_together() {
    let part = |text: &str| TextContent { text: text.to_owned() };
    let content = InputMessageContent::Parts(vec![
        InputContent::InputText(part("a")),
        InputContent::InputImage,
        InputContent::OutputText(part("b")),
        InputContent::Unknown,
        InputContent::ReasoningText(part("c")),
    ]);
    assert_eq!(message_text(&content), "abc");
    assert_eq!(message_text(&InputMessageContent::Parts(vec![])), "");
    assert_eq!(part_text(&InputContent::InputImage), None);
}

#[test]
fn a_longer_history_begins_with_the_shorter_one() {
    let earlier = || vec![message("user", "one"), InputItem::Reasoning, message("assistant", "two")];
    let mut longer = earlier();
    longer.push(InputItem::Unknown);
    longer.push(message("user", "three"));

    let short = body(request(ResponsesInput::Items(earlier())));
    let long = body(request(ResponsesInput::Items(longer)));
    let short = short["messages"].as_array().expect("messages array");
    let long = long["messages"].as_array().expect("messages array");
    assert_eq!(long.len(), 3);
    assert_eq!(&long[..2], &short[..]);
}
