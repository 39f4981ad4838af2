//! Chat Completions requests.
//!
//! A Responses request becomes a Chat Completions request with the same meaning. Streaming is
//! refused: the chunks of a Chat Completions stream do not carry the envelope that a Responses
//! stream has.

use vstd::prelude::*;
use vstd::string::*;
use vstd::utf8::encode_utf8;

use crate::error::{ExecutorError, ExecutorResult};
use crate::json::{lemma_trees_push, put, trees, Json, Tree};
pub use crate::protocol::reply::response_to_responses_json;
use crate::types::{
    InputContent, InputItem, InputMessageContent, ResponsesInput, ToolChoice, UpstreamRequest,
    UpstreamTool,
};
use crate::wire::{integer, json_of, json_text, render, rereadable, MAX_DEPTH};

verus! {

/// The text of a part; an image has none.
pub open spec fn text_of_part(part: InputContent) -> Option<Seq<char>> {
    match part {
        InputContent::InputText(t) => Some(t.text@),
        InputContent::OutputText(t) => Some(t.text@),
        InputContent::ReasoningText(t) => Some(t.text@),
        InputContent::InputImage => None,
        InputContent::Unknown => None,
    }
}

/// The texts of the parts, one after the other.
pub open spec fn text_of_parts(parts: Seq<InputContent>) -> Seq<char>
    decreases parts.len(),
{
    if parts.len() == 0 {
        Seq::empty()
    } else {
        text_of_parts(parts.drop_last()) + match text_of_part(parts.last()) {
            Some(text) => text,
            None => Seq::empty(),
        }
    }
}

/// The text of a message's content.
pub open spec fn text_of_content(content: InputMessageContent) -> Seq<char> {
    match content {
        InputMessageContent::Text(text) => text@,
        InputMessageContent::Parts(parts) => text_of_parts(parts@),
    }
}

/// A message with a role and a text.
pub open spec fn plain_message(role: Seq<char>, content: Seq<char>) -> Tree {
    Tree::Object(map!["role"@ => Tree::String(role), "content"@ => Tree::String(content)])
}

/// A function by name, as a tool call or a tool choice refers to it.
pub open spec fn function_ref(function: Tree) -> Tree {
    Tree::Object(map!["type"@ => Tree::String("function"@), "function"@ => function])
}

/// The message that an input item becomes; reasoning, freeform tool traffic and checkpoints have
/// no counterpart.
pub open spec fn message_of(item: InputItem) -> Option<Tree> {
    match item {
        InputItem::Message(m) => Some(plain_message(m.role@, text_of_content(m.content))),
        InputItem::FunctionCall(call) => Some(
            Tree::Object(
                map![
                    "role"@ => Tree::String("assistant"@),
                    "content"@ => Tree::Null,
                    "tool_calls"@ => Tree::Array(seq![
                        Tree::Object(map![
                            "id"@ => Tree::String(call.call_id@),
                            "type"@ => Tree::String("function"@),
                            "function"@ => Tree::Object(map![
                                "name"@ => Tree::String(call.name@),
                                "arguments"@ => Tree::String(call.arguments@),
                            ]),
                        ]),
                    ]),
                ],
            ),
        ),
        InputItem::FunctionCallOutput(result) => Some(
            Tree::Object(
                map![
                    "role"@ => Tree::String("tool"@),
                    "tool_call_id"@ => Tree::String(result.call_id@),
                    "content"@ => result.output@,
                ],
            ),
        ),
        _ => None,
    }
}

/// The messages of the items that become one, in order.
pub open spec fn messages_of(items: Seq<InputItem>) -> Seq<Tree>
    decreases items.len(),
{
    if items.len() == 0 {
        Seq::empty()
    } else {
        let before = messages_of(items.drop_last());
        match message_of(items.last()) {
            Some(message) => before.push(message),
            None => before,
        }
    }
}

/// The system message that the instructions become.
pub open spec fn opening(request: UpstreamRequest) -> Seq<Tree> {
    match request.instructions {
        Some(text) => seq![plain_message("system"@, text@)],
        None => Seq::empty(),
    }
}

/// The conversation: the instructions first, then the input.
pub open spec fn conversation(request: UpstreamRequest) -> Seq<Tree> {
    opening(request) + match request.input {
        ResponsesInput::Text(text) => seq![plain_message("user"@, text@)],
        ResponsesInput::Items(items) => messages_of(items@),
    }
}

/// A function without declared parameters takes an empty object.
pub open spec fn no_parameters() -> Tree {
    Tree::Object(
        map![
            "type"@ => Tree::String("object"@),
            "properties"@ => Tree::Object(Map::empty()),
        ],
    )
}

/// How a tool is declared; a freeform tool cannot be.
pub open spec fn declaration(tool: UpstreamTool) -> Option<Tree> {
    match tool {
        UpstreamTool::Function(function) => Some(
            function_ref(
                Tree::Object(
                    map![
                        "name"@ => Tree::String(function.name@),
                        "description"@ => match function.description {
                            Some(text) => Tree::String(text@),
                            None => Tree::Null,
                        },
                        "parameters"@ => match function.parameters {
                            Some(parameters) => parameters@,
                            None => no_parameters(),
                        },
                    ],
                ),
            ),
        ),
        UpstreamTool::Custom(_) => None,
    }
}

/// The declarations of the tools that can be declared, in order.
pub open spec fn declarations(tools: Seq<UpstreamTool>) -> Seq<Tree>
    decreases tools.len(),
{
    if tools.len() == 0 {
        Seq::empty()
    } else {
        let before = declarations(tools.drop_last());
        match declaration(tools.last()) {
            Some(tool) => before.push(tool),
            None => before,
        }
    }
}

/// The tools that the request declares.
pub open spec fn declared(request: UpstreamRequest) -> Seq<Tree> {
    match request.tools {
        Some(tools) => declarations(tools@),
        None => Seq::empty(),
    }
}

/// How a tool choice is written; the choice of a freeform tool cannot be.
pub open spec fn choice_of(choice: ToolChoice) -> Option<Tree> {
    match choice {
        ToolChoice::Auto => Some(Tree::String("auto"@)),
        ToolChoice::Never => Some(Tree::String("none"@)),
        ToolChoice::Required => Some(Tree::String("required"@)),
        ToolChoice::Function { name } => Some(
            function_ref(Tree::Object(map!["name"@ => Tree::String(name@)])),
        ),
        ToolChoice::Custom { name: _ } => None,
    }
}

/// The choice that a request carries: none without a tool, and none where it is the default.
pub open spec fn forwarded_choice(request: UpstreamRequest) -> Option<Tree> {
    if declared(request).len() == 0 {
        None
    } else {
        match request.tool_choice {
            Some(choice) => if choice is Auto {
                None
            } else {
                choice_of(choice)
            },
            None => None,
        }
    }
}

/// `object` with a member more, where there is a value for it.
pub open spec fn with_member(
    object: Map<Seq<char>, Tree>,
    key: Seq<char>,
    value: Option<Tree>,
) -> Map<Seq<char>, Tree> {
    match value {
        Some(v) => object.insert(key, v),
        None => object,
    }
}

pub open spec fn number_of(number: Option<serde_json::Number>) -> Option<Tree> {
    match number {
        Some(n) => Some(Tree::Number(n)),
        None => None,
    }
}

/// The Chat Completions request that a Responses request becomes.
pub open spec fn chat_request(request: UpstreamRequest) -> Map<Seq<char>, Tree> {
    let always = map![
        "model"@ => Tree::String(request.model@),
        "messages"@ => Tree::Array(conversation(request)),
        "stream"@ => Tree::Bool(false),
    ];
    let limited = with_member(
        always,
        "max_tokens"@,
        match request.max_output_tokens {
            Some(n) => Some(Tree::Number(integer(n as int))),
            None => None,
        },
    );
    let warm = with_member(limited, "temperature"@, number_of(request.temperature));
    let nucleus = with_member(warm, "top_p"@, number_of(request.top_p));
    let parallel = with_member(
        nucleus,
        "parallel_tool_calls"@,
        match request.parallel_tool_calls {
            Some(b) => Some(Tree::Bool(b)),
            None => None,
        },
    );
    let equipped = with_member(
        parallel,
        "tools"@,
        if declared(request).len() > 0 {
            Some(Tree::Array(declared(request)))
        } else {
            None
        },
    );
    with_member(equipped, "tool_choice"@, forwarded_choice(request))
}

/// The text of a part; an image has none.
pub fn part_text(part: &InputContent) -> (r: Option<&str>)
    ensures
        match r {
            Some(text) => text_of_part(*part) == Some(text@),
            None => text_of_part(*part) is None,
        },
{
    match part {
        InputContent::InputText(t) => Some(t.text.as_str()),
        InputContent::OutputText(t) => Some(t.text.as_str()),
        InputContent::ReasoningText(t) => Some(t.text.as_str()),
        InputContent::InputImage => None,
        InputContent::Unknown => None,
    }
}

/// The text of a message's content, the parts run together.
pub fn message_text(content: &InputMessageContent) -> (r: String)
    ensures
        r@ == text_of_content(*content),
{
    match content {
        InputMessageContent::Text(text) => text.clone(),
        InputMessageContent::Parts(parts) => {
            let mut joined: String = String::new();
            let mut i: usize = 0;
            while i < parts.len()
                invariant
                    i <= parts.len(),
                    joined@ == text_of_parts(parts@.take(i as int)),
                decreases parts.len() - i,
            {
                proof {
                    assert(parts@.take(i + 1).drop_last() =~= parts@.take(i as int));
                }
                if let Some(text) = part_text(&parts[i]) {
                    joined.append(text);
                } else {
                    assert(joined@ + Seq::<char>::empty() =~= joined@);
                }
                i = i + 1;
            }
            assert(parts@.take(i as int) =~= parts@);
            joined
        },
    }
}

fn plain(role: &str, content: &str) -> (r: Json)
    ensures
        r@ == plain_message(role@, content@),
{
    let mut message: Vec<(String, Json)> = Vec::new();
    put(&mut message, "role", Json::string(role));
    put(&mut message, "content", Json::string(content));
    Json::Object(message)
}

fn refer(function: Json) -> (r: Json)
    ensures
        r@ == function_ref(function@),
{
    let mut reference: Vec<(String, Json)> = Vec::new();
    put(&mut reference, "type", Json::string("function"));
    put(&mut reference, "function", function);
    Json::Object(reference)
}

/// Adds the message that an input item becomes, if it becomes one.
pub fn push_message(messages: &mut Vec<Json>, item: &InputItem)
    ensures
        trees(final(messages)@) == match message_of(*item) {
            Some(message) => trees(old(messages)@).push(message),
            None => trees(old(messages)@),
        },
{
    let message: Json = match item {
        InputItem::Message(m) => plain(
            m.role.as_str(),
            message_text(&m.content).as_str(),
        ),
        InputItem::FunctionCall(call) => {
            let mut function: Vec<(String, Json)> = Vec::new();
            put(&mut function, "name", Json::string(call.name.as_str()));
            put(&mut function, "arguments", Json::string(call.arguments.as_str()));
            let mut tool_call: Vec<(String, Json)> = Vec::new();
            put(&mut tool_call, "id", Json::string(call.call_id.as_str()));
            put(&mut tool_call, "type", Json::string("function"));
            put(&mut tool_call, "function", Json::Object(function));
            let mut tool_calls: Vec<Json> = Vec::new();
            tool_calls.push(Json::Object(tool_call));
            assert(trees(tool_calls@) =~= seq![tool_calls@[0]@]);
            let mut message: Vec<(String, Json)> = Vec::new();
            put(&mut message, "role", Json::string("assistant"));
            put(&mut message, "content", Json::Null);
            put(&mut message, "tool_calls", Json::Array(tool_calls));
            Json::Object(message)
        },
        InputItem::FunctionCallOutput(result) => {
            let mut message: Vec<(String, Json)> = Vec::new();
            put(&mut message, "role", Json::string("tool"));
            put(&mut message, "tool_call_id", Json::string(result.call_id.as_str()));
            put(&mut message, "content", result.output.clone());
            Json::Object(message)
        },
        _ => {
            return;
        },
    };
    proof {
        lemma_trees_push(messages@, message);
    }
    messages.push(message);
}

/// Declares the tools that can be declared.
pub fn chat_tools(tools: &Vec<UpstreamTool>) -> (r: Vec<Json>)
    ensures
        trees(r@) == declarations(tools@),
{
    let mut declared: Vec<Json> = Vec::new();
    let mut i: usize = 0;
    while i < tools.len()
        invariant
            i <= tools.len(),
            trees(declared@) == declarations(tools@.take(i as int)),
        decreases tools.len() - i,
    {
        proof {
            assert(tools@.take(i + 1).drop_last() =~= tools@.take(i as int));
        }
        if let UpstreamTool::Function(function) = &tools[i] {
            let mut declaration: Vec<(String, Json)> = Vec::new();
            put(&mut declaration, "name", Json::string(function.name.as_str()));
            let description: Json = match &function.description {
                Some(text) => Json::string(text.as_str()),
                None => Json::Null,
            };
            put(&mut declaration, "description", description);
            let parameters: Json = match &function.parameters {
                Some(parameters) => parameters.clone(),
                None => {
                    let mut empty: Vec<(String, Json)> = Vec::new();
                    put(&mut empty, "type", Json::string("object"));
                    put(&mut empty, "properties", Json::Object(Vec::new()));
                    Json::Object(empty)
                },
            };
            put(&mut declaration, "parameters", parameters);
            let tool: Json = refer(Json::Object(declaration));
            proof {
                lemma_trees_push(declared@, tool);
            }
            declared.push(tool);
        }
        i = i + 1;
    }
    assert(tools@.take(i as int) =~= tools@);
    declared
}

/// Writes a tool choice, if it can be written.
pub fn chat_tool_choice(choice: &ToolChoice) -> (r: Option<Json>)
    ensures
        match r {
            Some(written) => choice_of(*choice) == Some(written@),
            None => choice_of(*choice) is None,
        },
{
    match choice {
        ToolChoice::Auto => Some(Json::string("auto")),
        ToolChoice::Never => Some(Json::string("none")),
        ToolChoice::Required => Some(Json::string("required")),
        ToolChoice::Function { name } => {
            let mut function: Vec<(String, Json)> = Vec::new();
            put(&mut function, "name", Json::string(name.as_str()));
            Some(refer(Json::Object(function)))
        },
        ToolChoice::Custom { name: _ } => None,
    }
}

/// The messages of a Chat Completions request.
pub fn chat_messages(request: &UpstreamRequest) -> (r: Vec<Json>)
    ensures
        trees(r@) == conversation(*request),
{
    let mut messages: Vec<Json> = Vec::new();
    if let Some(instructions) = &request.instructions {
        messages.push(plain("system", instructions.as_str()));
    }
    let ghost system = opening(*request);
    assert(trees(messages@) =~= system);
    match &request.input {
        ResponsesInput::Text(text) => {
            let message: Json = plain("user", text.as_str());
            proof {
                lemma_trees_push(messages@, message);
                assert(system.push(message@) =~= system + seq![message@]);
            }
            messages.push(message);
        },
        ResponsesInput::Items(items) => {
            let mut i: usize = 0;
            assert(system + messages_of(items@.take(0)) =~= system);
            while i < items.len()
                invariant
                    i <= items.len(),
                    trees(messages@) == system + messages_of(items@.take(i as int)),
                decreases items.len() - i,
            {
                let ghost before = messages_of(items@.take(i as int));
                push_message(&mut messages, &items[i]);
                proof {
                    assert(items@.take(i + 1).drop_last() =~= items@.take(i as int));
                    if let Some(message) = message_of(items@[i as int]) {
                        assert((system + before).push(message) =~= system + before.push(message));
                    }
                }
                i = i + 1;
            }
            assert(items@.take(i as int) =~= items@);
        },
    }
    messages
}

/// The Chat Completions request that a Responses request becomes.
pub fn chat_body(request: &UpstreamRequest) -> (r: Json)
    ensures
        r@ == Tree::Object(chat_request(*request)),
{
    let mut body: Vec<(String, Json)> = Vec::new();
    put(&mut body, "model", Json::string(request.model.as_str()));
    put(&mut body, "messages", Json::Array(chat_messages(request)));
    put(&mut body, "stream", Json::Bool(false));
    if let Some(max_output_tokens) = request.max_output_tokens {
        put(&mut body, "max_tokens", Json::number(max_output_tokens as i64));
    }
    if let Some(temperature) = &request.temperature {
        put(&mut body, "temperature", Json::Number(temperature.clone()));
    }
    if let Some(top_p) = &request.top_p {
        put(&mut body, "top_p", Json::Number(top_p.clone()));
    }
    if let Some(parallel_tool_calls) = request.parallel_tool_calls {
        put(&mut body, "parallel_tool_calls", Json::Bool(parallel_tool_calls));
    }
    if let Some(tools) = &request.tools {
        let declared: Vec<Json> = chat_tools(tools);
        if declared.len() > 0 {
            put(&mut body, "tools", Json::Array(declared));
            if let Some(choice) = &request.tool_choice {
                match choice {
                    ToolChoice::Auto => {},
                    _ => {
                        if let Some(written) = chat_tool_choice(choice) {
                            put(&mut body, "tool_choice", written);
                        }
                    },
                }
            }
        }
    }
    Json::Object(body)
}

/// What is said of a request to stream.
pub open spec fn no_streaming() -> Seq<char> {
    "streaming is not supported when the upstream API is 'chat_completions'"@
}

/// Writes a Chat Completions request from a Responses request that was made ready for a model.
///
/// A request to stream is refused before anything else; where the request could not be made
/// ready, that failure is passed on.
pub fn request_json(upstream: ExecutorResult<UpstreamRequest>, stream: bool) -> (r: ExecutorResult<
    String,
>)
    ensures
        if stream {
            r matches Err(ExecutorError::InvalidRequest(message)) && message@ == no_streaming()
        } else {
            match upstream {
                Err(error) => r == Err::<String, ExecutorError>(error),
                Ok(request) => r matches Ok(text) && text@ == json_text(
                    Tree::Object(chat_request(request)),
                ) && (rereadable(Tree::Object(chat_request(request)), MAX_DEPTH as nat) ==> json_of(
                    encode_utf8(text@),
                ) == Some(Tree::Object(chat_request(request)))),
            }
        },
{
    if stream {
        return Err(
            ExecutorError::InvalidRequest(
                "streaming is not supported when the upstream API is 'chat_completions'".to_owned(),
            ),
        );
    }
    match upstream {
        Err(error) => Err(error),
        Ok(request) => match render(&chat_body(&request)) {
            Ok(text) => Ok(text),
            Err(error) => Err(ExecutorError::JsonError(error)),
        },
    }
}

/// The members of a Chat Completions request have names of their own.
proof fn lemma_names()
    ensures
        "tool_choice"@ != "model"@,
        "tool_choice"@ != "messages"@,
        "tool_choice"@ != "stream"@,
        "tool_choice"@ != "max_tokens"@,
        "tool_choice"@ != "temperature"@,
        "tool_choice"@ != "top_p"@,
        "tool_choice"@ != "parallel_tool_calls"@,
        "tool_choice"@ != "tools"@,
        "tools"@ != "model"@,
        "tools"@ != "messages"@,
        "tools"@ != "stream"@,
        "tools"@ != "max_tokens"@,
        "tools"@ != "temperature"@,
        "tools"@ != "top_p"@,
        "tools"@ != "parallel_tool_calls"@,
        "stream"@ != "max_tokens"@,
        "stream"@ != "temperature"@,
        "stream"@ != "top_p"@,
        "stream"@ != "parallel_tool_calls"@,
        "messages"@ != "stream"@,
        "messages"@ != "max_tokens"@,
        "messages"@ != "temperature"@,
        "messages"@ != "top_p"@,
        "messages"@ != "parallel_tool_calls"@,
        "auto"@ != "none"@,
        "auto"@ != "required"@,
{
    reveal_strlit("tool_choice");
    reveal_strlit("model");
    reveal_strlit("messages");
    reveal_strlit("stream");
    reveal_strlit("max_tokens");
    reveal_strlit("temperature");
    reveal_strlit("top_p");
    reveal_strlit("parallel_tool_calls");
    reveal_strlit("tools");
    reveal_strlit("auto");
    reveal_strlit("none");
    reveal_strlit("required");
    assert("tool_choice"@.len() == 11);
    assert("model"@.len() == 5);
    assert("messages"@.len() == 8);
    assert("stream"@.len() == 6);
    assert("max_tokens"@.len() == 10);
    assert("temperature"@.len() == 11);
    assert("top_p"@.len() == 5);
    assert("parallel_tool_calls"@.len() == 19);
    assert("tools"@.len() == 5);
    assert("auto"@.len() == 4);
    assert("none"@.len() == 4);
    assert("required"@.len() == 8);
    assert("tool_choice"@[1] != "temperature"@[1]);
    assert("tools"@[0] != "model"@[0]);
    assert("tools"@[2] != "top_p"@[2]);
    assert("auto"@[0] != "none"@[0]);
}

/// A request names a tool choice only beside at least one tool, and never the default choice:
/// a backend refuses the one and needs not be told the other.
pub proof fn choice_needs_a_tool(request: UpstreamRequest)
    ensures
        chat_request(request).contains_key("tools"@) <==> declared(request).len() > 0,
        chat_request(request).contains_key("tools"@) ==> chat_request(request)["tools"@]
            == Tree::Array(declared(request)),
        chat_request(request).contains_key("tool_choice"@) ==> chat_request(request).contains_key(
            "tools"@,
        ),
        chat_request(request).contains_key("tool_choice"@) ==> chat_request(
            request,
        )["tool_choice"@] != Tree::String("auto"@),
{
    lemma_names();
}

/// Whatever else a request asks for, it does not ask for a stream, and the conversation is what it
/// carries as its messages.
pub proof fn nothing_is_streamed(request: UpstreamRequest)
    ensures
        chat_request(request).contains_key("stream"@),
        chat_request(request)["stream"@] == Tree::Bool(false),
        chat_request(request).contains_key("messages"@),
        chat_request(request)["messages"@] == Tree::Array(conversation(request)),
{
    lemma_names();
}

/// The limit on the output travels under the name that Chat Completions has for it, and under no
/// other.
pub proof fn limit_is_renamed(request: UpstreamRequest)
    ensures
        !chat_request(request).contains_key("max_output_tokens"@),
        chat_request(request).contains_key("max_tokens"@) <==> request.max_output_tokens is Some,
        request.max_output_tokens matches Some(n) ==> chat_request(request)["max_tokens"@]
            == Tree::Number(integer(n as int)),
{
    reveal_strlit("max_output_tokens");
    reveal_strlit("tool_choice");
    reveal_strlit("model");
    reveal_strlit("messages");
    reveal_strlit("stream");
    reveal_strlit("max_tokens");
    reveal_strlit("temperature");
    reveal_strlit("top_p");
    reveal_strlit("parallel_tool_calls");
    reveal_strlit("tools");
    assert("max_output_tokens"@.len() == 17);
    assert("tool_choice"@.len() == 11);
    assert("model"@.len() == 5);
    assert("messages"@.len() == 8);
    assert("stream"@.len() == 6);
    assert("max_tokens"@.len() == 10);
    assert("temperature"@.len() == 11);
    assert("top_p"@.len() == 5);
    assert("parallel_tool_calls"@.len() == 19);
    assert("tools"@.len() == 5);
}

/// The instructions lead the conversation.
pub proof fn instructions_lead(request: UpstreamRequest)
    ensures
        request.instructions matches Some(text) ==> conversation(request).len() > 0
            && conversation(request)[0] == plain_message("system"@, text@),
{
}

/// A longer history begins with the messages of the shorter one: what was translated before is
/// translated the same way again.
pub proof fn history_grows_at_the_end(earlier: Seq<InputItem>, later: Seq<InputItem>)
    ensures
        messages_of(earlier + later) == messages_of(earlier) + messages_of(later),
    decreases later.len(),
{
    if later.len() == 0 {
        assert(earlier + later =~= earlier);
        assert(messages_of(earlier) + messages_of(later) =~= messages_of(earlier));
    } else {
        history_grows_at_the_end(earlier, later.drop_last());
        assert((earlier + later).drop_last() =~= earlier + later.drop_last());
        if let Some(message) = message_of(later.last()) {
            assert((messages_of(earlier) + messages_of(later.drop_last())).push(message)
                =~= messages_of(earlier) + messages_of(later));
        }
    }
}

} // verus!
