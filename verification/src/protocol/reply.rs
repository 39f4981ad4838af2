//! Chat Completions replies.
//!
//! A Chat Completions reply becomes a Responses reply with the same meaning. The items of the
//! output get identifiers of their own, which the caller of this module draws.

use vstd::prelude::*;
use vstd::utf8::encode_utf8;

use crate::error::{ExecutorError, ExecutorResult};
use crate::json::{elements_at, lemma_trees_push, put, text_at, trees, Json, Tree};
use crate::protocol::chat::with_member;
use crate::text::same_text;
use crate::wire::{
    int_value, integer, json_of, json_text, parse, render, rereadable, MAX_DEPTH,
};

verus! {

/// How far an item has come.
#[derive(Debug, Clone, Copy, PartialEq, Eq, Structural)]
pub enum MessageStatus {
    Completed,
    Incomplete,
    InProgress,
}

/// A piece of text that the model wrote.
#[derive(Debug)]
pub struct OutputTextContent {
    pub text: String,
}

/// A message that the model wrote.
#[derive(Debug)]
pub struct OutputMessage {
    pub id: String,
    pub status: MessageStatus,
    pub content: Vec<OutputTextContent>,
}

/// A call that the model makes to a function.
#[derive(Debug)]
pub struct FunctionToolCall {
    /// The identifier of this item.
    pub id: String,
    /// The identifier under which the client answers.
    pub call_id: String,
    pub name: String,
    pub namespace: Option<String>,
    pub arguments: String,
    pub status: MessageStatus,
}

/// One item of a Responses output.
#[derive(Debug)]
pub enum OutputItem {
    Message(OutputMessage),
    FunctionCall(FunctionToolCall),
}

/// What an output item says.
#[verifier::ext_equal]
pub enum Item {
    Message { id: Seq<char>, status: MessageStatus, content: Seq<Seq<char>> },
    Call {
        id: Seq<char>,
        call_id: Seq<char>,
        name: Seq<char>,
        namespace: Option<Seq<char>>,
        arguments: Seq<char>,
        status: MessageStatus,
    },
}

pub open spec fn texts(content: Seq<OutputTextContent>) -> Seq<Seq<char>> {
    Seq::new(content.len(), |i: int| content[i].text@)
}

pub open spec fn text_view(text: Option<String>) -> Option<Seq<char>> {
    match text {
        Some(t) => Some(t@),
        None => None,
    }
}

impl View for OutputItem {
    type V = Item;

    open spec fn view(&self) -> Item {
        match *self {
            OutputItem::Message(m) => Item::Message {
                id: m.id@,
                status: m.status,
                content: texts(m.content@),
            },
            OutputItem::FunctionCall(c) => Item::Call {
                id: c.id@,
                call_id: c.call_id@,
                name: c.name@,
                namespace: text_view(c.namespace),
                arguments: c.arguments@,
                status: c.status,
            },
        }
    }
}

pub open spec fn status_name(status: MessageStatus) -> Seq<char> {
    match status {
        MessageStatus::Completed => "completed"@,
        MessageStatus::Incomplete => "incomplete"@,
        MessageStatus::InProgress => "in_progress"@,
    }
}

/// A piece of text on the wire.
pub open spec fn text_part(text: Seq<char>) -> Tree {
    Tree::Object(
        map![
            "type"@ => Tree::String("output_text"@),
            "text"@ => Tree::String(text),
            "annotations"@ => Tree::Array(Seq::empty()),
        ],
    )
}

pub open spec fn text_parts(content: Seq<Seq<char>>) -> Seq<Tree> {
    Seq::new(content.len(), |i: int| text_part(content[i]))
}

/// An output item on the wire.
pub open spec fn item_tree(item: Item) -> Tree {
    match item {
        Item::Message { id, status, content } => Tree::Object(
            map![
                "type"@ => Tree::String("message"@),
                "id"@ => Tree::String(id),
                "role"@ => Tree::String("assistant"@),
                "status"@ => Tree::String(status_name(status)),
                "content"@ => Tree::Array(text_parts(content)),
            ],
        ),
        Item::Call { id, call_id, name, namespace, arguments, status } => Tree::Object(
            with_member(
                map![
                    "type"@ => Tree::String("function_call"@),
                    "id"@ => Tree::String(id),
                    "call_id"@ => Tree::String(call_id),
                    "name"@ => Tree::String(name),
                    "arguments"@ => Tree::String(arguments),
                    "status"@ => Tree::String(status_name(status)),
                ],
                "namespace"@,
                match namespace {
                    Some(n) => Some(Tree::String(n)),
                    None => None,
                },
            ),
        ),
    }
}

pub open spec fn item_trees(items: Seq<Item>) -> Seq<Tree> {
    Seq::new(items.len(), |i: int| item_tree(items[i]))
}

/// The string that `value` holds under `key`; empty where it holds none.
pub open spec fn string_in(value: Tree, key: Seq<char>) -> Seq<char> {
    match text_at(value, key) {
        Some(text) => text,
        None => Seq::empty(),
    }
}

/// The value under `key`; null where there is none.
pub open spec fn child(value: Tree, key: Seq<char>) -> Tree {
    match value.at(key) {
        Some(v) => v,
        None => Tree::Null,
    }
}

/// The first of the alternatives that a reply offers.
pub open spec fn first_choice(chat: Tree) -> Option<Tree> {
    match elements_at(chat, "choices"@) {
        Some(choices) => if choices.len() > 0 {
            Some(choices[0])
        } else {
            None
        },
        None => None,
    }
}

/// The text of a reply's message, unless it is empty.
pub open spec fn reply_text(message: Tree) -> Option<Seq<char>> {
    match text_at(message, "content"@) {
        Some(text) => if text.len() > 0 {
            Some(text)
        } else {
            None
        },
        None => None,
    }
}

/// The tool calls of a reply's message.
pub open spec fn reply_calls(message: Tree) -> Seq<Tree> {
    match elements_at(message, "tool_calls"@) {
        Some(calls) => calls,
        None => Seq::empty(),
    }
}

/// The item that a tool call becomes.
pub open spec fn call_item(call: Tree, id: Seq<char>) -> Item {
    let function = child(call, "function"@);
    Item::Call {
        id,
        call_id: string_in(call, "id"@),
        name: string_in(function, "name"@),
        namespace: None,
        arguments: string_in(function, "arguments"@),
        status: MessageStatus::Completed,
    }
}

/// How many items a reply's message becomes.
pub open spec fn item_count(message: Tree) -> nat {
    (if reply_text(message) is Some {
        1nat
    } else {
        0nat
    }) + reply_calls(message).len()
}

/// The items that a reply's message becomes, under the given identifiers: the text first, then the
/// tool calls.
pub open spec fn items_of(message: Tree, ids: Seq<Seq<char>>) -> Seq<Item> {
    let calls = reply_calls(message);
    match reply_text(message) {
        Some(text) => seq![
            Item::Message { id: ids[0], status: MessageStatus::Completed, content: seq![text] },
        ] + Seq::new(calls.len(), |i: int| call_item(calls[i], ids[i + 1])),
        None => Seq::new(calls.len(), |i: int| call_item(calls[i], ids[i])),
    }
}

/// Whether the model stopped because it ran out of room.
pub open spec fn is_truncated(choice: Tree) -> bool {
    text_at(choice, "finish_reason"@) == Some("length"@)
}

/// The integer under `key`, if there is one.
pub open spec fn int_at(value: Tree, key: Seq<char>) -> Option<int> {
    match value.at(key) {
        Some(v) => int_value(v),
        None => None,
    }
}

pub open spec fn int_or(value: Option<int>, default: int) -> int {
    match value {
        Some(n) => n,
        None => default,
    }
}

/// The tokens read and the tokens written, where the usage does not say what they come to.
pub open spec fn token_sum(usage: Tree) -> int {
    int_or(int_at(usage, "prompt_tokens"@), 0) + int_or(int_at(usage, "completion_tokens"@), 0)
}

/// The usage of a reply, in the terms of a Responses reply.
pub open spec fn usage_of(usage: Tree) -> Option<Tree> {
    if usage is Object {
        Some(
            Tree::Object(
                map![
                    "input_tokens"@ => Tree::Number(
                        integer(int_or(int_at(usage, "prompt_tokens"@), 0)),
                    ),
                    "output_tokens"@ => Tree::Number(
                        integer(int_or(int_at(usage, "completion_tokens"@), 0)),
                    ),
                    "total_tokens"@ => Tree::Number(
                        integer(int_or(int_at(usage, "total_tokens"@), token_sum(usage))),
                    ),
                ],
            ),
        )
    } else {
        None
    }
}

/// The total that has to be added up can be.
pub open spec fn usage_fits(usage: Tree) -> bool {
    usage is Object && int_at(usage, "total_tokens"@) is None ==> i64::MIN <= token_sum(usage)
        <= i64::MAX
}

/// What a reply lacks, if it lacks something.
pub open spec fn fault_of(chat: Tree) -> Option<Seq<char>> {
    if text_at(chat, "id"@) is None {
        Some("missing 'id' field in chat completion response"@)
    } else if first_choice(chat) is None {
        Some("chat completion response has no choices"@)
    } else {
        None
    }
}

/// The message of the first alternative.
pub open spec fn message_in(chat: Tree) -> Tree {
    child(first_choice(chat)->0, "message"@)
}

/// The Responses reply that a Chat Completions reply becomes, under the given identifiers.
pub open spec fn responses_reply(chat: Tree, ids: Seq<Seq<char>>) -> Map<Seq<char>, Tree> {
    let truncated = is_truncated(first_choice(chat)->0);
    let always = map![
        "id"@ => Tree::String(text_at(chat, "id"@)->0),
        "output"@ => Tree::Array(item_trees(items_of(message_in(chat), ids))),
        "status"@ => Tree::String(if truncated { "incomplete"@ } else { "completed"@ }),
    ];
    let explained = with_member(
        always,
        "incomplete_details"@,
        if truncated {
            Some(Tree::Object(map!["reason"@ => Tree::String("max_output_tokens"@)]))
        } else {
            None
        },
    );
    with_member(explained, "usage"@, usage_of(child(chat, "usage"@)))
}

impl MessageStatus {
    /// The status on the wire.
    pub fn name(self) -> (r: &'static str)
        ensures
            r@ == status_name(self),
    {
        match self {
            MessageStatus::Completed => "completed",
            MessageStatus::Incomplete => "incomplete",
            MessageStatus::InProgress => "in_progress",
        }
    }
}

impl OutputItem {
    /// The item on the wire.
    pub fn to_json(&self) -> (r: Json)
        ensures
            r@ == item_tree(self@),
    {
        match self {
            OutputItem::Message(message) => {
                let mut content: Vec<Json> = Vec::new();
                let mut i: usize = 0;
                while i < message.content.len()
                    invariant
                        i <= message.content.len(),
                        trees(content@) == text_parts(texts(message.content@)).take(i as int),
                    decreases message.content.len() - i,
                {
                    let mut part: Vec<(String, Json)> = Vec::new();
                    put(&mut part, "type", Json::string("output_text"));
                    put(&mut part, "text", Json::string(message.content[i].text.as_str()));
                    put(&mut part, "annotations", Json::Array(Vec::new()));
                    let part: Json = Json::Object(part);
                    proof {
                        assert(part@->Object_0["annotations"@]->Array_0 =~= Seq::empty());
                        assert(part@ =~= text_part(message.content@[i as int].text@));
                        lemma_trees_push(content@, part);
                        assert(text_parts(texts(message.content@)).take(i + 1) =~= text_parts(
                            texts(message.content@),
                        ).take(i as int).push(part@));
                    }
                    content.push(part);
                    i = i + 1;
                }
                assert(text_parts(texts(message.content@)).take(i as int) =~= text_parts(
                    texts(message.content@),
                ));
                let mut item: Vec<(String, Json)> = Vec::new();
                put(&mut item, "type", Json::string("message"));
                put(&mut item, "id", Json::string(message.id.as_str()));
                put(&mut item, "role", Json::string("assistant"));
                put(&mut item, "status", Json::string(message.status.name()));
                put(&mut item, "content", Json::Array(content));
                Json::Object(item)
            },
            OutputItem::FunctionCall(call) => {
                let mut item: Vec<(String, Json)> = Vec::new();
                put(&mut item, "type", Json::string("function_call"));
                put(&mut item, "id", Json::string(call.id.as_str()));
                put(&mut item, "call_id", Json::string(call.call_id.as_str()));
                put(&mut item, "name", Json::string(call.name.as_str()));
                put(&mut item, "arguments", Json::string(call.arguments.as_str()));
                put(&mut item, "status", Json::string(call.status.name()));
                if let Some(namespace) = &call.namespace {
                    put(&mut item, "namespace", Json::string(namespace.as_str()));
                }
                Json::Object(item)
            },
        }
    }
}

/// The string that `value` holds under `key`; empty where it holds none.
pub fn string_at(value: &Json, key: &str) -> (r: String)
    ensures
        r@ == string_in(value@, key@),
{
    match value.get(key) {
        Some(v) => match v.as_str() {
            Some(text) => text.to_owned(),
            None => String::new(),
        },
        None => String::new(),
    }
}

fn count_at(value: &Json, key: &str) -> (r: Option<i64>)
    ensures
        match r {
            Some(n) => int_at(value@, key@) == Some(n as int),
            None => int_at(value@, key@) is None,
        },
{
    match value.get(key) {
        Some(v) => v.as_i64(),
        None => None,
    }
}

/// The usage of a reply, in the terms of a Responses reply.
pub fn chat_usage(usage: &Json) -> (r: Option<Json>)
    requires
        usage_fits(usage@),
    ensures
        match r {
            Some(written) => usage_of(usage@) == Some(written@),
            None => usage_of(usage@) is None,
        },
{
    if !usage.is_object() {
        return None;
    }
    let input_tokens: i64 = match count_at(usage, "prompt_tokens") {
        Some(n) => n,
        None => 0,
    };
    let output_tokens: i64 = match count_at(usage, "completion_tokens") {
        Some(n) => n,
        None => 0,
    };
    let total_tokens: i64 = match count_at(usage, "total_tokens") {
        Some(n) => n,
        None => input_tokens + output_tokens,
    };
    let mut written: Vec<(String, Json)> = Vec::new();
    put(&mut written, "input_tokens", Json::number(input_tokens));
    put(&mut written, "output_tokens", Json::number(output_tokens));
    put(&mut written, "total_tokens", Json::number(total_tokens));
    Some(Json::Object(written))
}

/// Whether the total that has to be added up can be.
pub fn can_total(usage: &Json) -> (r: bool)
    ensures
        r == usage_fits(usage@),
{
    if !usage.is_object() {
        return true;
    }
    if let Some(_) = count_at(usage, "total_tokens") {
        return true;
    }
    let input_tokens: i64 = match count_at(usage, "prompt_tokens") {
        Some(n) => n,
        None => 0,
    };
    let output_tokens: i64 = match count_at(usage, "completion_tokens") {
        Some(n) => n,
        None => 0,
    };
    match input_tokens.checked_add(output_tokens) {
        Some(_) => true,
        None => false,
    }
}

fn message_of_choice<'a>(choice: &'a Json, absent: &'a Json) -> (r: &'a Json)
    requires
        absent@ is Null,
    ensures
        r@ == child(choice@, "message"@),
{
    match choice.get("message") {
        Some(message) => message,
        None => absent,
    }
}

/// The text of a reply's message, unless it is empty.
fn text_in(message: &Json) -> (r: Option<&str>)
    ensures
        match r {
            Some(text) => reply_text(message@) == Some(text@),
            None => reply_text(message@) is None,
        },
{
    match message.get("content") {
        Some(content) => match content.as_str() {
            Some(text) => if text.is_empty() {
                None
            } else {
                Some(text)
            },
            None => None,
        },
        None => None,
    }
}

/// The tool calls of a reply's message.
fn calls_in(message: &Json) -> (r: Option<&Vec<Json>>)
    ensures
        match r {
            Some(calls) => reply_calls(message@) == trees(calls@),
            None => reply_calls(message@).len() == 0,
        },
{
    match message.get("tool_calls") {
        Some(calls) => calls.as_array(),
        None => None,
    }
}

fn call_output(call: &Json, id: &String) -> (r: OutputItem)
    ensures
        r@ == call_item(call@, id@),
{
    let absent: Json = Json::Null;
    let function: &Json = match call.get("function") {
        Some(function) => function,
        None => &absent,
    };
    OutputItem::FunctionCall(
        FunctionToolCall {
            id: id.clone(),
            call_id: string_at(call, "id"),
            name: string_at(function, "name"),
            namespace: None,
            arguments: string_at(function, "arguments"),
            status: MessageStatus::Completed,
        },
    )
}

pub open spec fn texts_of(ids: Seq<String>) -> Seq<Seq<char>> {
    Seq::new(ids.len(), |i: int| ids[i]@)
}

/// What a list of output items says.
pub open spec fn items_view(items: Seq<OutputItem>) -> Seq<Item> {
    Seq::new(items.len(), |i: int| items[i]@)
}

/// The items that a reply's message becomes, under the given identifiers.
pub fn output_items(message: &Json, ids: &Vec<String>) -> (r: Vec<OutputItem>)
    requires
        ids.len() == item_count(message@),
    ensures
        items_view(r@) == items_of(message@, texts_of(ids@)),
{
    let ghost all = items_of(message@, texts_of(ids@));
    let mut output: Vec<OutputItem> = Vec::new();
    let mut next: usize = 0;
    if let Some(text) = text_in(message) {
        let mut content: Vec<OutputTextContent> = Vec::new();
        content.push(OutputTextContent { text: text.to_owned() });
        assert(texts(content@) =~= seq![text@]);
        output.push(
            OutputItem::Message(
                OutputMessage { id: ids[0].clone(), status: MessageStatus::Completed, content },
            ),
        );
        next = 1;
    }
    assert(items_view(output@) =~= all.take(next as int));
    if let Some(calls) = calls_in(message) {
        let mut i: usize = 0;
        let ghost start = next as int;
        while i < calls.len()
            invariant
                i <= calls.len(),
                next == start + i,
                start == (if reply_text(message@) is Some { 1int } else { 0int }),
                ids.len() == item_count(message@),
                reply_calls(message@) == trees(calls@),
                all == items_of(message@, texts_of(ids@)),
                items_view(output@) == all.take(next as int),
            decreases calls.len() - i,
        {
            let item: OutputItem = call_output(&calls[i], &ids[next]);
            proof {
                assert(all[next as int] == item@);
                assert(items_view(output@.push(item)) =~= items_view(output@).push(item@));
                assert(all.take(next + 1) =~= all.take(next as int).push(item@));
            }
            output.push(item);
            next = next + 1;
            i = i + 1;
        }
    }
    assert(all.take(next as int) =~= all);
    output
}

/// The parts of a reply that cannot be missing: its identifier and its first alternative.
fn reply_parts(chat: &Json) -> (r: ExecutorResult<(String, &Json)>)
    ensures
        match r {
            Ok((id, choice)) => fault_of(chat@) is None && text_at(chat@, "id"@) == Some(id@)
                && first_choice(chat@) == Some(choice@),
            Err(error) => error matches ExecutorError::ParseError(message) && fault_of(chat@)
                == Some(message@),
        },
{
    let id: String = match chat.get("id") {
        Some(id) => match id.as_str() {
            Some(id) => id.to_owned(),
            None => {
                return Err(
                    ExecutorError::ParseError(
                        "missing 'id' field in chat completion response".to_owned(),
                    ),
                );
            },
        },
        None => {
            return Err(
                ExecutorError::ParseError(
                    "missing 'id' field in chat completion response".to_owned(),
                ),
            );
        },
    };
    if let Some(choices) = chat.get("choices") {
        if let Some(choices) = choices.as_array() {
            if choices.len() > 0 {
                assert(trees(choices@)[0] == choices@[0]@);
                return Ok((id, &choices[0]));
            }
        }
    }
    Err(ExecutorError::ParseError("chat completion response has no choices".to_owned()))
}

/// The Responses reply that a Chat Completions reply becomes, under the given identifiers: one for
/// each item of the output.
pub fn responses_body(chat: &Json, ids: &Vec<String>) -> (r: ExecutorResult<Json>)
    requires
        fault_of(chat@) is None ==> ids.len() == item_count(message_in(chat@)),
        usage_fits(child(chat@, "usage"@)),
    ensures
        match r {
            Ok(reply) => fault_of(chat@) is None && reply@ == Tree::Object(
                responses_reply(chat@, texts_of(ids@)),
            ),
            Err(error) => error matches ExecutorError::ParseError(message) && fault_of(chat@)
                == Some(message@),
        },
{
    let absent: Json = Json::Null;
    let (id, choice) = match reply_parts(chat) {
        Ok(parts) => parts,
        Err(error) => {
            return Err(error);
        },
    };
    let message: &Json = message_of_choice(choice, &absent);
    let items: Vec<OutputItem> = output_items(message, ids);
    let ghost view = items_of(message@, texts_of(ids@));
    let mut output: Vec<Json> = Vec::new();
    let mut i: usize = 0;
    while i < items.len()
        invariant
            i <= items.len(),
            items_view(items@) == view,
            trees(output@) == item_trees(view).take(i as int),
        decreases items.len() - i,
    {
        let item: Json = items[i].to_json();
        proof {
            assert(items_view(items@)[i as int] == items@[i as int]@);
            lemma_trees_push(output@, item);
            assert(item_trees(view).take(i + 1) =~= item_trees(view).take(i as int).push(item@));
        }
        output.push(item);
        i = i + 1;
    }
    assert(item_trees(view).take(i as int) =~= item_trees(view));
    let truncated: bool = match choice.get("finish_reason") {
        Some(reason) => match reason.as_str() {
            Some(reason) => same_text(reason, "length"),
            None => false,
        },
        None => false,
    };
    let mut reply: Vec<(String, Json)> = Vec::new();
    put(&mut reply, "id", Json::String(id));
    put(&mut reply, "output", Json::Array(output));
    put(&mut reply, "status", Json::string(if truncated { "incomplete" } else { "completed" }));
    if truncated {
        let mut details: Vec<(String, Json)> = Vec::new();
        put(&mut details, "reason", Json::string("max_output_tokens"));
        put(&mut reply, "incomplete_details", Json::Object(details));
    }
    let usage: &Json = match chat.get("usage") {
        Some(usage) => usage,
        None => &absent,
    };
    if let Some(usage) = chat_usage(usage) {
        put(&mut reply, "usage", usage);
    }
    Ok(Json::Object(reply))
}

/// What is said of a usage whose total cannot be added up.
pub open spec fn usage_overflow() -> Seq<char> {
    "token counts of chat completion response do not add up"@
}

/// What the identifier of an output item begins with: the text's item comes first.
pub open spec fn id_prefix(message: Tree, i: int) -> &'static str {
    if i == 0 && reply_text(message) is Some {
        "msg_"
    } else {
        "fc_"
    }
}

/// `fresh_id` can have made this identifier for that prefix.
pub open spec fn is_drawn<F: Fn(&str) -> String>(fresh_id: F, prefix: &str, id: Seq<char>) -> bool {
    exists|made: String| made@ == id && #[trigger] call_ensures(fresh_id, (prefix,), made)
}

/// One identifier for each item of the output, each drawn from `fresh_id`.
pub open spec fn drawn_ids<F: Fn(&str) -> String>(
    fresh_id: F,
    message: Tree,
    ids: Seq<Seq<char>>,
) -> bool {
    ids.len() == item_count(message) && forall|i: int|
        0 <= i < ids.len() ==> is_drawn(fresh_id, id_prefix(message, i), #[trigger] ids[i])
}

/// Draws an identifier for each item that a reply's message becomes.
pub fn draw_ids<F: Fn(&str) -> String>(message: &Json, fresh_id: &F) -> (r: Vec<String>)
    requires
        forall|prefix: &str| call_requires(*fresh_id, (prefix,)),
    ensures
        drawn_ids(*fresh_id, message@, texts_of(r@)),
{
    let mut ids: Vec<String> = Vec::new();
    if let Some(_) = text_in(message) {
        ids.push(fresh_id("msg_"));
    }
    if let Some(calls) = calls_in(message) {
        let mut i: usize = 0;
        let ghost start = ids@.len();
        while i < calls.len()
            invariant
                i <= calls.len(),
                ids.len() == start + i,
                start == (if reply_text(message@) is Some { 1nat } else { 0nat }),
                reply_calls(message@) == trees(calls@),
                forall|prefix: &str| call_requires(*fresh_id, (prefix,)),
                forall|j: int|
                    0 <= j < ids@.len() ==> call_ensures(
                        *fresh_id,
                        (id_prefix(message@, j),),
                        #[trigger] ids@[j],
                    ),
            decreases calls.len() - i,
        {
            ids.push(fresh_id("fc_"));
            i = i + 1;
        }
    }
    proof {
        assert forall|i: int| 0 <= i < texts_of(ids@).len() implies is_drawn(
            *fresh_id,
            id_prefix(message@, i),
            #[trigger] texts_of(ids@)[i],
        ) by {
            assert(call_ensures(*fresh_id, (id_prefix(message@, i),), ids@[i]));
            assert(texts_of(ids@)[i] == ids@[i]@);
        }
    }
    ids
}

/// Translates a Chat Completions reply into a Responses reply, drawing an identifier for each item
/// of the output from `fresh_id`.
pub fn response_to_responses_json<F: Fn(&str) -> String>(body: &str, fresh_id: F) -> (r:
    ExecutorResult<String>)
    requires
        forall|prefix: &str| call_requires(fresh_id, (prefix,)),
    ensures
        match json_of(encode_utf8(body@)) {
            None => r matches Err(ExecutorError::JsonError(_)),
            Some(chat) => match fault_of(chat) {
                Some(fault) => r matches Err(ExecutorError::ParseError(message)) && message@
                    == fault,
                None => if !usage_fits(child(chat, "usage"@)) {
                    r matches Err(ExecutorError::ParseError(message)) && message@
                        == usage_overflow()
                } else {
                    r matches Ok(text) && exists|ids: Seq<Seq<char>>|
                        #![trigger responses_reply(chat, ids)]
                        drawn_ids(fresh_id, message_in(chat), ids) && text@ == json_text(
                            Tree::Object(responses_reply(chat, ids)),
                        ) && (rereadable(
                            Tree::Object(responses_reply(chat, ids)),
                            MAX_DEPTH as nat,
                        ) ==> json_of(encode_utf8(text@)) == Some(
                            Tree::Object(responses_reply(chat, ids)),
                        ))
                },
            },
        },
{
    let absent: Json = Json::Null;
    let chat: Json = match parse(body.as_bytes()) {
        Ok(chat) => chat,
        Err(error) => {
            return Err(ExecutorError::JsonError(error));
        },
    };
    let message: &Json = match reply_parts(&chat) {
        Ok((_, choice)) => message_of_choice(choice, &absent),
        Err(error) => {
            return Err(error);
        },
    };
    let usage: &Json = match chat.get("usage") {
        Some(usage) => usage,
        None => &absent,
    };
    if !can_total(usage) {
        return Err(
            ExecutorError::ParseError(
                "token counts of chat completion response do not add up".to_owned(),
            ),
        );
    }
    let ids: Vec<String> = draw_ids(message, &fresh_id);
    match responses_body(&chat, &ids) {
        Ok(reply) => match render(&reply) {
            Ok(text) => Ok(text),
            Err(error) => Err(ExecutorError::JsonError(error)),
        },
        Err(error) => Err(error),
    }
}

/// The status that goes by a name.
pub open spec fn named_status(name: Seq<char>) -> Option<MessageStatus> {
    if name == "completed"@ {
        Some(MessageStatus::Completed)
    } else if name == "incomplete"@ {
        Some(MessageStatus::Incomplete)
    } else if name == "in_progress"@ {
        Some(MessageStatus::InProgress)
    } else {
        None
    }
}

/// The text that a part of a message's content carries.
pub open spec fn part_read(part: Tree) -> Option<Seq<char>> {
    if text_at(part, "type"@) == Some("output_text"@) {
        text_at(part, "text"@)
    } else {
        None
    }
}

/// The texts of a message's content, where every part of it carries one.
pub open spec fn parts_read(parts: Seq<Tree>) -> Option<Seq<Seq<char>>> {
    if forall|i: int| 0 <= i < parts.len() ==> part_read(#[trigger] parts[i]) is Some {
        Some(Seq::new(parts.len(), |i: int| part_read(parts[i])->0))
    } else {
        None
    }
}

/// The namespace of a call: it may be left out.
pub open spec fn namespace_read(item: Tree) -> Option<Option<Seq<char>>> {
    match item.at("namespace"@) {
        None => Some(None),
        Some(Tree::Null) => Some(None),
        Some(Tree::String(text)) => Some(Some(text)),
        Some(_) => None,
    }
}

/// The status that an item carries.
pub open spec fn status_read(item: Tree) -> Option<MessageStatus> {
    match text_at(item, "status"@) {
        Some(name) => named_status(name),
        None => None,
    }
}

/// What an item on the wire says, if it is one of the known items.
pub open spec fn item_read(item: Tree) -> Option<Item> {
    let kind = text_at(item, "type"@);
    let id = text_at(item, "id"@);
    let status = status_read(item);
    if id is None || status is None {
        None
    } else if kind == Some("message"@) {
        match elements_at(item, "content"@) {
            Some(parts) => match parts_read(parts) {
                Some(content) => Some(Item::Message { id: id->0, status: status->0, content }),
                None => None,
            },
            None => None,
        }
    } else if kind == Some("function_call"@) {
        let call_id = text_at(item, "call_id"@);
        let name = text_at(item, "name"@);
        let arguments = text_at(item, "arguments"@);
        let namespace = namespace_read(item);
        if call_id is Some && name is Some && arguments is Some && namespace is Some {
            Some(
                Item::Call {
                    id: id->0,
                    call_id: call_id->0,
                    name: name->0,
                    namespace: namespace->0,
                    arguments: arguments->0,
                    status: status->0,
                },
            )
        } else {
            None
        }
    } else {
        None
    }
}

fn text_member<'a>(value: &'a Json, key: &str) -> (r: Option<&'a str>)
    ensures
        match r {
            Some(text) => text_at(value@, key@) == Some(text@),
            None => text_at(value@, key@) is None,
        },
{
    match value.get(key) {
        Some(v) => v.as_str(),
        None => None,
    }
}

fn read_status(item: &Json) -> (r: Option<MessageStatus>)
    ensures
        r == status_read(item@),
{
    match text_member(item, "status") {
        Some(name) => if same_text(name, "completed") {
            Some(MessageStatus::Completed)
        } else if same_text(name, "incomplete") {
            Some(MessageStatus::Incomplete)
        } else if same_text(name, "in_progress") {
            Some(MessageStatus::InProgress)
        } else {
            None
        },
        None => None,
    }
}

fn read_parts(parts: &Vec<Json>) -> (r: Option<Vec<OutputTextContent>>)
    ensures
        match r {
            Some(content) => parts_read(trees(parts@)) == Some(texts(content@)),
            None => parts_read(trees(parts@)) is None,
        },
{
    let mut content: Vec<OutputTextContent> = Vec::new();
    let mut i: usize = 0;
    while i < parts.len()
        invariant
            i <= parts.len(),
            content.len() == i,
            forall|j: int|
                0 <= j < i ==> part_read(#[trigger] trees(parts@)[j]) == Some(
                    content@[j].text@,
                ),
        decreases parts.len() - i,
    {
        assert(trees(parts@)[i as int] == parts@[i as int]@);
        let is_text: bool = match text_member(&parts[i], "type") {
            Some(kind) => same_text(kind, "output_text"),
            None => false,
        };
        if !is_text {
            assert(part_read(trees(parts@)[i as int]) is None);
            return None;
        }
        match text_member(&parts[i], "text") {
            Some(text) => {
                content.push(OutputTextContent { text: text.to_owned() });
            },
            None => {
                assert(part_read(trees(parts@)[i as int]) is None);
                return None;
            },
        }
        i = i + 1;
    }
    assert(parts_read(trees(parts@))->0 =~= texts(content@));
    Some(content)
}

impl OutputItem {
    /// Reads an item on the wire, if it is one of the known items.
    pub fn from_json(item: &Json) -> (r: Option<OutputItem>)
        ensures
            match r {
                Some(read) => item_read(item@) == Some(read@),
                None => item_read(item@) is None,
            },
    {
        let id: &str = match text_member(item, "id") {
            Some(id) => id,
            None => {
                return None;
            },
        };
        let status: MessageStatus = match read_status(item) {
            Some(status) => status,
            None => {
                return None;
            },
        };
        let kind: &str = match text_member(item, "type") {
            Some(kind) => kind,
            None => {
                return None;
            },
        };
        if same_text(kind, "message") {
            match item.get("content") {
                Some(parts) => match parts.as_array() {
                    Some(parts) => match read_parts(parts) {
                        Some(content) => Some(
                            OutputItem::Message(OutputMessage { id: id.to_owned(), status, content }),
                        ),
                        None => None,
                    },
                    None => None,
                },
                None => None,
            }
        } else if same_text(kind, "function_call") {
            let namespace: Option<String> = match item.get("namespace") {
                None => None,
                Some(Json::Null) => None,
                Some(Json::String(text)) => Some(text.clone()),
                Some(_) => {
                    return None;
                },
            };
            match (
                text_member(item, "call_id"),
                text_member(item, "name"),
                text_member(item, "arguments"),
            ) {
                (Some(call_id), Some(name), Some(arguments)) => Some(
                    OutputItem::FunctionCall(
                        FunctionToolCall {
                            id: id.to_owned(),
                            call_id: call_id.to_owned(),
                            name: name.to_owned(),
                            namespace,
                            arguments: arguments.to_owned(),
                            status,
                        },
                    ),
                ),
                _ => None,
            }
        } else {
            None
        }
    }
}

proof fn lemma_words()
    ensures
        "type"@ != "id"@,
        "type"@ != "role"@,
        "type"@ != "status"@,
        "type"@ != "content"@,
        "type"@ != "text"@,
        "type"@ != "annotations"@,
        "type"@ != "call_id"@,
        "type"@ != "name"@,
        "type"@ != "arguments"@,
        "type"@ != "namespace"@,
        "id"@ != "role"@,
        "id"@ != "status"@,
        "id"@ != "content"@,
        "id"@ != "call_id"@,
        "id"@ != "name"@,
        "id"@ != "arguments"@,
        "id"@ != "namespace"@,
        "status"@ != "content"@,
        "status"@ != "namespace"@,
        "text"@ != "annotations"@,
        "call_id"@ != "name"@,
        "call_id"@ != "arguments"@,
        "call_id"@ != "status"@,
        "call_id"@ != "namespace"@,
        "name"@ != "arguments"@,
        "name"@ != "status"@,
        "name"@ != "namespace"@,
        "arguments"@ != "status"@,
        "arguments"@ != "namespace"@,
        "message"@ != "function_call"@,
        "completed"@ != "incomplete"@,
        "completed"@ != "in_progress"@,
        "incomplete"@ != "in_progress"@,
        "output"@ != "usage"@,
        "output"@ != "incomplete_details"@,
        "output"@ != "status"@,
        "output"@ != "id"@,
        "status"@ != "usage"@,
        "status"@ != "incomplete_details"@,
        "incomplete_details"@ != "usage"@,
        "incomplete_details"@ != "id"@,
        "usage"@ != "id"@,
{
    reveal_strlit("type");
    reveal_strlit("id");
    reveal_strlit("role");
    reveal_strlit("status");
    reveal_strlit("content");
    reveal_strlit("text");
    reveal_strlit("annotations");
    reveal_strlit("call_id");
    reveal_strlit("name");
    reveal_strlit("arguments");
    reveal_strlit("namespace");
    reveal_strlit("message");
    reveal_strlit("function_call");
    reveal_strlit("completed");
    reveal_strlit("incomplete");
    reveal_strlit("in_progress");
    reveal_strlit("output");
    reveal_strlit("usage");
    reveal_strlit("incomplete_details");
    assert("type"@.len() == 4);
    assert("id"@.len() == 2);
    assert("role"@.len() == 4);
    assert("status"@.len() == 6);
    assert("content"@.len() == 7);
    assert("text"@.len() == 4);
    assert("annotations"@.len() == 11);
    assert("call_id"@.len() == 7);
    assert("name"@.len() == 4);
    assert("arguments"@.len() == 9);
    assert("namespace"@.len() == 9);
    assert("message"@.len() == 7);
    assert("function_call"@.len() == 13);
    assert("completed"@.len() == 9);
    assert("incomplete"@.len() == 10);
    assert("in_progress"@.len() == 11);
    assert("output"@.len() == 6);
    assert("usage"@.len() == 5);
    assert("incomplete_details"@.len() == 18);
    assert("type"@[0] != "role"@[0]);
    assert("type"@[0] != "name"@[0]);
    assert("type"@[1] != "text"@[1]);
    assert("arguments"@[0] != "namespace"@[0]);
    assert("output"@[0] != "status"@[0]);
}

/// An output item that was written is read back as it was: none is lost to a mistake in its shape.
pub proof fn items_survive(item: Item)
    ensures
        item_read(item_tree(item)) == Some(item),
{
    lemma_words();
    match item {
        Item::Message { id, status, content } => {
            let parts = text_parts(content);
            assert forall|i: int| 0 <= i < parts.len() implies part_read(#[trigger] parts[i])
                == Some(content[i]) by {}
            assert(parts_read(parts)->0 =~= content);
            assert(item_read(item_tree(item)) =~= Some(item));
        },
        Item::Call { id, call_id, name, namespace, arguments, status } => {},
    }
}

/// A reply is incomplete exactly where the model ran out of room; then, and only then, the reply
/// says why.
pub proof fn truncation_is_reported(chat: Tree, ids: Seq<Seq<char>>)
    ensures
        responses_reply(chat, ids)["status"@] == Tree::String("incomplete"@) <==> is_truncated(
            first_choice(chat)->0,
        ),
        responses_reply(chat, ids)["status"@] == Tree::String("completed"@) <==> !is_truncated(
            first_choice(chat)->0,
        ),
        responses_reply(chat, ids).contains_key("incomplete_details"@) <==> is_truncated(
            first_choice(chat)->0,
        ),
{
    lemma_words();
}

/// Every tool call of the reply becomes an item, in order, behind the text if there is one; each
/// item has its own identifier, and a call keeps the identifier under which the client answers.
pub proof fn output_is_complete(chat: Tree, ids: Seq<Seq<char>>)
    requires
        ids.len() == item_count(message_in(chat)),
    ensures
        responses_reply(chat, ids)["output"@] == Tree::Array(
            item_trees(items_of(message_in(chat), ids)),
        ),
        items_of(message_in(chat), ids).len() == ids.len(),
        forall|i: int|
            #![trigger items_of(message_in(chat), ids)[i]]
            0 <= i < ids.len() ==> match items_of(message_in(chat), ids)[i] {
                Item::Message { id, status, content } => i == 0 && id == ids[i] && content
                    == seq![reply_text(message_in(chat))->0],
                Item::Call { id, call_id, name, namespace, arguments, status } => id == ids[i]
                    && call_id == string_in(
                    reply_calls(message_in(chat))[i - (item_count(message_in(chat)) - reply_calls(
                        message_in(chat),
                    ).len())],
                    "id"@,
                ),
            },
{
    lemma_words();
}

} // verus!
