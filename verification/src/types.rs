//! Requests and replies, as far as the logic reads them.

use vstd::prelude::*;

use crate::json::Json;

verus! {

/// The input of a Responses request.
#[derive(Debug)]
pub enum ResponsesInput {
    Text(String),
    Items(Vec<InputItem>),
}

/// One item of a Responses input.
#[derive(Debug)]
pub enum InputItem {
    Message(InputMessage),
    FunctionCall(FunctionCall),
    FunctionCallOutput(FunctionCallOutput),
    CustomToolCall,
    CustomToolCallOutput,
    Reasoning,
    /// A checkpoint that stands for compacted history.
    Compaction,
    Unknown,
}

#[derive(Debug)]
pub struct InputMessage {
    pub role: String,
    pub content: InputMessageContent,
}

#[derive(Debug)]
pub enum InputMessageContent {
    Text(String),
    Parts(Vec<InputContent>),
}

/// One part of a message's content.
#[derive(Debug)]
pub enum InputContent {
    InputText(TextContent),
    OutputText(TextContent),
    ReasoningText(TextContent),
    InputImage,
    Unknown,
}

#[derive(Debug)]
pub struct TextContent {
    pub text: String,
}

/// A call that the model made to a function.
#[derive(Debug)]
pub struct FunctionCall {
    pub call_id: String,
    pub name: String,
    pub arguments: String,
}

/// What the function returned, as it stands on the wire.
#[derive(Debug)]
pub struct FunctionCallOutput {
    pub call_id: String,
    pub output: Json,
}

/// A tool that a client declares.
#[derive(Debug)]
pub enum ResponsesTool {
    /// A function that the client runs.
    Function(FunctionTool),
    /// A freeform tool that the client runs.
    Custom(CustomTool),
    /// A tool that the gateway runs, by its type.
    Gateway(String),
}

/// A tool as it is declared to the model.
#[derive(Debug)]
pub enum UpstreamTool {
    Function(FunctionTool),
    Custom(CustomTool),
}

#[derive(Debug)]
pub struct FunctionTool {
    pub name: String,
    pub description: Option<String>,
    pub parameters: Option<Json>,
}

#[derive(Debug)]
pub struct CustomTool {
    pub name: String,
}

/// Which tool the model is to use.
#[derive(Debug)]
pub enum ToolChoice {
    /// The model decides; the default.
    Auto,
    /// No tool at all: `none` on the wire.
    Never,
    Required,
    Function { name: String },
    Custom { name: String },
}

/// A client's Responses request, as far as this library decides on it.
#[derive(Debug)]
pub struct RequestPayload {
    pub model: String,
    pub input: ResponsesInput,
    pub conversation_id: Option<String>,
    pub previous_response_id: Option<String>,
    pub tools: Option<Vec<ResponsesTool>>,
    pub context_management: Option<Json>,
    pub store: bool,
    pub stream: bool,
}

/// A Responses request made ready for a model: tools normalized, checkpoints folded into the input.
#[derive(Debug)]
pub struct UpstreamRequest {
    pub model: String,
    pub instructions: Option<String>,
    pub input: ResponsesInput,
    pub max_output_tokens: Option<u32>,
    pub temperature: Option<serde_json::Number>,
    pub top_p: Option<serde_json::Number>,
    pub parallel_tool_calls: Option<bool>,
    pub tools: Option<Vec<UpstreamTool>>,
    pub tool_choice: Option<ToolChoice>,
}

} // verus!
