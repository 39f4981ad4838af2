//! Split execution: a stateful turn in two steps, for an orchestrator that runs inference itself.
//!
//! Hydration turns a request into one that carries its own history, with a context for the turn;
//! the orchestrator calls a model, and persistence takes the context back with the model's reply.
//! Reading the history and storing the turn are work of the storage; what is admitted, forwarded
//! and stored is decided here.

use vstd::prelude::*;
use vstd::utf8::encode_utf8;

use crate::error::{ExecutorError, ExecutorResult};
use crate::json::Json;
use crate::text::{join3, same_text};
use crate::types::{InputItem, RequestPayload, ResponsesInput, ResponsesTool};
use crate::wire::json_of;

verus! {

/// Some of the tools are run by the gateway.
pub open spec fn any_gateway_tool(tools: Seq<ResponsesTool>) -> bool {
    exists|i: int| 0 <= i < tools.len() && (#[trigger] tools[i]) is Gateway
}

/// Some of the items are checkpoints of compacted history.
pub open spec fn any_checkpoint(items: Seq<InputItem>) -> bool {
    exists|i: int| 0 <= i < items.len() && (#[trigger] items[i]) is Compaction
}

/// The request declares a tool that the gateway runs.
pub open spec fn has_gateway_tool(request: RequestPayload) -> bool {
    match request.tools {
        Some(tools) => any_gateway_tool(tools@),
        None => false,
    }
}

/// The input holds a checkpoint of compacted history.
pub open spec fn has_checkpoint(request: RequestPayload) -> bool {
    match request.input {
        ResponsesInput::Items(items) => any_checkpoint(items@),
        ResponsesInput::Text(_) => false,
    }
}

/// The first feature of a request that needs state kept between the steps of a turn. A caller that
/// runs the tool loop itself makes up for the tools.
pub open spec fn feature_of(request: RequestPayload, tool_loop: bool) -> Option<Seq<char>> {
    if request.conversation_id is Some {
        Some("conversation_id"@)
    } else if has_gateway_tool(request) && !tool_loop {
        Some("gateway-owned tools"@)
    } else if has_checkpoint(request) {
        Some("compaction input"@)
    } else if request.context_management is Some {
        Some("context_management"@)
    } else {
        None
    }
}

/// What is said of a request that cannot be split.
pub open spec fn not_splittable(feature: Seq<char>) -> Seq<char> {
    feature + " is not supported for split execution"@
}

fn find_gateway_tool(tools: &Vec<ResponsesTool>) -> (r: bool)
    ensures
        r == any_gateway_tool(tools@),
{
    let mut i: usize = 0;
    while i < tools.len()
        invariant
            i <= tools.len(),
            forall|j: int| 0 <= j < i ==> !((#[trigger] tools@[j]) is Gateway),
        decreases tools.len() - i,
    {
        if let ResponsesTool::Gateway(_) = &tools[i] {
            assert(tools@[i as int] is Gateway);
            return true;
        }
        i = i + 1;
    }
    false
}

fn find_checkpoint(items: &Vec<InputItem>) -> (r: bool)
    ensures
        r == any_checkpoint(items@),
{
    let mut i: usize = 0;
    while i < items.len()
        invariant
            i <= items.len(),
            forall|j: int| 0 <= j < i ==> !((#[trigger] items@[j]) is Compaction),
        decreases items.len() - i,
    {
        if let InputItem::Compaction = &items[i] {
            assert(items@[i as int] is Compaction);
            return true;
        }
        i = i + 1;
    }
    false
}

fn declares_gateway_tool(request: &RequestPayload) -> (r: bool)
    ensures
        r == has_gateway_tool(*request),
{
    match &request.tools {
        Some(tools) => find_gateway_tool(tools),
        None => false,
    }
}

fn holds_checkpoint(request: &RequestPayload) -> (r: bool)
    ensures
        r == has_checkpoint(*request),
{
    match &request.input {
        ResponsesInput::Items(items) => find_checkpoint(items),
        ResponsesInput::Text(_) => false,
    }
}

impl RequestPayload {
    /// The first feature of the request that needs state kept between the steps of a turn.
    pub fn in_process_feature(&self) -> (r: Option<&'static str>)
        ensures
            match r {
                Some(feature) => feature_of(*self, false) == Some(feature@),
                None => feature_of(*self, false) is None,
            },
    {
        self.unsplittable_feature(false)
    }

    fn unsplittable_feature(&self, tool_loop: bool) -> (r: Option<&'static str>)
        ensures
            match r {
                Some(feature) => feature_of(*self, tool_loop) == Some(feature@),
                None => feature_of(*self, tool_loop) is None,
            },
    {
        if self.conversation_id.is_some() {
            Some("conversation_id")
        } else if !tool_loop && declares_gateway_tool(self) {
            Some("gateway-owned tools")
        } else if holds_checkpoint(self) {
            Some("compaction input")
        } else if self.context_management.is_some() {
            Some("context_management")
        } else {
            None
        }
    }
}

/// Refuses a request that needs state kept between the steps of a turn, and names the feature that
/// needs it.
pub fn ensure_splittable(request: &RequestPayload) -> (r: ExecutorResult<()>)
    ensures
        match feature_of(*request, false) {
            Some(feature) => r matches Err(ExecutorError::InvalidRequest(message)) && message@
                == not_splittable(feature),
            None => r is Ok,
        },
{
    admit_split(request, false)
}

/// The same, for a caller that may run the tool loop itself.
pub fn admit_split(request: &RequestPayload, tool_loop: bool) -> (r: ExecutorResult<()>)
    ensures
        match feature_of(*request, tool_loop) {
            Some(feature) => r matches Err(ExecutorError::InvalidRequest(message)) && message@
                == not_splittable(feature),
            None => r is Ok,
        },
{
    match request.unsplittable_feature(tool_loop) {
        Some(feature) => {
            let message: String = join3(feature, " is not supported for split execution", "");
            proof {
                reveal_strlit("");
                assert(message@ =~= not_splittable(feature@));
            }
            Err(ExecutorError::InvalidRequest(message))
        },
        None => Ok(()),
    }
}

/// What hydration hands out: the request to be sent to a model, and the context that comes back
/// with the model's reply.
#[derive(Debug)]
pub struct Hydration<C> {
    /// The text of a JSON value. The caller forwards it as it stands.
    pub request: String,
    /// To be handed back unchanged.
    pub context: C,
}

/// A context that rehydration restored from storage.
#[derive(Debug)]
pub struct Rehydrated<C> {
    pub context: C,
    /// The request with its history, as it will run.
    pub enriched_request: RequestPayload,
    /// Whether the client asked for a stream.
    pub stream: bool,
}

/// The four characters that JSON allows between its tokens.
pub open spec fn is_json_space(c: char) -> bool {
    c == ' ' || c == '\n' || c == '\t' || c == '\r'
}

/// A text without the JSON whitespace around it.
pub open spec fn json_trimmed(text: Seq<char>) -> Seq<char>
    decreases text.len(),
{
    if text.len() == 0 {
        text
    } else if is_json_space(text.first()) {
        json_trimmed(text.drop_first())
    } else if is_json_space(text.last()) {
        json_trimmed(text.drop_last())
    } else {
        text
    }
}

/// Whether `serde_json::value::RawValue::from_string` takes a text for a JSON value.
pub uninterp spec fn is_json_text(text: Seq<char>) -> bool;

/// `serde_json::value::RawValue::from_string`: the text of a JSON value, without the whitespace
/// around it. Whatever `serde_json::from_slice` reads is such a text.
#[verifier::external_body]
fn raw_json(text: String) -> (r: Result<String, serde_json::Error>)
    ensures
        r is Ok <==> is_json_text(text@),
        r matches Ok(raw) ==> raw@ == json_trimmed(text@),
        json_of(encode_utf8(text@)) is Some ==> r is Ok,
{
    serde_json::value::RawValue::from_string(text).map(|raw| raw.get().to_owned())
}

/// The request to be sent to a model, from the text that was built for it.
pub fn forwardable(built: ExecutorResult<String>) -> (r: ExecutorResult<String>)
    ensures
        match built {
            Ok(text) => if is_json_text(text@) {
                r matches Ok(request) && request@ == json_trimmed(text@)
            } else {
                r matches Err(ExecutorError::JsonError(_))
            },
            Err(error) => r == Err::<String, ExecutorError>(error),
        },
        built matches Ok(text) && json_of(encode_utf8(text@)) is Some ==> r is Ok,
{
    match built {
        Ok(text) => match raw_json(text) {
            Ok(request) => Ok(request),
            Err(error) => Err(ExecutorError::JsonError(error)),
        },
        Err(error) => Err(error),
    }
}

/// Begins a hydration: hands the request on to be rehydrated, or refuses it.
pub fn hydrate(request: RequestPayload) -> (r: ExecutorResult<RequestPayload>)
    ensures
        match feature_of(request, false) {
            Some(feature) => r matches Err(ExecutorError::InvalidRequest(message)) && message@
                == not_splittable(feature),
            None => r == Ok::<RequestPayload, ExecutorError>(request),
        },
{
    match ensure_splittable(&request) {
        Ok(()) => Ok(request),
        Err(error) => Err(error),
    }
}

/// Ends a hydration: the context that was rehydrated, with the request that was built from it.
pub fn hydrated<C>(context: C, built: ExecutorResult<String>) -> (r: ExecutorResult<Hydration<C>>)
    ensures
        match built {
            Ok(text) => if is_json_text(text@) {
                r matches Ok(hydration) && hydration.request@ == json_trimmed(text@)
                    && hydration.context == context
            } else {
                r matches Err(ExecutorError::JsonError(_))
            },
            Err(error) => r == Err::<Hydration<C>, ExecutorError>(error),
        },
        built matches Ok(text) && json_of(encode_utf8(text@)) is Some ==> r is Ok,
{
    match forwardable(built) {
        Ok(request) => Ok(Hydration { request, context }),
        Err(error) => Err(error),
    }
}

/// How far a response has come.
#[derive(Debug, Clone, Copy, PartialEq, Eq, Structural)]
pub enum ResponseStatus {
    Completed,
    Incomplete,
    /// Anything that does not end a turn, unknown statuses among it.
    InProgress,
}

/// The reply to a turn.
#[derive(Debug)]
pub struct ResponsePayload {
    pub status: String,
    /// The whole envelope.
    pub body: Json,
}

/// The status that goes by a name.
pub open spec fn named_response_status(name: Seq<char>) -> ResponseStatus {
    if name == "completed"@ {
        ResponseStatus::Completed
    } else if name == "incomplete"@ {
        ResponseStatus::Incomplete
    } else {
        ResponseStatus::InProgress
    }
}

/// A turn can be stored once its reply is complete, or was cut off for good.
pub open spec fn is_storable(status: Seq<char>) -> bool {
    named_response_status(status) is Completed || named_response_status(status) is Incomplete
}

/// What is said of a reply that cannot be stored.
pub open spec fn not_storable(status: Seq<char>) -> Seq<char> {
    "upstream response status '"@ + status + "' cannot be persisted"@
}

impl ResponseStatus {
    /// The status that goes by a name.
    pub fn named(name: &str) -> (r: ResponseStatus)
        ensures
            r == named_response_status(name@),
    {
        if same_text(name, "completed") {
            ResponseStatus::Completed
        } else if same_text(name, "incomplete") {
            ResponseStatus::Incomplete
        } else {
            ResponseStatus::InProgress
        }
    }
}

/// Begins a persistence: hands the reply on to be stored, or refuses it. A reply that is still in
/// progress would leave behind an identifier that can never be continued.
pub fn persist(payload: ExecutorResult<ResponsePayload>) -> (r: ExecutorResult<ResponsePayload>)
    ensures
        match payload {
            Ok(reply) => if is_storable(reply.status@) {
                r == payload
            } else {
                r matches Err(ExecutorError::InvalidRequest(message)) && message@ == not_storable(
                    reply.status@,
                )
            },
            Err(_) => r == payload,
        },
{
    match payload {
        Ok(reply) => match ResponseStatus::named(reply.status.as_str()) {
            ResponseStatus::Completed => Ok(reply),
            ResponseStatus::Incomplete => Ok(reply),
            ResponseStatus::InProgress => Err(
                ExecutorError::InvalidRequest(
                    join3(
                        "upstream response status '",
                        reply.status.as_str(),
                        "' cannot be persisted",
                    ),
                ),
            ),
        },
        Err(error) => Err(error),
    }
}

/// Whether a turn is stored: where the request asks for it, or continues a chain. Asking not to
/// store does not break a chain.
pub fn is_kept(store: bool, continues: bool) -> (r: bool)
    ensures
        r == (store || continues),
{
    store || continues
}

/// Ends a persistence: the reply, once it is stored.
pub fn persisted(reply: ResponsePayload, stored: ExecutorResult<()>) -> (r: ExecutorResult<
    ResponsePayload,
>)
    ensures
        match stored {
            Ok(_) => r == Ok::<ResponsePayload, ExecutorError>(reply),
            Err(error) => r == Err::<ResponsePayload, ExecutorError>(error),
        },
{
    match stored {
        Ok(()) => Ok(reply),
        Err(error) => Err(error),
    }
}

/// Streaming, storing and continuing are no obstacle: what counts is the features that need state
/// between the steps.
pub proof fn only_features_count(one: RequestPayload, other: RequestPayload, tool_loop: bool)
    requires
        one.conversation_id is Some == other.conversation_id is Some,
        one.tools == other.tools,
        one.input == other.input,
        one.context_management is Some == other.context_management is Some,
    ensures
        feature_of(one, tool_loop) == feature_of(other, tool_loop),
{
}

/// A request without a conversation, tools, checkpoints or context management can be split.
pub proof fn plain_turns_are_splittable(request: RequestPayload, tool_loop: bool)
    requires
        request.conversation_id is None,
        request.tools is None,
        request.input is Text,
        request.context_management is None,
    ensures
        feature_of(request, tool_loop) is None,
{
}

/// A caller that runs the tool loop gets everything admitted that is admitted without it, and
/// beyond that only requests with gateway-owned tools.
pub proof fn tool_loop_admits_tools(request: RequestPayload)
    ensures
        feature_of(request, false) is None ==> feature_of(request, true) is None,
        feature_of(request, true) is None && feature_of(request, false) is Some
            ==> has_gateway_tool(request) && feature_of(request, false) == Some(
            "gateway-owned tools"@,
        ),
{
}

} // verus!
