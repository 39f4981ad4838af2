//! What split execution admits, forwards and stores.

use vstd::prelude::*;

use crate::handler::{
    is_too_large, is_unauthorized, Reply, MAX_BODY_SIZE, WORKLOAD_TOKEN_HEADER,
};
use crate::split::{
    feature_of, is_storable, named_response_status, not_splittable, not_storable, ResponseStatus,
};
use crate::types::RequestPayload;

verus! {

/// A tool of the gateway's own, wherever it stands among the tools, has a request refused whose
/// caller does not run the tool loop.
pub proof fn a_gateway_tool_anywhere_is_refused(request: RequestPayload, i: int)
    requires
        request.tools is Some,
        0 <= i < request.tools->0@.len(),
        request.tools->0@[i] is Gateway,
    ensures
        feature_of(request, false) is Some,
        request.conversation_id is None ==> feature_of(request, false) == Some(
            "gateway-owned tools"@,
        ),
{
    assert(crate::split::any_gateway_tool(request.tools->0@));
}

/// A checkpoint of compacted history, wherever it stands in the input, has a request refused, with
/// or without the tool loop.
pub proof fn a_checkpoint_anywhere_is_refused(request: RequestPayload, i: int, tool_loop: bool)
    requires
        request.input is Items,
        0 <= i < request.input->Items_0@.len(),
        request.input->Items_0@[i] is Compaction,
    ensures
        feature_of(request, tool_loop) is Some,
        request.conversation_id is None && request.tools is None ==> feature_of(request, tool_loop)
            == Some("compaction input"@),
{
    assert(crate::split::any_checkpoint(request.input->Items_0@));
}

/// A conversation and context management have a request refused, with or without the tool loop; the
/// conversation is named before anything else.
pub proof fn conversations_and_context_management_are_refused(
    request: RequestPayload,
    tool_loop: bool,
)
    ensures
        request.conversation_id is Some ==> feature_of(request, tool_loop) == Some(
            "conversation_id"@,
        ),
        request.context_management is Some ==> feature_of(request, tool_loop) is Some,
        request.context_management is Some && request.conversation_id is None && request.tools
            is None && request.input is Text ==> feature_of(request, tool_loop) == Some(
            "context_management"@,
        ),
{
}

/// Nothing else is refused: without a conversation, context management or a checkpoint, and with no
/// tool of the gateway's own unless the caller runs the tool loop, a request is admitted.
pub proof fn nothing_else_is_refused(request: RequestPayload, tool_loop: bool)
    requires
        request.conversation_id is None,
        request.context_management is None,
        !tool_loop && request.tools is Some ==> forall|i: int|
            0 <= i < request.tools->0@.len() ==> !((#[trigger] request.tools->0@[i]) is Gateway),
        request.input is Items ==> forall|i: int|
            0 <= i < request.input->Items_0@.len() ==> !((#[trigger] request.input->Items_0@[i])
                is Compaction),
    ensures
        feature_of(request, tool_loop) is None,
{
}

/// A refusal names the feature.
pub proof fn refusals_name_the_feature(feature: Seq<char>, status: Seq<char>)
    ensures
        not_splittable(feature) == feature + " is not supported for split execution"@,
        not_storable(status) == "upstream response status '"@ + status + "' cannot be persisted"@,
{
}

/// A reply is stored where it is completed or incomplete, and under no other status.
pub proof fn only_what_has_ended_is_stored(status: Seq<char>)
    ensures
        is_storable(status) <==> status == "completed"@ || status == "incomplete"@,
        named_response_status("completed"@) == ResponseStatus::Completed,
        status == "incomplete"@ ==> named_response_status(status) == ResponseStatus::Incomplete,
        status != "completed"@ && status != "incomplete"@ ==> named_response_status(status)
            == ResponseStatus::InProgress,
{
    reveal_strlit("completed");
    reveal_strlit("incomplete");
    assert("completed"@.len() == 9);
    assert("incomplete"@.len() == 10);
}

/// The replies that are decided without asking anyone, and the limits that decide.
pub proof fn fixed_replies_say_why(reply: Reply)
    ensures
        is_unauthorized(reply) <==> reply.status == 401 && reply.body@
            == "{\"error\":{\"type\":\"invalid_request_error\",\"message\":\"missing or invalid bearer token\"}}"@,
        is_too_large(reply) <==> reply.status == 413 && reply.body@
            == "{\"error\":{\"type\":\"invalid_request_error\",\"message\":\"request body too large\"}}"@,
        WORKLOAD_TOKEN_HEADER@ == "x-agentic-workload-token"@,
        MAX_BODY_SIZE == 10_485_760,
{
}

} // verus!
