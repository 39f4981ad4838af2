//! The decisions behind the endpoints for an orchestrator.
//!
//! The split routes ask for a shared token, the probes do not. The token stands for the calling
//! workload, not for an end user.

use vstd::prelude::*;
use vstd::utf8::encode_utf8;

use crate::error::{ExecutorError, ExecutorResult};
use crate::headers::{header_text, is_plain_name, text_of_header};
use crate::split::{ensure_splittable, feature_of, not_splittable, Rehydrated};
use crate::text::lemma_same_bytes;

verus! {

/// How many bytes the body of a request may have.
pub const MAX_BODY_SIZE: usize = 10 * 1024 * 1024;

/// The header that carries the shared token. `Authorization` stays free for the end user's own.
pub const WORKLOAD_TOKEN_HEADER: &'static str = "x-agentic-workload-token";

/// A reply that is decided without asking anyone: a status and a JSON text.
#[derive(Debug)]
pub struct Reply {
    pub status: u16,
    pub body: &'static str,
}

pub open spec fn is_unauthorized(reply: Reply) -> bool {
    reply.status == 401 && reply.body@
        == "{\"error\":{\"type\":\"invalid_request_error\",\"message\":\"missing or invalid bearer token\"}}"@
}

pub open spec fn is_too_large(reply: Reply) -> bool {
    reply.status == 413 && reply.body@
        == "{\"error\":{\"type\":\"invalid_request_error\",\"message\":\"request body too large\"}}"@
}

/// Whether two tokens are equal. Every byte is looked at whatever the ones before it were, so that
/// a wrong token takes the same time wherever it is wrong.
fn token_matches(presented: &str, expected: &str) -> (r: bool)
    ensures
        r == (presented@ == expected@),
{
    let left: &[u8] = presented.as_bytes();
    let right: &[u8] = expected.as_bytes();
    if left.len() != right.len() {
        return false;
    }
    let mut differences: u8 = 0;
    let mut i: usize = 0;
    while i < left.len()
        invariant
            i <= left.len(),
            left.len() == right.len(),
            differences == 0 <==> forall|j: int| 0 <= j < i ==> left@[j] == right@[j],
        decreases left.len() - i,
    {
        let a: u8 = left[i];
        let b: u8 = right[i];
        assert((differences | (a ^ b)) == 0 <==> differences == 0 && a == b) by (bit_vector);
        proof {
            if a == b && differences == 0 {
                assert forall|j: int| 0 <= j < i + 1 implies left@[j] == right@[j] by {}
            }
        }
        differences = differences | (a ^ b);
        i = i + 1;
    }
    proof {
        if differences == 0 {
            assert(left@ =~= right@);
            lemma_same_bytes(presented@, expected@);
        } else if presented@ == expected@ {
            assert(encode_utf8(presented@) == encode_utf8(expected@));
        }
    }
    differences == 0
}

/// Lets a call through that presents the shared token, and answers any other.
pub fn require_token(headers: &http::HeaderMap<http::HeaderValue>, expected: &str) -> (r: Result<
    (),
    Reply,
>)
    ensures
        match r {
            Ok(_) => text_of_header(*headers, WORKLOAD_TOKEN_HEADER@) == Some(expected@),
            Err(reply) => text_of_header(*headers, WORKLOAD_TOKEN_HEADER@) != Some(expected@)
                && is_unauthorized(reply),
        },
{
    proof {
        reveal_strlit("x-agentic-workload-token");
        assert(is_plain_name(WORKLOAD_TOKEN_HEADER@));
    }
    if let Some(token) = header_text(headers, WORKLOAD_TOKEN_HEADER) {
        if token_matches(token, expected) {
            return Ok(());
        }
    }
    Err(
        Reply {
            status: 401,
            body: "{\"error\":{\"type\":\"invalid_request_error\",\"message\":\"missing or invalid bearer token\"}}",
        },
    )
}

/// The answer to a body of more than [`MAX_BODY_SIZE`] bytes.
pub fn too_large() -> (r: Reply)
    ensures
        is_too_large(r),
{
    Reply {
        status: 413,
        body: "{\"error\":{\"type\":\"invalid_request_error\",\"message\":\"request body too large\"}}",
    }
}

/// The status of a service that runs.
pub fn health() -> (r: u16)
    ensures
        r == 200,
{
    200
}

/// The status of a service whose storage answers, or does not. The models are none of its business.
pub fn ready(storage_ready: bool) -> (r: u16)
    ensures
        r == (if storage_ready { 200int } else { 503 }),
{
    if storage_ready {
        200
    } else {
        503
    }
}

/// Goes on with a hydration once the turn is rehydrated. Rehydration can bring back a tool of the
/// gateway from the stored turn, so what will run is looked at as well as what was asked for.
pub fn rehydrated<C>(outcome: ExecutorResult<Rehydrated<C>>) -> (r: ExecutorResult<Rehydrated<C>>)
    ensures
        match outcome {
            Ok(turn) => match feature_of(turn.enriched_request, false) {
                Some(feature) => r matches Err(ExecutorError::InvalidRequest(message)) && message@
                    == not_splittable(feature),
                None => r == outcome,
            },
            Err(_) => r == outcome,
        },
{
    match outcome {
        Ok(turn) => match ensure_splittable(&turn.enriched_request) {
            Ok(()) => Ok(turn),
            Err(error) => Err(error),
        },
        Err(error) => Err(error),
    }
}

/// The body of a call that persists a turn: the context, and the reply in one of two forms.
#[derive(Debug)]
pub struct PersistRequest {
    pub context: String,
    /// The text of a complete JSON reply.
    pub response: Option<String>,
    /// The frames of a stream, as they were relayed.
    pub sse: Option<String>,
}

/// A model's reply, in the form in which it came.
#[derive(Debug)]
pub enum UpstreamBody {
    Json(String),
    Sse(String),
}

/// A turn to be persisted: its context, still sealed, and the model's reply.
#[derive(Debug)]
pub struct Persisting {
    pub context: String,
    pub upstream: UpstreamBody,
}

/// Begins a persistence: the reply has to come in exactly one form.
pub fn persist(request: PersistRequest) -> (r: ExecutorResult<Persisting>)
    ensures
        match (request.response, request.sse) {
            (Some(json), None) => r matches Ok(turn) && turn.context == request.context
                && turn.upstream == UpstreamBody::Json(json),
            (None, Some(sse)) => r matches Ok(turn) && turn.context == request.context
                && turn.upstream == UpstreamBody::Sse(sse),
            _ => r matches Err(ExecutorError::InvalidRequest(message)) && message@
                == "exactly one of `response` or `sse` is required"@,
        },
{
    match (request.response, request.sse) {
        (Some(json), None) => Ok(
            Persisting { context: request.context, upstream: UpstreamBody::Json(json) },
        ),
        (None, Some(sse)) => Ok(
            Persisting { context: request.context, upstream: UpstreamBody::Sse(sse) },
        ),
        _ => Err(
            ExecutorError::InvalidRequest(
                "exactly one of `response` or `sse` is required".to_owned(),
            ),
        ),
    }
}

} // verus!
