//! The decisions behind the cluster-internal endpoints. They trust their caller, who has to be kept
//! apart from the public by the network.

use vstd::prelude::*;

use crate::error::{ExecutorError, ExecutorResult};
use crate::json::Json;
use crate::split::{admit_split, feature_of, not_splittable};
use crate::types::RequestPayload;

verus! {

/// The query of a call that hydrates a turn.
#[derive(Debug)]
pub struct HydrateQuery {
    /// The caller runs the tool loop. Without it a request with tools of the gateway is refused,
    /// rather than answered with those tools left out in silence.
    pub tool_loop: bool,
}

impl Default for HydrateQuery {
    fn default() -> (r: HydrateQuery)
        ensures
            !r.tool_loop,
    {
        HydrateQuery { tool_loop: false }
    }
}

/// The body of a call that runs one round of tools.
#[derive(Debug)]
pub struct ToolRoundRequest<C> {
    pub context: C,
    /// The request that the caller just sent to the model.
    pub request: Json,
    /// What the model returned for it.
    pub response: Json,
}

/// The body of a call that persists a turn.
#[derive(Debug)]
pub struct PersistRequest<C> {
    pub context: C,
    pub response: Json,
}

/// Begins a hydration: hands the request on to be rehydrated, or refuses it.
pub fn internal_hydrate(request: RequestPayload, query: &HydrateQuery) -> (r: ExecutorResult<
    RequestPayload,
>)
    ensures
        match feature_of(request, query.tool_loop) {
            Some(feature) => r matches Err(ExecutorError::InvalidRequest(message)) && message@
                == not_splittable(feature),
            None => r == Ok::<RequestPayload, ExecutorError>(request),
        },
{
    match admit_split(&request, query.tool_loop) {
        Ok(()) => Ok(request),
        Err(error) => Err(error),
    }
}

} // verus!
