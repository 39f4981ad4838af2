//! Compaction of a message history by an external service.
//!
//! The service is sent a model's name and a list of messages, and answers with a shorter list in
//! the same form. Whatever goes wrong, the history is kept as it is: a failing service costs
//! compression and nothing else.

use vstd::prelude::*;

use crate::json::{copies, elements_at, put, trees, Json, Tree};
use crate::text::{trim, trimmed};
use crate::wire::{json_of, json_text, parse, render, rereadable, MAX_DEPTH};

verus! {

/// The environment variable that holds the address of the service, for instance
/// `http://context-guru:4000/compact`. Without it nothing is compacted.
pub const ADDRESS_ENV: &'static str = "COMPACTION_ADDRESS";

/// For how many seconds the service is waited for.
pub const TIMEOUT_SECONDS: u64 = 15;

/// The address of the service that a value of [`ADDRESS_ENV`] gives, if the variable is set to one.
#[must_use]
pub fn address_from_env(value: Option<&str>) -> (r: Option<String>)
    ensures
        match r {
            Some(address) => value is Some && address@ == trimmed(value->0@) && address@.len() > 0,
            None => value is None || trimmed(value->0@).len() == 0,
        },
{
    match value {
        Some(value) => {
            let address: &str = trim(value);
            if address.is_empty() {
                None
            } else {
                Some(address.to_owned())
            }
        },
        None => None,
    }
}

/// What is sent to the service.
pub open spec fn compaction_request(model: Seq<char>, messages: Seq<Tree>) -> Tree {
    Tree::Object(map!["model"@ => Tree::String(model), "messages"@ => Tree::Array(messages)])
}

/// The body of the request to the service; nothing if it cannot be written.
pub fn request_body(model: &str, messages: &[Json]) -> (r: Option<String>)
    ensures
        r is Some,
        r->0@ == json_text(compaction_request(model@, trees(messages@))),
        rereadable(compaction_request(model@, trees(messages@)), MAX_DEPTH as nat) ==> json_of(
            vstd::utf8::encode_utf8(r->0@),
        ) == Some(compaction_request(model@, trees(messages@))),
{
    let mut request: Vec<(String, Json)> = Vec::new();
    put(&mut request, "model", Json::string(model));
    put(&mut request, "messages", Json::Array(copies(messages)));
    match render(&Json::Object(request)) {
        Ok(text) => Some(text),
        Err(_) => None,
    }
}

/// An HTTP status that says that a request succeeded.
pub open spec fn is_success(status: int) -> bool {
    200 <= status < 300
}

/// Whether an HTTP status says that a request succeeded.
pub fn succeeded(status: u16) -> (r: bool)
    ensures
        r == is_success(status as int),
{
    200 <= status && status < 300
}

/// What the service answered: its status and, where it could be read, its body.
#[derive(Debug)]
pub struct Answer {
    pub status: u16,
    pub body: Option<Vec<u8>>,
}

/// The messages that a body offers in place of a history. An empty list would wipe the history
/// out, and counts as no offer.
pub open spec fn offered(body: Seq<u8>) -> Option<Seq<Tree>> {
    match json_of(body) {
        Some(tree) => match elements_at(tree, "messages"@) {
            Some(messages) => if messages.len() > 0 {
                Some(messages)
            } else {
                None
            },
            None => None,
        },
        None => None,
    }
}

/// The messages that an answer offers in place of a history; there is no answer where the service
/// could not be reached.
pub open spec fn compacted(answer: Option<Answer>) -> Option<Seq<Tree>> {
    match answer {
        Some(answer) => if is_success(answer.status as int) {
            match answer.body {
                Some(body) => offered(body@),
                None => None,
            }
        } else {
            None
        },
        None => None,
    }
}

/// The messages that take the place of a history; nothing where the history is to be kept.
pub fn compact(answer: Option<Answer>) -> (r: Option<Vec<Json>>)
    ensures
        match r {
            Some(messages) => compacted(answer) == Some(trees(messages@)) && messages@.len() > 0,
            None => compacted(answer) is None,
        },
{
    let answer: Answer = match answer {
        Some(answer) => answer,
        None => {
            return None;
        },
    };
    if !succeeded(answer.status) {
        return None;
    }
    let body: Vec<u8> = match answer.body {
        Some(body) => body,
        None => {
            return None;
        },
    };
    match parse(body.as_slice()) {
        Ok(json) => match json.get("messages") {
            Some(messages) => match messages.as_array() {
                Some(messages) => if messages.len() > 0 {
                    Some(copies(messages.as_slice()))
                } else {
                    None
                },
                None => None,
            },
            None => None,
        },
        Err(_) => None,
    }
}

} // verus!
