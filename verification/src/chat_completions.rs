//! Chat Completions with a prefix kept for each session.
//!
//! Chat Completions is stateless: a client sends the whole conversation with every call. Where a
//! request names its session, the leading messages that are already folded are replaced by what
//! was stored for them, so that the prompt stops growing. The client sees none of it.
//!
//! One request takes these steps, each a function here: [`chat_completions`] reads it,
//! [`Pending::found`] takes the stored prefix, [`Forwarding::answered`] the backend's status,
//! [`fold_under_load`] its load, and [`Fold::finish`] the compacted history.

use vstd::prelude::*;
use vstd::slice::slice_to_vec;
use vstd::utf8::encode_utf8;

use crate::compaction::{compaction_request, is_success, request_body, succeeded};
use crate::error::StoreResult;
use crate::headers::{is_plain_name, text_of_header, trimmed_header};
use crate::json::{
    copies, elements_at, lemma_trees_push, put, text_at, trees, Json, Tree,
};
use crate::pool_signals::{compacts, should_compact, PoolSignals, Thresholds};
use crate::session_prefix::{Prefix, SessionPrefixData};
use crate::text::trimmed;
use crate::wire::{json_of, json_text, parse, render, rereadable, MAX_DEPTH};

verus! {

/// The header that names a session: the one that llm-d's session-affinity scorer reads by default,
/// so that one value serves both.
pub const SESSION_HEADER: &'static str = "x-session-id";

/// Where requests are forwarded, below the configured base URL.
pub const UPSTREAM_PATH: &'static str = "/v1/chat/completions";

/// The session that the headers name.
pub open spec fn session_of(headers: http::HeaderMap<http::HeaderValue>) -> Option<Seq<char>> {
    match text_of_header(headers, SESSION_HEADER@) {
        Some(text) => if trimmed(text).len() > 0 {
            Some(trimmed(text))
        } else {
            None
        },
        None => None,
    }
}

/// The session that the headers name.
pub fn session_id(headers: &http::HeaderMap<http::HeaderValue>) -> (r: Option<String>)
    ensures
        match r {
            Some(session) => session_of(*headers) == Some(session@),
            None => session_of(*headers) is None,
        },
{
    proof {
        reveal_strlit("x-session-id");
        assert(is_plain_name(SESSION_HEADER@));
    }
    match trimmed_header(headers, SESSION_HEADER) {
        Some(session) => if session.is_empty() {
            None
        } else {
            Some(session.to_owned())
        },
        None => None,
    }
}

/// A request that takes part in folding: it names a session and holds a list of messages.
#[derive(Debug)]
pub struct Turn {
    pub session: String,
    pub request: Json,
    pub messages: Vec<Json>,
}

/// What a turn says.
#[verifier::ext_equal]
pub struct TurnView {
    pub session: Seq<char>,
    pub request: Tree,
    pub messages: Seq<Tree>,
}

impl View for Turn {
    type V = TurnView;

    open spec fn view(&self) -> TurnView {
        TurnView {
            session: self.session@,
            request: self.request@,
            messages: trees(self.messages@),
        }
    }
}

/// The messages of a turn are those of its request.
pub open spec fn is_turn(turn: TurnView) -> bool {
    elements_at(turn.request, "messages"@) == Some(turn.messages)
}

/// The turn that a request is, if it takes part in folding.
pub open spec fn turn_of(
    headers: http::HeaderMap<http::HeaderValue>,
    body: Seq<u8>,
) -> Option<TurnView> {
    match (session_of(headers), json_of(body)) {
        (Some(session), Some(request)) => match elements_at(request, "messages"@) {
            Some(messages) => Some(TurnView { session, request, messages }),
            None => None,
        },
        _ => None,
    }
}

fn read_turn(headers: &http::HeaderMap<http::HeaderValue>, body: &[u8]) -> (r: Option<Turn>)
    ensures
        match r {
            Some(turn) => turn_of(*headers, body@) == Some(turn@),
            None => turn_of(*headers, body@) is None,
        },
{
    let request: Json = match parse(body) {
        Ok(request) => request,
        Err(_) => {
            return None;
        },
    };
    let messages: Vec<Json> = match request.get("messages") {
        Some(messages) => match messages.as_array() {
            Some(messages) => copies(messages.as_slice()),
            None => {
                return None;
            },
        },
        None => {
            return None;
        },
    };
    match session_id(headers) {
        Some(session) => Some(Turn { session, request, messages }),
        None => None,
    }
}

/// The messages that are sent in place of a turn's, under a stored prefix. Nothing where the turn
/// has no message beyond those that the prefix stands for: a client that branched or regenerated
/// can send fewer, and its new message must not be lost.
pub open spec fn with_prefix(prefix: Prefix, messages: Seq<Tree>) -> Option<Seq<Tree>> {
    if prefix.replaced >= messages.len() {
        None
    } else {
        Some(prefix.replacement + messages.skip(prefix.replaced as int))
    }
}

/// A request with other messages.
pub open spec fn with_messages(request: Tree, messages: Seq<Tree>) -> Tree {
    match request {
        Tree::Object(m) => Tree::Object(m.insert("messages"@, Tree::Array(messages))),
        _ => request,
    }
}

/// The prefix that a look-up found; a failed look-up finds none.
pub open spec fn prefix_found(lookup: StoreResult<Option<SessionPrefixData>>) -> Option<Prefix> {
    match lookup {
        Ok(Some(data)) => Some(data@),
        _ => None,
    }
}

/// The request that is sent in place of a turn's; nothing where the turn's own is sent.
pub open spec fn substituted(turn: TurnView, prefix: Option<Prefix>) -> Option<Tree> {
    match prefix {
        Some(prefix) => match with_prefix(prefix, turn.messages) {
            Some(messages) => Some(with_messages(turn.request, messages)),
            None => None,
        },
        None => None,
    }
}

/// What is sent to the backend: the client's own bytes unless the turn is rewritten.
pub open spec fn upstream_body(
    body: Seq<u8>,
    turn: TurnView,
    prefix: Option<Prefix>,
) -> Seq<u8> {
    match substituted(turn, prefix) {
        Some(request) => encode_utf8(json_text(request)),
        None => body,
    }
}

fn replaced_messages(data: SessionPrefixData, messages: &Vec<Json>) -> (r: Vec<Json>)
    requires
        data.replaced_count < messages@.len(),
    ensures
        with_prefix(data@, trees(messages@)) == Some(trees(r@)),
{
    let mut rewritten: Vec<Json> = data.replacement;
    let ghost tail = trees(messages@).skip(data.replaced_count as int);
    let mut i: usize = data.replaced_count;
    assert(trees(rewritten@) + tail.take(0) =~= trees(rewritten@));
    while i < messages.len()
        invariant
            data.replaced_count <= i <= messages.len(),
            tail == trees(messages@).skip(data.replaced_count as int),
            trees(rewritten@) == data@.replacement + tail.take(i - data.replaced_count),
        decreases messages.len() - i,
    {
        let message: Json = messages[i].clone();
        proof {
            lemma_trees_push(rewritten@, message);
            let n = i - data.replaced_count;
            assert(tail[n] == trees(messages@)[i as int]);
            assert(tail.take(n + 1) =~= tail.take(n).push(message@));
            assert((data@.replacement + tail.take(n)).push(message@) =~= data@.replacement
                + tail.take(n + 1));
        }
        rewritten.push(message);
        i = i + 1;
    }
    assert(tail.take(i - data.replaced_count) =~= tail);
    rewritten
}

fn replace_messages(request: &Json, messages: Vec<Json>) -> (r: Json)
    ensures
        r@ == with_messages(request@, trees(messages@)),
{
    match request.clone() {
        Json::Object(entries) => {
            let mut body: Vec<(String, Json)> = entries;
            put(&mut body, "messages", Json::Array(messages));
            Json::Object(body)
        },
        other => other,
    }
}

impl Turn {
    /// The body that is sent in place of the turn's own, under what a look-up found.
    ///
    /// Nothing means that the client's bytes are sent: no prefix is stored, the look-up failed, or
    /// the history is too short to be rewritten.
    pub fn substitute(&self, lookup: StoreResult<Option<SessionPrefixData>>) -> (r: Option<String>)
        ensures
            match substituted(self@, prefix_found(lookup)) {
                Some(request) => r matches Some(text) && text@ == json_text(request) && (rereadable(
                    request,
                    MAX_DEPTH as nat,
                ) ==> json_of(encode_utf8(text@)) == Some(request)),
                None => r is None,
            },
    {
        let data: SessionPrefixData = match lookup {
            Ok(Some(data)) => data,
            _ => {
                return None;
            },
        };
        if data.replaced_count >= self.messages.len() {
            return None;
        }
        let messages: Vec<Json> = replaced_messages(data, &self.messages);
        let body: Json = replace_messages(&self.request, messages);
        match render(&body) {
            Ok(text) => Some(text),
            Err(_) => None,
        }
    }
}

/// A turn that waits for the prefix stored for its session.
#[derive(Debug)]
pub struct Pending {
    pub body: Vec<u8>,
    pub turn: Turn,
}

/// A request on its way to the backend, with the turn it is if it takes part in folding.
#[derive(Debug)]
pub struct Forwarding {
    pub body: Vec<u8>,
    pub turn: Option<Turn>,
}

/// What is to be done with a request that has been read.
#[derive(Debug)]
pub enum Step {
    /// Look up the prefix of the turn's session.
    LookUp(Pending),
    /// Forward the request as it is.
    Forward(Forwarding),
}

/// Decides what is to be done with a request. One that names no session, is not JSON or holds no
/// list of messages is forwarded as it is and leaves no trace.
pub fn chat_completions(headers: &http::HeaderMap<http::HeaderValue>, body: Vec<u8>) -> (r: Step)
    ensures
        match turn_of(*headers, body@) {
            Some(turn) => r matches Step::LookUp(pending) && pending.turn@ == turn && pending.body@
                == body@ && is_turn(turn),
            None => r matches Step::Forward(forwarding) && forwarding.turn is None
                && forwarding.body@ == body@,
        },
{
    match read_turn(headers, body.as_slice()) {
        Some(turn) => Step::LookUp(Pending { body, turn }),
        None => Step::Forward(Forwarding { body, turn: None }),
    }
}

impl Pending {
    /// The request that is forwarded, now that the stored prefix is known. A failed look-up does
    /// not fail the request.
    pub fn found(self, lookup: StoreResult<Option<SessionPrefixData>>) -> (r: Forwarding)
        ensures
            r.body@ == upstream_body(self.body@, self.turn@, prefix_found(lookup)),
            substituted(self.turn@, prefix_found(lookup)) matches Some(request) ==> (rereadable(
                request,
                MAX_DEPTH as nat,
            ) ==> json_of(r.body@) == Some(request)),
            r.turn matches Some(turn) && turn@ == self.turn@,
    {
        match self.turn.substitute(lookup) {
            Some(text) => Forwarding {
                body: slice_to_vec(text.as_str().as_bytes()),
                turn: Some(self.turn),
            },
            None => Forwarding { body: self.body, turn: Some(self.turn) },
        }
    }
}

/// A history to be folded into the prefix of its session.
#[derive(Debug)]
pub struct Fold {
    pub session: String,
    pub model: String,
    pub messages: Vec<Json>,
}

/// The prefix to be stored for a session.
#[derive(Debug)]
pub struct Folded {
    pub session: String,
    pub replaced_count: usize,
    pub replacement: Vec<Json>,
}

/// The model that a request asks for; empty where it names none.
pub open spec fn model_of(request: Tree) -> Seq<char> {
    match text_at(request, "model"@) {
        Some(model) => model,
        None => Seq::empty(),
    }
}

impl Forwarding {
    /// The history to be folded after the backend's answer: the messages that the client sent, if
    /// the backend served them. Its reply is left out: the client sends it along with the next
    /// turn, and its copy is the one that counts.
    pub fn answered(self, status: u16) -> (r: Option<Fold>)
        ensures
            match self.turn {
                Some(turn) => if is_success(status as int) {
                    r matches Some(fold) && fold.session@ == turn@.session && fold.model@
                        == model_of(turn@.request) && trees(fold.messages@) == turn@.messages
                } else {
                    r is None
                },
                None => r is None,
            },
    {
        let turn: Turn = match self.turn {
            Some(turn) => turn,
            None => {
                return None;
            },
        };
        if !succeeded(status) {
            return None;
        }
        let model: String = match turn.request.get("model") {
            Some(model) => match model.as_str() {
                Some(model) => model.to_owned(),
                None => String::new(),
            },
            None => String::new(),
        };
        Some(Fold { session: turn.session, model, messages: turn.messages })
    }
}

/// The prefix that a history becomes: all of its messages are replaced, by the compacted ones
/// where there are any.
pub open spec fn folded(messages: Seq<Tree>, compacted: Option<Seq<Tree>>) -> Prefix {
    Prefix {
        replaced: messages.len(),
        replacement: match compacted {
            Some(compacted) => compacted,
            None => messages,
        },
    }
}

pub open spec fn trees_in(messages: Option<Vec<Json>>) -> Option<Seq<Tree>> {
    match messages {
        Some(messages) => Some(trees(messages@)),
        None => None,
    }
}

impl Folded {
    /// What the stored prefix will say.
    pub open spec fn prefix(self) -> Prefix {
        Prefix { replaced: self.replaced_count as nat, replacement: trees(self.replacement@) }
    }
}

impl Fold {
    /// The body of the request to the compaction service.
    pub fn request(&self) -> (r: Option<String>)
        ensures
            r is Some,
            r->0@ == json_text(compaction_request(self.model@, trees(self.messages@))),
            rereadable(
                compaction_request(self.model@, trees(self.messages@)),
                MAX_DEPTH as nat,
            ) ==> json_of(encode_utf8(r->0@)) == Some(
                compaction_request(self.model@, trees(self.messages@)),
            ),
    {
        request_body(self.model.as_str(), self.messages.as_slice())
    }

    /// The prefix to be stored, once the compaction service has answered. Without a service, or
    /// where it failed, the history is stored as it is.
    pub fn finish(self, compacted: Option<Vec<Json>>) -> (r: Folded)
        ensures
            r.session@ == self.session@,
            r.prefix() == folded(trees(self.messages@), trees_in(compacted)),
    {
        let replaced_count: usize = self.messages.len();
        let replacement: Vec<Json> = match compacted {
            Some(messages) => messages,
            None => self.messages,
        };
        Folded { session: self.session, replaced_count, replacement }
    }
}

/// The load that a backend reports, if it reports any.
pub open spec fn load_of(signals: Option<&PoolSignals>) -> Option<PoolSignals> {
    match signals {
        Some(signals) => Some(*signals),
        None => None,
    }
}

/// The history to be folded under the backend's load: thresholds limit folding to when the backend
/// is busy, and without them every turn is folded.
pub fn fold_under_load(fold: Option<Fold>, thresholds: &Thresholds, signals: Option<&PoolSignals>) -> (r:
    Option<Fold>)
    ensures
        r == (if compacts(*thresholds, load_of(signals)) {
            fold
        } else {
            None
        }),
{
    if should_compact(thresholds, signals) {
        fold
    } else {
        None
    }
}

/// A turn that goes on from a folded history is sent as the folded history and the new messages.
pub proof fn next_turn_sees_the_fold(
    history: Seq<Tree>,
    compacted: Option<Seq<Tree>>,
    later: Seq<Tree>,
)
    requires
        later.len() > 0,
    ensures
        with_prefix(folded(history, compacted), history + later) == Some(
            folded(history, compacted).replacement + later,
        ),
{
    assert((history + later).skip(history.len() as int) =~= later);
}

/// Without compaction nothing changes: the messages that are sent are the client's own.
pub proof fn uncompacted_history_is_intact(history: Seq<Tree>, later: Seq<Tree>)
    requires
        later.len() > 0,
    ensures
        with_prefix(folded(history, None), history + later) == Some(history + later),
{
    next_turn_sees_the_fold(history, None, later);
}

/// The newest message always reaches the backend, and so does everything that the prefix does not
/// stand for.
pub proof fn newest_message_survives(prefix: Prefix, messages: Seq<Tree>)
    requires
        with_prefix(prefix, messages) is Some,
    ensures
        with_prefix(prefix, messages)->0.last() == messages.last(),
        with_prefix(prefix, messages)->0.len() == prefix.replacement.len() + messages.len()
            - prefix.replaced,
        forall|i: int|
            prefix.replaced <= i < messages.len() ==> #[trigger] messages[i] == with_prefix(
                prefix,
                messages,
            )->0[i - prefix.replaced + prefix.replacement.len()],
{
}

/// A history that the prefix covers whole is not rewritten.
pub proof fn covered_history_is_untouched(turn: TurnView, prefix: Prefix, body: Seq<u8>)
    requires
        prefix.replaced >= turn.messages.len(),
    ensures
        upstream_body(body, turn, Some(prefix)) == body,
{
}

/// Where no prefix is found, because there is none or because the look-up failed, the client's own
/// bytes are sent.
pub proof fn without_a_prefix_nothing_changes(
    turn: TurnView,
    lookup: StoreResult<Option<SessionPrefixData>>,
    body: Seq<u8>,
)
    requires
        !(lookup matches Ok(Some(_))),
    ensures
        upstream_body(body, turn, prefix_found(lookup)) == body,
{
}

/// Only the messages of a request are rewritten: every other member stays what it was.
pub proof fn only_messages_change(turn: TurnView, prefix: Option<Prefix>, key: Seq<char>)
    requires
        is_turn(turn),
        substituted(turn, prefix) is Some,
    ensures
        key != "messages"@ ==> substituted(turn, prefix)->0.at(key) == turn.request.at(key),
        elements_at(substituted(turn, prefix)->0, "messages"@) == with_prefix(
            prefix->0,
            turn.messages,
        ),
{
}

/// A request that names no session takes no part in folding.
pub proof fn sessionless_requests_leave_no_trace(
    headers: http::HeaderMap<http::HeaderValue>,
    body: Seq<u8>,
)
    requires
        session_of(headers) is None,
    ensures
        turn_of(headers, body) is None,
{
}

/// What was folded after one turn is what the next turn is sent with: the request carries the folded
/// history and the new messages, and nothing else of it has changed.
pub proof fn stored_fold_is_sent(
    turn: TurnView,
    history: Seq<Tree>,
    compacted: Option<Seq<Tree>>,
    later: Seq<Tree>,
    body: Seq<u8>,
)
    requires
        turn.messages == history + later,
        later.len() > 0,
    ensures
        upstream_body(body, turn, Some(folded(history, compacted))) == encode_utf8(
            json_text(
                with_messages(turn.request, folded(history, compacted).replacement + later),
            ),
        ),
{
    next_turn_sees_the_fold(history, compacted, later);
}

/// The prefix grows with the conversation: each turn is folded whole, and with it every turn before
/// it.
pub proof fn prefix_grows(
    history: Seq<Tree>,
    later: Seq<Tree>,
    before: Option<Seq<Tree>>,
    after: Option<Seq<Tree>>,
)
    ensures
        folded(history + later, after).replaced == folded(history, before).replaced + later.len(),
{
}

} // verus!
