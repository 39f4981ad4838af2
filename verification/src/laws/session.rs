//! What a session's requests are sent as, and what is kept of them.

use vstd::prelude::*;
use vstd::utf8::encode_utf8;

use crate::chat_completions::{
    folded, load_of, model_of, prefix_found, session_of, substituted, trees_in, turn_of,
    upstream_body, with_messages, with_prefix, Folded, Turn, TurnView,
};
use crate::compaction::{compacted, compaction_request, is_success, offered, Answer};
use crate::error::{StorageError, StoreResult};
use crate::headers::{header_bytes, header_values, text_of_header};
use crate::json::{Json, Tree};
use crate::pool_signals::PoolSignals;
use crate::session_prefix::{
    count_in, is_reading, is_row_for, prefix_in, stored_count, Prefix, SessionPrefix, SessionPrefixData,
};
use crate::text::trimmed;
use crate::wire::{json_of, json_text, list_of, opens_list};

verus! {

/// A header has a text exactly where it is there and all of its bytes are visible ASCII, spaces or
/// tabs; the text has a character for each byte.
pub proof fn headers_are_read_byte_for_byte(
    headers: http::HeaderMap<http::HeaderValue>,
    name: Seq<char>,
)
    ensures
        text_of_header(headers, name) is Some <==> header_values(headers).contains_key(name)
            && forall|i: int|
            0 <= i < header_bytes(header_values(headers)[name]).len() ==> {
                let byte = #[trigger] header_bytes(header_values(headers)[name])[i];
                byte == 9 || 32 <= byte <= 126
            },
        text_of_header(headers, name) matches Some(text) ==> {
            let bytes = header_bytes(header_values(headers)[name]);
            &&& text.len() == bytes.len()
            &&& forall|i: int| 0 <= i < bytes.len() ==> (#[trigger] text[i]) as int == bytes[i]
        },
{
    if text_of_header(headers, name) is Some {
        let bytes = header_bytes(header_values(headers)[name]);
        let text = text_of_header(headers, name)->0;
        assert forall|i: int| 0 <= i < bytes.len() implies (#[trigger] text[i]) as int == bytes[i] by {
            assert(crate::headers::is_visible(bytes[i]));
        }
    }
    let bytes = header_bytes(header_values(headers)[name]);
    if header_values(headers).contains_key(name) && forall|i: int|
        0 <= i < bytes.len() ==> {
            let byte = #[trigger] bytes[i];
            byte == 9 || 32 <= byte <= 126
        } {
        assert forall|i: int| 0 <= i < bytes.len() implies crate::headers::is_visible(
            #[trigger] bytes[i],
        ) by {}
    }
}

/// A session is named by the header `x-session-id`, without the whitespace around the name; a blank
/// header names none.
pub proof fn sessions_are_named_by_their_header(headers: http::HeaderMap<http::HeaderValue>)
    ensures
        match text_of_header(headers, "x-session-id"@) {
            Some(text) => if trimmed(text).len() > 0 {
                session_of(headers) == Some(trimmed(text))
            } else {
                session_of(headers) is None
            },
            None => session_of(headers) is None,
        },
{
}

/// A request that names a session and is a JSON object with a list under `messages` takes part in
/// folding, whatever else it holds: it is looked up under that session, with those messages.
pub proof fn every_session_with_messages_takes_part(
    headers: http::HeaderMap<http::HeaderValue>,
    body: Seq<u8>,
    name: Seq<char>,
    object: Map<Seq<char>, Tree>,
    messages: Seq<Tree>,
)
    requires
        text_of_header(headers, "x-session-id"@) == Some(name),
        trimmed(name).len() > 0,
        json_of(body) == Some(Tree::Object(object)),
        object.contains_key("messages"@),
        object["messages"@] == Tree::Array(messages),
    ensures
        turn_of(headers, body) == Some(
            TurnView { session: trimmed(name), request: Tree::Object(object), messages },
        ),
{
}

/// Nothing else takes part: a turn names a session, and its body is JSON with a list of messages.
pub proof fn only_sessions_with_messages_take_part(
    headers: http::HeaderMap<http::HeaderValue>,
    body: Seq<u8>,
)
    requires
        turn_of(headers, body) is Some,
    ensures
        text_of_header(headers, "x-session-id"@) is Some,
        trimmed(text_of_header(headers, "x-session-id"@)->0).len() > 0,
        json_of(body) is Some,
        json_of(body)->0 is Object,
        json_of(body)->0->Object_0.contains_key("messages"@),
        json_of(body)->0->Object_0["messages"@] is Array,
{
}

/// A turn shows its session, its request and its messages.
pub proof fn turns_show_what_they_hold(turn: Turn)
    ensures
        turn@.session == turn.session@,
        turn@.request == turn.request@,
        turn@.messages.len() == turn.messages@.len(),
        forall|i: int|
            0 <= i < turn.messages@.len() ==> #[trigger] turn@.messages[i] == turn.messages@[i]@,
{
}

/// Under a prefix that stands for fewer messages than the turn has, the turn is sent as the
/// replacement and every message behind those: in order, each as it is. Under any other prefix it is
/// not rewritten.
pub proof fn the_prefix_takes_the_place_of_what_it_replaces(prefix: Prefix, messages: Seq<Tree>)
    ensures
        with_prefix(prefix, messages) is Some <==> prefix.replaced < messages.len(),
        with_prefix(prefix, messages) matches Some(sent) ==> {
            &&& sent.len() == prefix.replacement.len() + (messages.len() - prefix.replaced)
            &&& forall|i: int|
                0 <= i < prefix.replacement.len() ==> #[trigger] sent[i] == prefix.replacement[i]
            &&& forall|i: int|
                prefix.replacement.len() <= i < sent.len() ==> #[trigger] sent[i] == messages[i
                    - prefix.replacement.len() + prefix.replaced]
        },
{
}

/// What is sent upstream: the client's own bytes, or, where a prefix stands for fewer messages than
/// the turn has, the client's request with its messages replaced and nothing else changed.
pub proof fn the_rest_of_the_request_is_sent_as_it_is(
    body: Seq<u8>,
    session: Seq<char>,
    object: Map<Seq<char>, Tree>,
    messages: Seq<Tree>,
    prefix: Option<Prefix>,
)
    ensures
        ({
            let turn = TurnView { session, request: Tree::Object(object), messages };
            let sent = upstream_body(body, turn, prefix);
            if prefix is Some && prefix->0.replaced < messages.len() {
                &&& sent == encode_utf8(
                    json_text(
                        Tree::Object(
                            object.insert(
                                "messages"@,
                                Tree::Array(
                                    prefix->0.replacement + messages.subrange(
                                        prefix->0.replaced as int,
                                        messages.len() as int,
                                    ),
                                ),
                            ),
                        ),
                    ),
                )
                &&& substituted(turn, prefix) is Some
            } else {
                sent == body && substituted(turn, prefix) is None
            }
        }),
{
    if prefix is Some && prefix->0.replaced < messages.len() {
        assert(messages.skip(prefix->0.replaced as int) =~= messages.subrange(
            prefix->0.replaced as int,
            messages.len() as int,
        ));
    }
}

/// Replacing messages changes an object in that one place.
pub proof fn only_the_messages_are_replaced(
    object: Map<Seq<char>, Tree>,
    messages: Seq<Tree>,
    key: Seq<char>,
)
    ensures
        ({
            let changed = with_messages(Tree::Object(object), messages);
            &&& changed is Object
            &&& changed->Object_0.contains_key("messages"@) && changed->Object_0["messages"@]
                == Tree::Array(messages)
            &&& key != "messages"@ ==> changed->Object_0.contains_key(key) == object.contains_key(
                key,
            )
            &&& key != "messages"@ && object.contains_key(key) ==> changed->Object_0[key]
                == object[key]
        }),
{
}

/// A look-up finds the prefix that it came back with, and none where it failed or came back empty.
pub proof fn a_lookup_finds_what_it_came_back_with(lookup: StoreResult<Option<SessionPrefixData>>)
    ensures
        lookup is Err ==> prefix_found(lookup) is None,
        lookup matches Ok(None) ==> prefix_found(lookup) is None,
        lookup matches Ok(Some(data)) ==> prefix_found(lookup) is Some && prefix_found(
            lookup,
        )->0.replaced == data.replaced_count && prefix_found(lookup)->0.replacement.len()
            == data.replacement@.len() && forall|i: int|
            0 <= i < data.replacement@.len() ==> #[trigger] prefix_found(lookup)->0.replacement[i]
                == data.replacement@[i]@,
{
}

/// Whatever list the compaction service gave is what the session's prefix holds, however long it is;
/// where it gave none, the prefix holds the history. Either way it stands for the whole history.
pub proof fn the_compacted_messages_are_kept(history: Seq<Tree>, given: Seq<Tree>)
    ensures
        folded(history, Some(given)).replacement == given,
        folded(history, Some(given)).replaced == history.len(),
        folded(history, None).replacement == history,
        folded(history, None).replaced == history.len(),
{
}

/// What a fold is finished with is handed on one for one, and so is what it comes to.
pub proof fn folds_show_what_they_hold(given: Option<Vec<Json>>, done: Folded)
    ensures
        given is None <==> trees_in(given) is None,
        given matches Some(messages) ==> trees_in(given)->0.len() == messages@.len() && forall|
            i: int,
        |
            0 <= i < messages@.len() ==> #[trigger] trees_in(given)->0[i] == messages@[i]@,
        done.prefix().replaced == done.replaced_count,
        done.prefix().replacement.len() == done.replacement@.len(),
        forall|i: int|
            0 <= i < done.replacement@.len() ==> #[trigger] done.prefix().replacement[i]
                == done.replacement@[i]@,
{
}

/// The model is the one that the request names; a request that names none by a string has none.
pub proof fn the_model_is_the_one_that_is_named(request: Tree, name: Seq<char>)
    ensures
        request is Object && request->Object_0.contains_key("model"@)
            && request->Object_0["model"@] == Tree::String(name) ==> model_of(request) == name,
        !(request is Object) || !request->Object_0.contains_key("model"@) || !(
        request->Object_0["model"@] is String) ==> model_of(request).len() == 0,
{
}

/// The load is the one that was reported, if any was.
pub proof fn the_load_is_the_one_reported(signals: &PoolSignals)
    ensures
        load_of(Some(signals)) == Some(*signals),
        load_of(None) is None,
{
}

/// A status of the two hundreds is a success, and no other is.
pub proof fn the_two_hundreds_succeed(status: int)
    ensures
        is_success(status) <==> status / 100 == 2,
{
}

/// The compaction service is asked with the model and the whole history, and nothing else.
pub proof fn compaction_is_asked_with_the_history(model: Seq<char>, messages: Seq<Tree>)
    ensures
        compaction_request(model, messages) is Object,
        compaction_request(model, messages)->Object_0.dom() == set!["model"@, "messages"@],
        compaction_request(model, messages)->Object_0["model"@] == Tree::String(model),
        compaction_request(model, messages)->Object_0["messages"@] == Tree::Array(messages),
{
    reveal_strlit("model");
    reveal_strlit("messages");
    assert("model"@.len() == 5);
    assert("messages"@.len() == 8);
    assert(compaction_request(model, messages)->Object_0.dom() =~= set!["model"@, "messages"@]);
}

/// The service's messages are taken, all of them and as they are, exactly where it succeeded and its
/// body is a JSON object with a list under `messages` that is not empty.
pub proof fn an_answer_is_taken_whole(answer: Option<Answer>, given: Seq<Tree>)
    ensures
        compacted(answer) == Some(given) <==> {
            &&& answer is Some
            &&& 200 <= answer->0.status <= 299
            &&& answer->0.body is Some
            &&& json_of(answer->0.body->0@) is Some
            &&& json_of(answer->0.body->0@)->0 is Object
            &&& json_of(answer->0.body->0@)->0->Object_0.contains_key("messages"@)
            &&& json_of(answer->0.body->0@)->0->Object_0["messages"@] == Tree::Array(given)
            &&& given.len() > 0
        },
        answer is Some && answer->0.body is Some && 200 <= answer->0.status <= 299 ==> compacted(
            answer,
        ) == offered(answer->0.body->0@),
{
}

/// A count is stored as it is and read as it was; one that cannot be stored is cut down to the
/// largest, and a stored number that cannot be a count counts nothing.
pub proof fn counts_are_kept(count: usize, stored: i64)
    ensures
        count <= i64::MAX ==> stored_count(count) == count,
        count > i64::MAX ==> stored_count(count) == i64::MAX,
        count <= i64::MAX ==> count_in(stored_count(count) as i64) == count,
        0 <= stored <= usize::MAX ==> count_in(stored) == stored,
        stored < 0 || stored > usize::MAX ==> count_in(stored) == 0,
{
}

/// A row holds a prefix exactly where its text is that of a list: its messages are the elements, its
/// count the one that is stored.
pub proof fn rows_hold_lists(row: SessionPrefix)
    ensures
        prefix_in(row) is Some <==> {
            let bytes = encode_utf8(row.replacement@);
            json_of(bytes) is Some && json_of(bytes)->0 is Array && opens_list(bytes)
        },
        prefix_in(row) matches Some(prefix) ==> {
            &&& json_of(encode_utf8(row.replacement@)) == Some(Tree::Array(prefix.replacement))
            &&& list_of(encode_utf8(row.replacement@)) == Some(prefix.replacement)
            &&& row.replaced_count < 0 ==> prefix.replaced == 0
            &&& 0 <= row.replaced_count <= usize::MAX ==> prefix.replaced == row.replaced_count
        },
{
}

/// A row is written for the session that was named, with the count that can be stored and the text of
/// the whole list.
pub proof fn rows_are_written_as_they_were_asked_for(
    row: SessionPrefix,
    session: Seq<char>,
    count: usize,
    replacement: Seq<Tree>,
)
    requires
        is_row_for(row, session, count, replacement),
    ensures
        row.session_id@ == session,
        count <= i64::MAX ==> row.replaced_count == count,
        count > i64::MAX ==> row.replaced_count == i64::MAX,
        row.replacement@ == json_text(Tree::Array(replacement)),
{
}

/// A text opens a list where its first byte does, or where it does so behind whitespace.
pub proof fn lists_open_behind_whitespace(bytes: Seq<u8>)
    ensures
        bytes.len() == 0 ==> !opens_list(bytes),
        bytes.len() > 0 && bytes[0] == '[' as u8 ==> opens_list(bytes),
        bytes.len() > 0 && (bytes[0] == ' ' as u8 || bytes[0] == '\n' as u8 || bytes[0] == '\t' as u8
            || bytes[0] == '\r' as u8) ==> opens_list(bytes) == opens_list(
            bytes.subrange(1, bytes.len() as int),
        ),
        bytes.len() > 0 && bytes[0] != '[' as u8 && bytes[0] != ' ' as u8 && bytes[0] != '\n' as u8
            && bytes[0] != '\t' as u8 && bytes[0] != '\r' as u8 ==> !opens_list(bytes),
{
    if bytes.len() > 0 {
        assert(bytes.drop_first() =~= bytes.subrange(1, bytes.len() as int));
    }
}

/// What comes back for a row: nothing without one, its prefix where it holds one, and a failure of
/// JSON where it holds none.
pub proof fn rows_are_answered(
    row: Option<SessionPrefix>,
    outcome: StoreResult<Option<SessionPrefixData>>,
)
    requires
        is_reading(row, outcome),
    ensures
        row is None ==> outcome is Ok && outcome->Ok_0 is None,
        row matches Some(row) ==> {
            let text = json_of(encode_utf8(row.replacement@));
            if text is Some && text->0 is Array && opens_list(encode_utf8(row.replacement@)) {
                &&& outcome is Ok
                &&& outcome->Ok_0 is Some
                &&& outcome->Ok_0->0.replacement@.len() == text->0->Array_0.len()
                &&& forall|i: int|
                    0 <= i < text->0->Array_0.len() ==> #[trigger] outcome->Ok_0->0.replacement@[i]@
                        == text->0->Array_0[i]
                &&& 0 <= row.replaced_count <= usize::MAX ==> outcome->Ok_0->0.replaced_count
                    == row.replaced_count
            } else {
                outcome matches Err(StorageError::Json(_))
            }
        },
{
    if row is Some && outcome is Ok && outcome->Ok_0 is Some {
        let data = outcome->Ok_0->0;
        let items = json_of(encode_utf8(row->0.replacement@))->0->Array_0;
        assert(data@.replacement == items);
        assert forall|i: int| 0 <= i < items.len() implies #[trigger] data.replacement@[i]@
            == items[i] by {
            assert(data@.replacement[i] == data.replacement@[i]@);
        }
    }
}

} // verus!
