//! What a Responses reply says of the Chat Completions reply it was written for.

use vstd::prelude::*;

use crate::json::{elements_at, text_at, Tree};
use crate::protocol::reply::{
    child, drawn_ids, fault_of, id_prefix, is_drawn, item_count, item_read, item_tree, items_of,
    message_in,
    named_status, responses_reply, status_name, string_in, usage_fits, usage_of, usage_overflow,
    Item, MessageStatus,
};
use crate::wire::{int_value, integer, integer_of};

verus! {

/// The members of a reply and of its items have names of their own.
proof fn lemma_words_differ()
    ensures
        "id"@ != "output"@,
        "id"@ != "status"@,
        "id"@ != "incomplete_details"@,
        "id"@ != "usage"@,
        "output"@ != "status"@,
        "output"@ != "incomplete_details"@,
        "output"@ != "usage"@,
        "status"@ != "incomplete_details"@,
        "status"@ != "usage"@,
        "incomplete_details"@ != "usage"@,
        "input_tokens"@ != "output_tokens"@,
        "input_tokens"@ != "total_tokens"@,
        "output_tokens"@ != "total_tokens"@,
        "completed"@ != "incomplete"@,
        "completed"@ != "in_progress"@,
        "incomplete"@ != "in_progress"@,
        "message"@ != "function_call"@,
{
    reveal_strlit("id");
    reveal_strlit("output");
    reveal_strlit("status");
    reveal_strlit("incomplete_details");
    reveal_strlit("usage");
    reveal_strlit("input_tokens");
    reveal_strlit("output_tokens");
    reveal_strlit("total_tokens");
    reveal_strlit("completed");
    reveal_strlit("incomplete");
    reveal_strlit("in_progress");
    reveal_strlit("message");
    reveal_strlit("function_call");
    assert("id"@.len() == 2);
    assert("output"@.len() == 6);
    assert("status"@.len() == 6);
    assert("incomplete_details"@.len() == 18);
    assert("usage"@.len() == 5);
    assert("input_tokens"@.len() == 12);
    assert("output_tokens"@.len() == 13);
    assert("total_tokens"@.len() == 12);
    assert("completed"@.len() == 9);
    assert("incomplete"@.len() == 10);
    assert("in_progress"@.len() == 11);
    assert("message"@.len() == 7);
    assert("function_call"@.len() == 13);
    assert("output"@[0] != "status"@[0]);
    assert("input_tokens"@[0] != "total_tokens"@[0]);
}

/// The reply's first alternative and its message: what the translation is made of.
pub open spec fn offers(chat: Tree, choice: Tree, message: Tree) -> bool {
    &&& elements_at(chat, "choices"@) is Some
    &&& elements_at(chat, "choices"@)->0.len() > 0
    &&& choice == elements_at(chat, "choices"@)->0[0]
    &&& choice.at("message"@) == Some(message)
}

/// A message with text speaks first; its calls stand behind it.
pub open spec fn lead(message: Tree) -> nat {
    if text_at(message, "content"@) is Some && text_at(message, "content"@)->0.len() > 0 {
        1
    } else {
        0
    }
}

/// A call of the model with its three strings becomes, at its position, an item that holds exactly
/// these strings: the name and the arguments that the model gave, and its own identifier for the
/// client to answer under.
pub proof fn calls_are_handed_on(
    chat: Tree,
    choice: Tree,
    message: Tree,
    ids: Seq<Seq<char>>,
    i: int,
    call_id: Seq<char>,
    function: Tree,
    name: Seq<char>,
    arguments: Seq<char>,
)
    requires
        offers(chat, choice, message),
        elements_at(message, "tool_calls"@) is Some,
        0 <= i < elements_at(message, "tool_calls"@)->0.len(),
        text_at(elements_at(message, "tool_calls"@)->0[i], "id"@) == Some(call_id),
        elements_at(message, "tool_calls"@)->0[i].at("function"@) == Some(function),
        text_at(function, "name"@) == Some(name),
        text_at(function, "arguments"@) == Some(arguments),
    ensures
        responses_reply(chat, ids)["output"@] is Array,
        ({
            let output = responses_reply(chat, ids)["output"@]->Array_0;
            let n = lead(message) + i;
            &&& n < output.len()
            &&& output[n] == Tree::Object(
                map![
                    "type"@ => Tree::String("function_call"@),
                    "id"@ => Tree::String(ids[n]),
                    "call_id"@ => Tree::String(call_id),
                    "name"@ => Tree::String(name),
                    "arguments"@ => Tree::String(arguments),
                    "status"@ => Tree::String("completed"@),
                ],
            )
        }),
{
    lemma_words_differ();
}

/// A call that lacks one of its strings still becomes an item, with an empty string in its place.
pub proof fn what_a_call_lacks_is_empty(
    chat: Tree,
    choice: Tree,
    message: Tree,
    ids: Seq<Seq<char>>,
    i: int,
)
    requires
        offers(chat, choice, message),
        elements_at(message, "tool_calls"@) is Some,
        0 <= i < elements_at(message, "tool_calls"@)->0.len(),
    ensures
        responses_reply(chat, ids)["output"@] is Array,
        ({
            let call = elements_at(message, "tool_calls"@)->0[i];
            let output = responses_reply(chat, ids)["output"@]->Array_0;
            let n = lead(message) + i;
            &&& n < output.len()
            &&& output[n] is Object
            &&& text_at(call, "id"@) is None ==> text_at(output[n], "call_id"@) == Some(
                Seq::<char>::empty(),
            )
            &&& call.at("function"@) is None ==> text_at(output[n], "name"@) == Some(
                Seq::<char>::empty(),
            ) && text_at(output[n], "arguments"@) == Some(Seq::<char>::empty())
            &&& call.at("function"@) is Some && text_at(call.at("function"@)->0, "name"@) is None
                ==> text_at(output[n], "name"@) == Some(Seq::<char>::empty())
            &&& call.at("function"@) is Some && text_at(call.at("function"@)->0, "arguments"@)
                is None ==> text_at(output[n], "arguments"@) == Some(Seq::<char>::empty())
            &&& text_at(output[n], "type"@) == Some("function_call"@)
            &&& text_at(output[n], "id"@) == Some(ids[n])
        }),
{
    lemma_words_differ();
    lemma_item_words();
    reveal_strlit("");
}

proof fn lemma_item_words()
    ensures
        "type"@ != "id"@,
        "type"@ != "call_id"@,
        "type"@ != "name"@,
        "type"@ != "arguments"@,
        "type"@ != "status"@,
        "id"@ != "call_id"@,
        "id"@ != "name"@,
        "id"@ != "arguments"@,
        "id"@ != "status"@,
        "call_id"@ != "name"@,
        "call_id"@ != "arguments"@,
        "call_id"@ != "status"@,
        "name"@ != "arguments"@,
        "name"@ != "status"@,
        "arguments"@ != "status"@,
{
    reveal_strlit("type");
    reveal_strlit("id");
    reveal_strlit("call_id");
    reveal_strlit("name");
    reveal_strlit("arguments");
    reveal_strlit("status");
    assert("type"@.len() == 4);
    assert("id"@.len() == 2);
    assert("call_id"@.len() == 7);
    assert("name"@.len() == 4);
    assert("arguments"@.len() == 9);
    assert("status"@.len() == 6);
    assert("type"@[0] != "name"@[0]);
}

/// The text that the model wrote becomes the first item, whole and as the assistant's; an empty text
/// becomes none. The output holds the text and the calls, and nothing else.
pub proof fn text_is_handed_on(chat: Tree, choice: Tree, message: Tree, ids: Seq<Seq<char>>)
    requires
        offers(chat, choice, message),
    ensures
        responses_reply(chat, ids)["output"@] is Array,
        ({
            let output = responses_reply(chat, ids)["output"@]->Array_0;
            let calls: nat = if elements_at(message, "tool_calls"@) is Some {
                elements_at(message, "tool_calls"@)->0.len()
            } else {
                0
            };
            &&& output.len() == lead(message) + calls
            &&& item_count(message) == lead(message) + calls
            &&& lead(message) == 1 ==> output[0] == Tree::Object(
                map![
                    "type"@ => Tree::String("message"@),
                    "id"@ => Tree::String(ids[0]),
                    "role"@ => Tree::String("assistant"@),
                    "status"@ => Tree::String("completed"@),
                    "content"@ => Tree::Array(seq![
                        Tree::Object(map![
                            "type"@ => Tree::String("output_text"@),
                            "text"@ => Tree::String(text_at(message, "content"@)->0),
                            "annotations"@ => Tree::Array(Seq::empty()),
                        ]),
                    ]),
                ],
            )
        }),
{
    lemma_words_differ();
    if lead(message) == 1 {
        let text = text_at(message, "content"@)->0;
        assert(crate::protocol::reply::text_parts(seq![text]) =~= seq![
            crate::protocol::reply::text_part(text),
        ]);
    }
}

/// Where the first alternative holds no message, there is no output.
pub proof fn no_message_no_output(chat: Tree, ids: Seq<Seq<char>>)
    requires
        elements_at(chat, "choices"@) is Some,
        elements_at(chat, "choices"@)->0.len() > 0,
        elements_at(chat, "choices"@)->0[0].at("message"@) is None,
    ensures
        responses_reply(chat, ids)["output"@] == Tree::Array(Seq::empty()),
        item_count(message_in(chat)) == 0,
{
    lemma_words_differ();
    assert(items_of(message_in(chat), ids) =~= Seq::empty());
    assert(crate::protocol::reply::item_trees(items_of(message_in(chat), ids)) =~= Seq::empty());
}

/// The reply keeps its identifier. It is incomplete exactly where the model stopped for want of room,
/// and then says why; otherwise it is completed. No member has any other name.
pub proof fn the_envelope_is_kept(chat: Tree, ids: Seq<Seq<char>>, id: Seq<char>, key: Seq<char>)
    requires
        text_at(chat, "id"@) == Some(id),
        elements_at(chat, "choices"@) is Some,
        elements_at(chat, "choices"@)->0.len() > 0,
    ensures
        ({
            let choice = elements_at(chat, "choices"@)->0[0];
            let reply = responses_reply(chat, ids);
            let cut = text_at(choice, "finish_reason"@) == Some("length"@);
            &&& reply.contains_key("id"@) && reply["id"@] == Tree::String(id)
            &&& reply.contains_key("output"@)
            &&& reply.contains_key("status"@)
            &&& cut ==> reply["status"@] == Tree::String("incomplete"@)
            &&& !cut ==> reply["status"@] == Tree::String("completed"@)
            &&& reply.contains_key("incomplete_details"@) <==> cut
            &&& cut ==> reply["incomplete_details"@] == Tree::Object(
                map!["reason"@ => Tree::String("max_output_tokens"@)],
            )
            &&& reply.contains_key(key) ==> key == "id"@ || key == "output"@ || key == "status"@
                || key == "incomplete_details"@ || key == "usage"@
        }),
{
    lemma_words_differ();
}

/// A count that a usage holds: an integer that fits.
pub open spec fn counts(usage: Map<Seq<char>, Tree>, key: Seq<char>, n: int) -> bool {
    usage.contains_key(key) && usage[key] is Number && integer_of(usage[key]->Number_0) == Some(n)
        && i64::MIN <= n <= i64::MAX
}

/// A count that a usage does not hold: nothing, no number, no integer, or one that does not fit.
pub open spec fn counts_nothing(usage: Map<Seq<char>, Tree>, key: Seq<char>) -> bool {
    forall|n: int| !#[trigger] counts(usage, key, n)
}

/// The tokens are handed on under their Responses names: those read, those written, and the total
/// that the backend gave.
pub proof fn tokens_are_handed_on(
    chat: Tree,
    ids: Seq<Seq<char>>,
    usage: Map<Seq<char>, Tree>,
    prompt: int,
    completion: int,
    total: int,
)
    requires
        chat.at("usage"@) == Some(Tree::Object(usage)),
        counts(usage, "prompt_tokens"@, prompt) || (counts_nothing(usage, "prompt_tokens"@)
            && prompt == 0),
        counts(usage, "completion_tokens"@, completion) || (counts_nothing(
            usage,
            "completion_tokens"@,
        ) && completion == 0),
        counts(usage, "total_tokens"@, total) || (counts_nothing(usage, "total_tokens"@) && total
            == prompt + completion),
    ensures
        responses_reply(chat, ids).contains_key("usage"@),
        responses_reply(chat, ids)["usage"@] == Tree::Object(
            map![
                "input_tokens"@ => Tree::Number(integer(prompt)),
                "output_tokens"@ => Tree::Number(integer(completion)),
                "total_tokens"@ => Tree::Number(integer(total)),
            ],
        ),
        usage_of(Tree::Object(usage)) == Some(responses_reply(chat, ids)["usage"@]),
        usage_fits(Tree::Object(usage)) <==> counts(usage, "total_tokens"@, total) || i64::MIN
            <= prompt + completion <= i64::MAX,
{
    lemma_words_differ();
    lemma_counts(usage, "prompt_tokens"@, prompt);
    lemma_counts(usage, "completion_tokens"@, completion);
    lemma_counts(usage, "total_tokens"@, total);
}

proof fn lemma_counts(usage: Map<Seq<char>, Tree>, key: Seq<char>, n: int)
    ensures
        counts(usage, key, n) ==> crate::protocol::reply::int_at(Tree::Object(usage), key) == Some(
            n,
        ),
        counts_nothing(usage, key) ==> crate::protocol::reply::int_at(Tree::Object(usage), key)
            is None,
{
    if let Some(held) = crate::protocol::reply::int_at(Tree::Object(usage), key) {
        assert(counts(usage, key, held));
    }
}

/// A reply without a usage, or with one that is no object, is handed on without one.
pub proof fn no_usage_no_tokens(chat: Tree, ids: Seq<Seq<char>>)
    requires
        chat.at("usage"@) is None || !(chat.at("usage"@)->0 is Object),
    ensures
        !responses_reply(chat, ids).contains_key("usage"@),
        usage_fits(child(chat, "usage"@)),
        chat.at("usage"@) matches Some(usage) ==> usage_of(usage) is None,
{
    lemma_words_differ();
}

/// A member that is not there reads as null.
pub proof fn a_missing_member_is_null(value: Tree, key: Seq<char>)
    ensures
        value.at(key) is None ==> child(value, key) == Tree::Null,
        value.at(key) is Some ==> Some(child(value, key)) == value.at(key),
{
}

/// The message is that of the first alternative.
pub proof fn the_first_alternative_speaks(chat: Tree, choice: Tree, message: Tree)
    requires
        offers(chat, choice, message),
    ensures
        message_in(chat) == message,
{
}

/// Identifiers that were drawn for a message: one for each item of its output, each made by
/// `fresh_id` for the prefix that belongs to the item.
pub proof fn identifiers_are_drawn_for_each_item<F: Fn(&str) -> String>(
    fresh_id: F,
    message: Tree,
    ids: Seq<Seq<char>>,
    i: int,
)
    requires
        drawn_ids(fresh_id, message, ids),
    ensures
        ids.len() == lead(message) + if elements_at(message, "tool_calls"@) is Some {
            elements_at(message, "tool_calls"@)->0.len()
        } else {
            0nat
        },
        i == 0 && lead(message) == 1 ==> exists|made: String|
            made@ == ids[i] && #[trigger] call_ensures(fresh_id, ("msg_",), made),
        0 <= i < ids.len() && !(i == 0 && lead(message) == 1) ==> exists|made: String|
            made@ == ids[i] && #[trigger] call_ensures(fresh_id, ("fc_",), made),
{
    if 0 <= i < ids.len() {
        assert(is_drawn(fresh_id, id_prefix(message, i), ids[i]));
        let prefix = id_prefix(message, i);
        let made = choose|made: String|
            made@ == ids[i] && #[trigger] call_ensures(fresh_id, (prefix,), made);
        assert(call_ensures(fresh_id, (prefix,), made));
    }
}

/// A reply has a fault exactly where it has no identifier or offers nothing; the missing identifier
/// is told first.
pub proof fn faults_are_told(chat: Tree)
    ensures
        fault_of(chat) is None <==> text_at(chat, "id"@) is Some && elements_at(chat, "choices"@)
            is Some && elements_at(chat, "choices"@)->0.len() > 0,
        text_at(chat, "id"@) is None ==> fault_of(chat) == Some(
            "missing 'id' field in chat completion response"@,
        ),
        text_at(chat, "id"@) is Some && fault_of(chat) is Some ==> fault_of(chat) == Some(
            "chat completion response has no choices"@,
        ),
        usage_overflow() == "token counts of chat completion response do not add up"@,
{
}

/// The text's item is named a message's, every other a call's.
pub proof fn identifiers_tell_items_apart(message: Tree, i: int)
    ensures
        id_prefix(message, i)@ == if i == 0 && lead(message) == 1 {
            "msg_"@
        } else {
            "fc_"@
        },
{
}

/// Each status goes by one name, and no other name stands for one.
pub proof fn statuses_are_told_apart(status: MessageStatus, name: Seq<char>)
    ensures
        named_status(name) == Some(status) <==> status_name(status) == name,
        status is Completed ==> status_name(status) == "completed"@,
        status is Incomplete ==> status_name(status) == "incomplete"@,
        status is InProgress ==> status_name(status) == "in_progress"@,
{
    lemma_words_differ();
}

/// An item on the wire is read as a message exactly where it is one in every part: its identifier,
/// a known status, and a list of texts.
pub proof fn messages_are_read_whole(
    item: Tree,
    id: Seq<char>,
    status: MessageStatus,
    content: Seq<Seq<char>>,
)
    ensures
        item_read(item) == Some(Item::Message { id, status, content }) <==> {
            &&& text_at(item, "type"@) == Some("message"@)
            &&& text_at(item, "id"@) == Some(id)
            &&& text_at(item, "status"@) == Some(status_name(status))
            &&& elements_at(item, "content"@) is Some
            &&& elements_at(item, "content"@)->0.len() == content.len()
            &&& forall|i: int|
                0 <= i < content.len() ==> text_at(
                    #[trigger] elements_at(item, "content"@)->0[i],
                    "type"@,
                ) == Some("output_text"@) && text_at(elements_at(item, "content"@)->0[i], "text"@)
                    == Some(content[i])
        },
{
    lemma_words_differ();
    let parts = elements_at(item, "content"@)->0;
    if item_read(item) == Some(Item::Message { id, status, content }) {
        assert(content == crate::protocol::reply::parts_read(parts)->0);
        assert forall|i: int| 0 <= i < content.len() implies text_at(#[trigger] parts[i], "type"@)
            == Some("output_text"@) && text_at(parts[i], "text"@) == Some(content[i]) by {
            assert(crate::protocol::reply::part_read(parts[i]) is Some);
        }
    }
    if elements_at(item, "content"@) is Some && parts.len() == content.len() && forall|i: int|
        0 <= i < content.len() ==> text_at(#[trigger] parts[i], "type"@) == Some("output_text"@)
            && text_at(parts[i], "text"@) == Some(content[i]) {
        assert forall|i: int| 0 <= i < parts.len() implies crate::protocol::reply::part_read(
            #[trigger] parts[i],
        ) == Some(content[i]) by {}
        assert(crate::protocol::reply::parts_read(parts)->0 =~= content);
    }
}

/// An item on the wire is read as a call exactly where it is one in every part; its namespace may be
/// left out or null.
pub proof fn calls_are_read_whole(
    item: Tree,
    id: Seq<char>,
    call_id: Seq<char>,
    name: Seq<char>,
    namespace: Option<Seq<char>>,
    arguments: Seq<char>,
    status: MessageStatus,
)
    ensures
        item_read(item) == Some(
            Item::Call { id, call_id, name, namespace, arguments, status },
        ) <==> {
            &&& text_at(item, "type"@) == Some("function_call"@)
            &&& text_at(item, "id"@) == Some(id)
            &&& text_at(item, "call_id"@) == Some(call_id)
            &&& text_at(item, "name"@) == Some(name)
            &&& text_at(item, "arguments"@) == Some(arguments)
            &&& text_at(item, "status"@) == Some(status_name(status))
            &&& match namespace {
                Some(n) => text_at(item, "namespace"@) == Some(n),
                None => item.at("namespace"@) is None || item.at("namespace"@) == Some(Tree::Null),
            }
        },
{
    lemma_words_differ();
}

/// A call's namespace is written where it has one, beside everything else that it holds.
pub proof fn calls_are_written_whole(
    id: Seq<char>,
    call_id: Seq<char>,
    name: Seq<char>,
    namespace: Option<Seq<char>>,
    arguments: Seq<char>,
    status: MessageStatus,
)
    ensures
        ({
            let item = Item::Call { id, call_id, name, namespace, arguments, status };
            let plain = map![
                "type"@ => Tree::String("function_call"@),
                "id"@ => Tree::String(id),
                "call_id"@ => Tree::String(call_id),
                "name"@ => Tree::String(name),
                "arguments"@ => Tree::String(arguments),
                "status"@ => Tree::String(status_name(status)),
            ];
            &&& namespace is None ==> item_tree(item) == Tree::Object(plain)
            &&& namespace is Some ==> item_tree(item) == Tree::Object(
                plain.insert("namespace"@, Tree::String(namespace->0)),
            )
        }),
{
}

/// A message is written with every one of its texts, in order.
pub proof fn messages_are_written_whole(
    id: Seq<char>,
    status: MessageStatus,
    content: Seq<Seq<char>>,
)
    ensures
        ({
            let written = item_tree(Item::Message { id, status, content });
            &&& written is Object
            &&& text_at(written, "id"@) == Some(id)
            &&& text_at(written, "type"@) == Some("message"@)
            &&& text_at(written, "role"@) == Some("assistant"@)
            &&& text_at(written, "status"@) == Some(status_name(status))
            &&& elements_at(written, "content"@) is Some
            &&& elements_at(written, "content"@)->0.len() == content.len()
            &&& forall|i: int|
                0 <= i < content.len() ==> #[trigger] elements_at(written, "content"@)->0[i]
                    == Tree::Object(
                    map![
                        "type"@ => Tree::String("output_text"@),
                        "text"@ => Tree::String(content[i]),
                        "annotations"@ => Tree::Array(Seq::empty()),
                    ],
                )
        }),
{
    lemma_words_differ();
    lemma_item_words();
    reveal_strlit("content");
    reveal_strlit("role");
    reveal_strlit("type");
    reveal_strlit("id");
    reveal_strlit("status");
    assert("content"@.len() == 7);
    assert("role"@.len() == 4);
    assert("type"@.len() == 4);
    assert("id"@.len() == 2);
    assert("status"@.len() == 6);
    assert("role"@[0] != "type"@[0]);
}

/// The string under a name, or none of it.
pub proof fn a_missing_string_is_empty(value: Tree, key: Seq<char>, text: Seq<char>)
    ensures
        text_at(value, key) == Some(text) ==> string_in(value, key) == text,
        text_at(value, key) is None ==> string_in(value, key).len() == 0,
        int_value(value) is Some <==> value is Number && integer_of(value->Number_0) is Some
            && i64::MIN <= integer_of(value->Number_0)->0 <= i64::MAX,
        int_value(value) is Some ==> int_value(value) == integer_of(value->Number_0),
{
}

} // verus!
