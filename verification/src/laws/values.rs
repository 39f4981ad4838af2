//! What the mathematical values say of the values that run.

use vstd::prelude::*;

use crate::json::{elements_at, lemma_members_push, members, text_at, trees, Json, Tree};
use crate::protocol::reply::{items_view, texts, texts_of, OutputItem, OutputTextContent};
use crate::session_prefix::SessionPrefixData;

verus! {

/// A name finds a member in an object that has one of that name, and in no other value.
pub proof fn members_are_found_by_name(value: Tree, key: Seq<char>, held: Tree)
    ensures
        value.at(key) == Some(held) <==> value is Object && value->Object_0.contains_key(key)
            && value->Object_0[key] == held,
        value.at(key) is None <==> !(value is Object) || !value->Object_0.contains_key(key),
{
}

/// A string is found where a member is a string, a list where it is a list.
pub proof fn members_are_told_apart(value: Tree, key: Seq<char>, text: Seq<char>, items: Seq<Tree>)
    ensures
        text_at(value, key) == Some(text) <==> value is Object && value->Object_0.contains_key(key)
            && value->Object_0[key] == Tree::String(text),
        elements_at(value, key) == Some(items) <==> value is Object
            && value->Object_0.contains_key(key) && value->Object_0[key] == Tree::Array(items),
        value.text() == Some(text) <==> value == Tree::String(text),
        value.elements() == Some(items) <==> value == Tree::Array(items),
{
}

/// A value stands for what it holds: itself, its text, its elements one for one.
pub proof fn values_stand_for_what_they_hold(json: Json)
    ensures
        json is Null ==> json@ == Tree::Null,
        json is Bool ==> json@ == Tree::Bool(json->Bool_0),
        json is Number ==> json@ == Tree::Number(json->Number_0),
        json is String ==> json@ == Tree::String(json->String_0@),
        json is Array ==> json@ is Array && json@->Array_0.len() == json->Array_0@.len()
            && forall|i: int|
            0 <= i < json->Array_0@.len() ==> #[trigger] json@->Array_0[i] == json->Array_0@[i]@,
        json is Object ==> json@ == Tree::Object(members(json->Object_0@)),
{
}

/// A list of values stands for their trees, one for one.
pub proof fn lists_stand_for_their_elements(items: Seq<Json>, i: int)
    ensures
        trees(items).len() == items.len(),
        0 <= i < items.len() ==> trees(items)[i] == items[i]@,
{
}

/// An object holds under each name what its last member of that name holds, and nothing under a name
/// that no member has.
pub proof fn the_last_member_counts(entries: Seq<(String, Json)>, last: int, key: Seq<char>)
    requires
        -1 <= last < entries.len(),
        last >= 0 ==> entries[last].0@ == key,
        forall|i: int| last < i < entries.len() ==> (#[trigger] entries[i]).0@ != key,
    ensures
        last >= 0 ==> members(entries).contains_key(key) && members(entries)[key]
            == entries[last].1@,
        last == -1 ==> !members(entries).contains_key(key),
    decreases entries.len(),
{
    if entries.len() > 0 {
        let front = entries.drop_last();
        assert(entries =~= front.push(entries.last()));
        lemma_members_push(front, entries.last());
        if last < entries.len() - 1 {
            assert(entries[entries.len() - 1].0@ != key);
            the_last_member_counts(front, last, key);
        }
    }
}

/// An output item shows everything that it holds.
pub proof fn items_show_what_they_hold(item: OutputItem)
    ensures
        item is Message ==> {
            let held = item->Message_0;
            &&& item@ is Message
            &&& item@->Message_id == held.id@
            &&& item@->Message_status == held.status
            &&& item@->Message_content.len() == held.content@.len()
            &&& forall|i: int|
                0 <= i < held.content@.len() ==> #[trigger] item@->Message_content[i]
                    == held.content@[i].text@
        },
        item is FunctionCall ==> {
            let held = item->FunctionCall_0;
            &&& item@ is Call
            &&& item@->Call_id == held.id@
            &&& item@->call_id == held.call_id@
            &&& item@->name == held.name@
            &&& item@->arguments == held.arguments@
            &&& item@->Call_status == held.status
            &&& held.namespace is Some ==> item@->namespace == Some(held.namespace->0@)
            &&& held.namespace is None ==> item@->namespace is None
        },
{
}

/// Lists of items, of texts and of identifiers show their elements one for one.
pub proof fn lists_show_their_elements(
    items: Seq<OutputItem>,
    content: Seq<OutputTextContent>,
    ids: Seq<String>,
    i: int,
)
    ensures
        items_view(items).len() == items.len(),
        texts(content).len() == content.len(),
        texts_of(ids).len() == ids.len(),
        0 <= i < items.len() ==> items_view(items)[i] == items[i]@,
        0 <= i < content.len() ==> texts(content)[i] == content[i].text@,
        0 <= i < ids.len() ==> texts_of(ids)[i] == ids[i]@,
{
}

/// A stored prefix shows its count and its messages.
pub proof fn prefixes_show_what_they_hold(data: SessionPrefixData)
    ensures
        data@.replaced == data.replaced_count,
        data@.replacement.len() == data.replacement@.len(),
        forall|i: int|
            0 <= i < data.replacement@.len() ==> #[trigger] data@.replacement[i]
                == data.replacement@[i]@,
{
}

} // verus!
