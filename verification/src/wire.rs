//! JSON text: reading and writing through `serde_json`.

use vstd::prelude::*;
use vstd::utf8::encode_utf8;

use crate::json::{lemma_members_push, lemma_trees_push, members, trees, Json, Tree};

verus! {

/// The outside type of a parsed JSON value.
#[verifier::external_type_specification]
#[verifier::external_body]
pub struct ExValue(serde_json::Value);

/// The outside type of a JSON object: a collection of members.
#[verifier::external_type_specification]
#[verifier::external_body]
#[verifier::reject_recursive_types(K)]
#[verifier::reject_recursive_types(V)]
pub struct ExObject<K, V>(serde_json::Map<K, V>);

/// The outside type of a JSON failure.
#[verifier::external_type_specification]
#[verifier::external_body]
pub struct ExJsonFailure(serde_json::Error);

/// What a `serde_json::Value` holds.
pub uninterp spec fn value_tree(value: serde_json::Value) -> Tree;

/// What a `serde_json::Map` holds.
pub uninterp spec fn object_members(object: serde_json::Map<String, serde_json::Value>) -> Map<
    Seq<char>,
    Tree,
>;

/// What `serde_json::from_slice` reads from a text, if the text is JSON.
pub uninterp spec fn json_of(bytes: Seq<u8>) -> Option<Tree>;

/// The text that `serde_json::to_string` writes for a value.
pub uninterp spec fn json_text(tree: Tree) -> Seq<char>;

/// The integer that a number was stored as; nothing for a number stored as a fraction.
/// `serde_json::Number::as_i64` hands it out as far as it fits.
pub uninterp spec fn integer_of(number: serde_json::Number) -> Option<int>;

/// The number that `serde_json::Number::from` makes of an integer.
pub uninterp spec fn integer(n: int) -> serde_json::Number;

/// One level of a `serde_json::Value`, borrowed.
pub enum Shape<'a> {
    Null,
    Bool(bool),
    Number(&'a serde_json::Number),
    String(&'a String),
    Array(&'a Vec<serde_json::Value>),
    Object(&'a serde_json::Map<String, serde_json::Value>),
}

/// One level of a `serde_json::Value`, owned.
pub enum Part {
    Null,
    Bool(bool),
    Number(serde_json::Number),
    String(String),
    Array(Vec<serde_json::Value>),
    Object(serde_json::Map<String, serde_json::Value>),
}

pub open spec fn value_trees(values: Seq<serde_json::Value>) -> Seq<Tree> {
    Seq::new(values.len(), |i: int| value_tree(values[i]))
}

pub open spec fn shape_tree(shape: Shape<'_>) -> Tree {
    match shape {
        Shape::Null => Tree::Null,
        Shape::Bool(b) => Tree::Bool(b),
        Shape::Number(n) => Tree::Number(*n),
        Shape::String(s) => Tree::String(s@),
        Shape::Array(items) => Tree::Array(value_trees(items@)),
        Shape::Object(object) => Tree::Object(object_members(*object)),
    }
}

pub open spec fn part_tree(part: Part) -> Tree {
    match part {
        Part::Null => Tree::Null,
        Part::Bool(b) => Tree::Bool(b),
        Part::Number(n) => Tree::Number(n),
        Part::String(s) => Tree::String(s@),
        Part::Array(items) => Tree::Array(value_trees(items@)),
        Part::Object(object) => Tree::Object(object_members(object)),
    }
}

/// The variants of `serde_json::Value`, told apart: the fields are handed out as they are.
#[verifier::external_body]
fn shape_of<'a>(value: &'a serde_json::Value) -> (r: Shape<'a>)
    ensures
        shape_tree(r) == value_tree(*value),
{
    match value {
        serde_json::Value::Null => Shape::Null,
        serde_json::Value::Bool(b) => Shape::Bool(*b),
        serde_json::Value::Number(n) => Shape::Number(n),
        serde_json::Value::String(s) => Shape::String(s),
        serde_json::Value::Array(items) => Shape::Array(items),
        serde_json::Value::Object(object) => Shape::Object(object),
    }
}

/// The variants of `serde_json::Value`, put together: the fields are taken as they are.
#[verifier::external_body]
fn value_of(part: Part) -> (r: serde_json::Value)
    ensures
        value_tree(r) == part_tree(part),
{
    match part {
        Part::Null => serde_json::Value::Null,
        Part::Bool(b) => serde_json::Value::Bool(b),
        Part::Number(n) => serde_json::Value::Number(n),
        Part::String(s) => serde_json::Value::String(s),
        Part::Array(items) => serde_json::Value::Array(items),
        Part::Object(object) => serde_json::Value::Object(object),
    }
}

pub open spec fn no_members() -> Map<Seq<char>, Tree> {
    Map::empty()
}

/// `serde_json::Map::new`: the object without members.
#[verifier::external_body]
fn new_object() -> (r: serde_json::Map<String, serde_json::Value>)
    ensures
        object_members(r) == no_members(),
{
    serde_json::Map::new()
}

/// `serde_json::Map::insert`: a member is added, or replaced where the name was taken.
#[verifier::external_body]
fn insert_member(
    object: &mut serde_json::Map<String, serde_json::Value>,
    key: String,
    value: serde_json::Value,
)
    ensures
        object_members(*final(object)) == object_members(*old(object)).insert(
            key@,
            value_tree(value),
        ),
{
    object.insert(key, value);
}

/// `serde_json::Map::iter`: every member is handed out, and nothing else.
#[verifier::external_body]
fn members_of<'a>(object: &'a serde_json::Map<String, serde_json::Value>) -> (r: Vec<
    (&'a String, &'a serde_json::Value),
>)
    ensures
        forall|i: int|
            0 <= i < r@.len() ==> object_members(*object).contains_key((#[trigger] r@[i]).0@)
                && object_members(*object)[r@[i].0@] == value_tree(*r@[i].1),
        forall|key: Seq<char>| #[trigger]
            object_members(*object).contains_key(key) ==> exists|i: int|
                0 <= i < r@.len() && (#[trigger] r@[i]).0@ == key,
{
    object.iter().collect()
}

/// `serde_json::from_slice`: what is read is a function of the bytes.
#[verifier::external_body]
fn value_from_bytes(bytes: &[u8]) -> (r: Result<serde_json::Value, serde_json::Error>)
    ensures
        match r {
            Ok(value) => json_of(bytes@) == Some(value_tree(value)),
            Err(_) => json_of(bytes@) is None,
        },
{
    serde_json::from_slice::<serde_json::Value>(bytes)
}

/// The bytes that JSON allows between its tokens.
pub open spec fn is_space_byte(byte: u8) -> bool {
    byte == 0x20 || byte == 0x0A || byte == 0x09 || byte == 0x0D
}

/// The first byte that is not whitespace opens a list.
pub open spec fn opens_list(bytes: Seq<u8>) -> bool
    decreases bytes.len(),
{
    if bytes.len() == 0 {
        false
    } else if is_space_byte(bytes[0]) {
        opens_list(bytes.drop_first())
    } else {
        bytes[0] == 0x5B
    }
}

/// The list that a text holds, if it is the text of a list.
pub open spec fn list_of(bytes: Seq<u8>) -> Option<Seq<Tree>> {
    match json_of(bytes) {
        Some(Tree::Array(items)) => if opens_list(bytes) {
            Some(items)
        } else {
            None
        },
        _ => None,
    }
}

/// `serde_json::from_str` for a list of values: a text that opens a list is read as
/// `serde_json::from_slice` reads it, and any other text is refused.
#[verifier::external_body]
fn values_from_text(text: &str) -> (r: Result<Vec<serde_json::Value>, serde_json::Error>)
    ensures
        match r {
            Ok(values) => list_of(encode_utf8(text@)) == Some(value_trees(values@)),
            Err(_) => list_of(encode_utf8(text@)) is None,
        },
{
    serde_json::from_str::<Vec<serde_json::Value>>(text)
}

/// The name that `serde_json` keeps for itself: an object that begins with it is not read back
/// as an object.
pub open spec fn reserved_name() -> Seq<char> {
    "$serde_json::private::RawValue"@
}

/// The order of texts by their bytes, in which `serde_json` writes the members of an object.
pub open spec fn precedes(a: Seq<u8>, b: Seq<u8>) -> bool
    decreases a.len(),
{
    if b.len() == 0 {
        false
    } else if a.len() == 0 {
        true
    } else if a[0] != b[0] {
        a[0] < b[0]
    } else {
        precedes(a.drop_first(), b.drop_first())
    }
}

/// An object is written with the reserved name first: it has a member of that name, and none whose
/// name comes before it.
pub open spec fn begins_reserved(object: Map<Seq<char>, Tree>) -> bool {
    object.contains_key(reserved_name()) && forall|key: Seq<char>| #[trigger]
        object.contains_key(key) ==> !precedes(encode_utf8(key), encode_utf8(reserved_name()))
}

/// Values that `serde_json` reads back as it wrote them: no fraction (its reader may round one),
/// no object that begins with the name it keeps for itself, and no deeper than `depth` levels.
pub open spec fn rereadable(tree: Tree, depth: nat) -> bool
    decreases tree,
{
    match tree {
        Tree::Number(n) => integer_of(n) is Some,
        Tree::Array(items) => depth > 0 && forall|i: int|
            0 <= i < items.len() ==> #[trigger] rereadable(items[i], (depth - 1) as nat),
        Tree::Object(m) => depth > 0 && m.dom().finite() && !begins_reserved(m) && forall|
            key: Seq<char>,
        | #[trigger]
            m.contains_key(key) ==> rereadable(m[key], (depth - 1) as nat),
        _ => true,
    }
}

/// What `serde_json` reads of the text that it writes for a value.
pub open spec fn reread(tree: Tree) -> Option<Tree> {
    json_of(encode_utf8(json_text(tree)))
}

/// How deep a value may be for `serde_json` to read it: its reader counts down from 128 and gives
/// up at zero.
pub const MAX_DEPTH: u64 = 127;

/// `serde_json::to_string`: a value is always written, and what is written is a function of the
/// value. A value that can be read back, `serde_json::from_slice` reads back from that text, and
/// the text of an array opens a list.
#[verifier::external_body]
fn text_of(value: &serde_json::Value) -> (r: Result<String, serde_json::Error>)
    ensures
        r is Ok,
        r->Ok_0@ == json_text(value_tree(*value)),
        rereadable(value_tree(*value), MAX_DEPTH as nat) ==> json_of(encode_utf8(r->Ok_0@)) == Some(
            value_tree(*value),
        ),
        value_tree(*value) is Array ==> opens_list(encode_utf8(r->Ok_0@)),
{
    serde_json::to_string(value)
}

/// `serde_json::Number::as_i64`: the integer, where the number was stored as one that fits.
#[verifier::external_body]
fn number_as_i64(number: &serde_json::Number) -> (r: Option<i64>)
    ensures
        match r {
            Some(n) => integer_of(*number) == Some(n as int) && *number == integer(n as int),
            None => match integer_of(*number) {
                Some(n) => n < i64::MIN || n > i64::MAX,
                None => true,
            },
        },
{
    number.as_i64()
}

/// `serde_json::Number::from`: an integer is stored as that integer.
#[verifier::external_body]
fn number_from_i64(n: i64) -> (r: serde_json::Number)
    ensures
        r == integer(n as int),
        integer_of(r) == Some(n as int),
{
    serde_json::Number::from(n)
}

/// The integer that a value is, as far as it fits.
pub open spec fn int_value(value: Tree) -> Option<int> {
    match value {
        Tree::Number(n) => match integer_of(n) {
            Some(i) => if i64::MIN <= i <= i64::MAX {
                Some(i)
            } else {
                None
            },
            None => None,
        },
        _ => None,
    }
}

impl Json {
    /// The integer that a value is, as far as it fits.
    pub fn as_i64(&self) -> (r: Option<i64>)
        ensures
            match r {
                Some(n) => int_value(self@) == Some(n as int),
                None => int_value(self@) is None,
            },
    {
        match self {
            Json::Number(number) => number_as_i64(number),
            _ => None,
        }
    }

    /// An integer value.
    pub fn number(n: i64) -> (r: Json)
        ensures
            r@ == Tree::Number(integer(n as int)),
            int_value(r@) == Some(n as int),
    {
        Json::Number(number_from_i64(n))
    }
}

/// Every member of `entries` is a member of `object`.
spec fn drawn_from(entries: Seq<(String, Json)>, object: Map<Seq<char>, Tree>) -> bool {
    forall|i: int|
        0 <= i < entries.len() ==> object.contains_key((#[trigger] entries[i]).0@)
            && object[entries[i].0@] == entries[i].1@
}

/// A list of members of an object stands for a part of the object.
proof fn lemma_drawn(entries: Seq<(String, Json)>, object: Map<Seq<char>, Tree>)
    requires
        drawn_from(entries, object),
    ensures
        forall|key: Seq<char>| #[trigger]
            members(entries).contains_key(key) ==> object.contains_key(key) && object[key]
                == members(entries)[key],
        forall|i: int| 0 <= i < entries.len() ==> members(entries).contains_key(
            (#[trigger] entries[i]).0@,
        ),
        members(entries).dom().finite(),
    decreases entries.len(),
{
    if entries.len() > 0 {
        let front = entries.drop_last();
        assert forall|i: int| 0 <= i < front.len() implies object.contains_key(
            (#[trigger] front[i]).0@,
        ) && object[front[i].0@] == front[i].1@ by {
            assert(front[i] == entries[i]);
        }
        lemma_drawn(front, object);
        let last = entries[entries.len() - 1];
        assert(object.contains_key(last.0@));
        assert forall|i: int| 0 <= i < entries.len() implies members(entries).contains_key(
            (#[trigger] entries[i]).0@,
        ) by {
            if i < front.len() {
                assert(members(front).contains_key(front[i].0@));
            }
        }
    }
}

/// The members of a `serde_json::Map` are finite in number, since a list holds them all.
proof fn lemma_finite<'a>(
    entries: Seq<(&'a String, &'a serde_json::Value)>,
    object: Map<Seq<char>, Tree>,
)
    requires
        forall|key: Seq<char>| #[trigger]
            object.contains_key(key) ==> exists|i: int|
                0 <= i < entries.len() && (#[trigger] entries[i]).0@ == key,
    ensures
        object.dom().finite(),
{
    let keys = Seq::new(entries.len(), |i: int| entries[i].0@);
    assert(object.dom().subset_of(keys.to_set())) by {
        assert forall|key: Seq<char>| object.dom().contains(key) implies keys.to_set().contains(
            key,
        ) by {
            assert(object.contains_key(key));
            let i = choose|i: int| 0 <= i < entries.len() && (#[trigger] entries[i]).0@ == key;
            assert(keys[i] == key);
        }
    }
    vstd::seq_lib::seq_to_set_is_finite(keys);
    vstd::set_lib::lemma_set_subset_finite(keys.to_set(), object.dom());
}

/// The value in this library's own form.
fn read(value: &serde_json::Value) -> (r: Json)
    ensures
        r@ == value_tree(*value),
    decreases value_tree(*value),
{
    match shape_of(value) {
        Shape::Null => Json::Null,
        Shape::Bool(b) => Json::Bool(b),
        Shape::Number(n) => Json::Number(n.clone()),
        Shape::String(s) => Json::String(s.clone()),
        Shape::Array(values) => {
            let mut items: Vec<Json> = Vec::new();
            let mut i: usize = 0;
            while i < values.len()
                invariant
                    i <= values.len(),
                    value_tree(*value) == Tree::Array(value_trees(values@)),
                    trees(items@) == value_trees(values@).take(i as int),
                decreases values.len() - i,
            {
                proof {
                    let all = value_tree(*value);
                    assert(decreases_to!(all => all->Array_0));
                    assert(decreases_to!(all->Array_0 => all->Array_0[i as int]));
                }
                let item: Json = read(&values[i]);
                proof {
                    lemma_trees_push(items@, item);
                    assert(value_trees(values@).take(i + 1) =~= value_trees(values@).take(
                        i as int,
                    ).push(item@));
                }
                items.push(item);
                i = i + 1;
            }
            assert(value_trees(values@).take(i as int) =~= value_trees(values@));
            Json::Array(items)
        },
        Shape::Object(object) => {
            let listed: Vec<(&String, &serde_json::Value)> = members_of(object);
            let ghost whole = object_members(*object);
            proof {
                lemma_finite(listed@, whole);
            }
            let mut entries: Vec<(String, Json)> = Vec::new();
            let mut i: usize = 0;
            while i < listed.len()
                invariant
                    i <= listed.len(),
                    entries.len() == i,
                    value_tree(*value) == Tree::Object(whole),
                    whole.dom().finite(),
                    forall|j: int|
                        0 <= j < listed@.len() ==> whole.contains_key((#[trigger] listed@[j]).0@)
                            && whole[listed@[j].0@] == value_tree(*listed@[j].1),
                    drawn_from(entries@, whole),
                    forall|j: int| 0 <= j < i ==> (#[trigger] entries@[j]).0@ == listed@[j].0@,
                decreases listed.len() - i,
            {
                proof {
                    let all = value_tree(*value);
                    let key = listed@[i as int].0@;
                    assert(whole.contains_key(key));
                    assert(decreases_to!(all => all->Object_0));
                    assert(decreases_to!(all->Object_0 => all->Object_0[key]));
                }
                let item: Json = read(listed[i].1);
                let name: String = listed[i].0.clone();
                entries.push((name, item));
                i = i + 1;
            }
            proof {
                lemma_drawn(entries@, whole);
                assert forall|key: Seq<char>| #[trigger]
                    whole.contains_key(key) implies members(entries@).contains_key(key) by {
                    let j = choose|j: int|
                        0 <= j < listed@.len() && (#[trigger] listed@[j]).0@ == key;
                    assert(entries@[j].0@ == key);
                }
                assert(members(entries@) =~= whole);
            }
            Json::Object(entries)
        },
    }
}

/// The value in the form that `serde_json` writes.
fn build(json: &Json) -> (r: serde_json::Value)
    ensures
        value_tree(r) == json@,
    decreases json,
{
    match json {
        Json::Null => value_of(Part::Null),
        Json::Bool(b) => value_of(Part::Bool(*b)),
        Json::Number(n) => value_of(Part::Number(n.clone())),
        Json::String(s) => value_of(Part::String(s.clone())),
        Json::Array(items) => {
            let mut values: Vec<serde_json::Value> = Vec::new();
            let mut i: usize = 0;
            while i < items.len()
                invariant
                    i <= items.len(),
                    *json == Json::Array(*items),
                    value_trees(values@) == trees(items@).take(i as int),
                decreases items.len() - i,
            {
                assert(decreases_to!(*json => json->Array_0));
                assert(decreases_to!(*items => items@));
                assert(decreases_to!(items@ => items@[i as int]));
                let value: serde_json::Value = build(&items[i]);
                proof {
                    assert(value_trees(values@.push(value)) =~= value_trees(values@).push(
                        value_tree(value),
                    ));
                    assert(trees(items@).take(i + 1) =~= trees(items@).take(i as int).push(
                        items@[i as int]@,
                    ));
                }
                values.push(value);
                i = i + 1;
            }
            assert(trees(items@).take(i as int) =~= trees(items@));
            value_of(Part::Array(values))
        },
        Json::Object(entries) => {
            let mut object: serde_json::Map<String, serde_json::Value> = new_object();
            let mut i: usize = 0;
            while i < entries.len()
                invariant
                    i <= entries.len(),
                    *json == Json::Object(*entries),
                    object_members(object) == members(entries@.take(i as int)),
                decreases entries.len() - i,
            {
                assert(decreases_to!(*json => json->Object_0));
                assert(decreases_to!(*entries => entries@));
                assert(decreases_to!(entries@ => entries@[i as int]));
                assert(decreases_to!(entries@[i as int] => entries@[i as int].1));
                let value: serde_json::Value = build(&entries[i].1);
                insert_member(&mut object, entries[i].0.clone(), value);
                proof {
                    lemma_members_push(entries@.take(i as int), entries@[i as int]);
                    assert(entries@.take(i + 1) =~= entries@.take(i as int).push(
                        entries@[i as int],
                    ));
                }
                i = i + 1;
            }
            assert(entries@.take(i as int) =~= entries@);
            value_of(Part::Object(object))
        },
    }
}

/// Reads a JSON text.
pub fn parse(bytes: &[u8]) -> (r: Result<Json, serde_json::Error>)
    ensures
        match r {
            Ok(json) => json_of(bytes@) == Some(json@),
            Err(_) => json_of(bytes@) is None,
        },
{
    match value_from_bytes(bytes) {
        Ok(value) => Ok(read(&value)),
        Err(error) => Err(error),
    }
}

/// Reads the JSON text of a list.
pub fn parse_list(text: &str) -> (r: Result<Vec<Json>, serde_json::Error>)
    ensures
        match r {
            Ok(items) => list_of(encode_utf8(text@)) == Some(trees(items@)),
            Err(_) => list_of(encode_utf8(text@)) is None,
        },
{
    let values: Vec<serde_json::Value> = match values_from_text(text) {
        Ok(values) => values,
        Err(error) => {
            return Err(error);
        },
    };
    let mut items: Vec<Json> = Vec::new();
    let mut i: usize = 0;
    while i < values.len()
        invariant
            i <= values.len(),
            trees(items@) == value_trees(values@).take(i as int),
        decreases values.len() - i,
    {
        let item: Json = read(&values[i]);
        proof {
            lemma_trees_push(items@, item);
            assert(value_trees(values@).take(i + 1) =~= value_trees(values@).take(i as int).push(
                item@,
            ));
        }
        items.push(item);
        i = i + 1;
    }
    assert(value_trees(values@).take(i as int) =~= value_trees(values@));
    Ok(items)
}

/// Writes a value as JSON text.
pub fn render(json: &Json) -> (r: Result<String, serde_json::Error>)
    ensures
        r is Ok,
        r->Ok_0@ == json_text(json@),
        rereadable(json@, MAX_DEPTH as nat) ==> json_of(encode_utf8(r->Ok_0@)) == Some(json@),
        json@ is Array ==> opens_list(encode_utf8(r->Ok_0@)),
{
    let value: serde_json::Value = build(json);
    text_of(&value)
}

} // verus!
