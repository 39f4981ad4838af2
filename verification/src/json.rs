//! JSON values: the executable [`Json`] and the mathematical [`Tree`] that contracts speak of.

use vstd::prelude::*;

use crate::text::same_text;

verus! {

/// What a JSON value is, as mathematics: an object is a map from names to values, so neither the
/// order of its members nor a repeated name can be seen.
#[verifier::ext_equal]
pub enum Tree {
    Null,
    Bool(bool),
    Number(serde_json::Number),
    String(Seq<char>),
    Array(Seq<Tree>),
    Object(Map<Seq<char>, Tree>),
}

/// A JSON value.
///
/// An object is the list of its members in the order they were written; where a name occurs
/// twice, the later member counts.
#[derive(Debug)]
pub enum Json {
    Null,
    Bool(bool),
    Number(serde_json::Number),
    String(String),
    Array(Vec<Json>),
    Object(Vec<(String, Json)>),
}

/// The outside type that carries a JSON number, integer or not.
#[verifier::external_type_specification]
#[verifier::external_body]
pub struct ExNumber(serde_json::Number);

/// `serde_json::Number::clone`: the clone is the number itself.
pub assume_specification[ <serde_json::Number as Clone>::clone ](number: &serde_json::Number) -> (r:
    serde_json::Number)
    ensures
        r == *number,
;

/// The trees of a list of values, one for one.
pub open spec fn trees(items: Seq<Json>) -> Seq<Tree>
    decreases items, items.len(),
{
    Seq::new(
        items.len(),
        |i: int|
            if 0 <= i < items.len() {
                items[i].tree()
            } else {
                Tree::Null
            },
    )
}

/// The object that a list of members stands for: a later member replaces an earlier one.
pub open spec fn members(entries: Seq<(String, Json)>) -> Map<Seq<char>, Tree>
    decreases entries, entries.len(),
{
    if entries.len() == 0 {
        Map::empty()
    } else {
        members(entries.drop_last()).insert(entries.last().0@, entries.last().1.tree())
    }
}

impl Json {
    /// The value's tree; `json@` is the same.
    pub open spec fn tree(self) -> Tree
        decreases self, 0nat,
    {
        match self {
            Json::Null => Tree::Null,
            Json::Bool(b) => Tree::Bool(b),
            Json::Number(n) => Tree::Number(n),
            Json::String(s) => Tree::String(s@),
            Json::Array(items) => Tree::Array(trees(items@)),
            Json::Object(entries) => Tree::Object(members(entries@)),
        }
    }
}

impl View for Json {
    type V = Tree;

    open spec fn view(&self) -> Tree {
        self.tree()
    }
}

impl Tree {
    /// The value that an object holds under `key`; nothing for any other kind of value.
    pub open spec fn at(self, key: Seq<char>) -> Option<Tree> {
        match self {
            Tree::Object(m) => if m.contains_key(key) {
                Some(m[key])
            } else {
                None
            },
            _ => None,
        }
    }

    /// The text of a string.
    pub open spec fn text(self) -> Option<Seq<char>> {
        match self {
            Tree::String(s) => Some(s),
            _ => None,
        }
    }

    /// The elements of an array.
    pub open spec fn elements(self) -> Option<Seq<Tree>> {
        match self {
            Tree::Array(items) => Some(items),
            _ => None,
        }
    }
}

/// The string that `value` holds under `key`, if it is an object that holds a string there.
pub open spec fn text_at(value: Tree, key: Seq<char>) -> Option<Seq<char>> {
    match value.at(key) {
        Some(v) => v.text(),
        None => None,
    }
}

/// The array that `value` holds under `key`, if it is an object that holds an array there.
pub open spec fn elements_at(value: Tree, key: Seq<char>) -> Option<Seq<Tree>> {
    match value.at(key) {
        Some(v) => v.elements(),
        None => None,
    }
}

pub proof fn lemma_trees_push(items: Seq<Json>, item: Json)
    ensures
        trees(items.push(item)) == trees(items).push(item@),
{
    assert(trees(items.push(item)) =~= trees(items).push(item@));
}

pub proof fn lemma_members_push(entries: Seq<(String, Json)>, entry: (String, Json))
    ensures
        members(entries.push(entry)) == members(entries).insert(entry.0@, entry.1@),
{
    assert(entries.push(entry).drop_last() =~= entries);
}

/// No member after position `n` is named `key`, so the object reads as its first `n` members do.
proof fn lemma_members_skip(entries: Seq<(String, Json)>, n: int, key: Seq<char>)
    requires
        0 <= n <= entries.len(),
        forall|i: int| n <= i < entries.len() ==> (#[trigger] entries[i]).0@ != key,
    ensures
        members(entries).contains_key(key) == members(entries.take(n)).contains_key(key),
        members(entries).contains_key(key) ==> members(entries)[key] == members(
            entries.take(n),
        )[key],
    decreases entries.len(),
{
    if n == entries.len() {
        assert(entries.take(n) =~= entries);
    } else {
        lemma_members_skip(entries.drop_last(), n, key);
        assert(entries.drop_last().take(n) =~= entries.take(n));
        assert(entries[entries.len() - 1].0@ != key);
    }
}

/// Adds a member to an object under construction.
pub fn put(entries: &mut Vec<(String, Json)>, key: &str, value: Json)
    ensures
        members(final(entries)@) == members(old(entries)@).insert(key@, value@),
{
    let name: String = key.to_owned();
    proof {
        lemma_members_push(entries@, (name, value));
    }
    entries.push((name, value));
}

impl Json {
    /// A string value holding a copy of `text`.
    pub fn string(text: &str) -> (r: Json)
        ensures
            r@ == Tree::String(text@),
    {
        Json::String(text.to_owned())
    }

    /// The value that an object holds under `key`; nothing for any other kind of value.
    pub fn get(&self, key: &str) -> (r: Option<&Json>)
        ensures
            match r {
                Some(v) => self@.at(key@) == Some(v@),
                None => self@.at(key@) is None,
            },
    {
        match self {
            Json::Object(entries) => {
                let mut n: usize = entries.len();
                while n > 0
                    invariant
                        n <= entries.len(),
                        forall|i: int|
                            n <= i < entries.len() ==> (#[trigger] entries@[i]).0@ != key@,
                        self@ == Tree::Object(members(entries@)),
                    decreases n,
                {
                    if same_text(entries[n - 1].0.as_str(), key) {
                        proof {
                            lemma_members_skip(entries@, n as int, key@);
                            assert(entries@.take(n as int).last() == entries@[n - 1]);
                        }
                        return Some(&entries[n - 1].1);
                    }
                    n = n - 1;
                }
                proof {
                    lemma_members_skip(entries@, 0, key@);
                    assert(entries@.take(0) =~= Seq::empty());
                }
                None
            },
            _ => None,
        }
    }

    /// The text of a string.
    pub fn as_str(&self) -> (r: Option<&str>)
        ensures
            match r {
                Some(s) => self@.text() == Some(s@),
                None => self@.text() is None,
            },
    {
        match self {
            Json::String(s) => Some(s.as_str()),
            _ => None,
        }
    }

    /// The elements of an array.
    pub fn as_array(&self) -> (r: Option<&Vec<Json>>)
        ensures
            match r {
                Some(items) => self@.elements() == Some(trees(items@)),
                None => self@.elements() is None,
            },
    {
        match self {
            Json::Array(items) => Some(items),
            _ => None,
        }
    }

    pub fn is_object(&self) -> (r: bool)
        ensures
            r == (self@ is Object),
    {
        match self {
            Json::Object(_) => true,
            _ => false,
        }
    }
}

/// A copy of each value, in order.
pub fn copies(items: &[Json]) -> (r: Vec<Json>)
    ensures
        trees(r@) == trees(items@),
{
    let mut copy: Vec<Json> = Vec::new();
    let mut i: usize = 0;
    while i < items.len()
        invariant
            i <= items.len(),
            trees(copy@) == trees(items@).take(i as int),
        decreases items.len() - i,
    {
        let item: Json = items[i].clone();
        proof {
            lemma_trees_push(copy@, item);
            assert(trees(items@).take(i + 1) =~= trees(items@).take(i as int).push(item@));
        }
        copy.push(item);
        i = i + 1;
    }
    assert(trees(items@).take(i as int) =~= trees(items@));
    copy
}

impl Clone for Json {
    fn clone(&self) -> (r: Json)
        ensures
            r@ == self@,
        decreases self,
    {
        match self {
            Json::Null => Json::Null,
            Json::Bool(b) => Json::Bool(*b),
            Json::Number(n) => Json::Number(n.clone()),
            Json::String(s) => Json::String(s.clone()),
            Json::Array(items) => {
                let mut copy: Vec<Json> = Vec::new();
                let mut i: usize = 0;
                while i < items.len()
                    invariant
                        i <= items.len(),
                        *self == Json::Array(*items),
                        trees(copy@) == trees(items@).take(i as int),
                    decreases items.len() - i,
                {
                    assert(decreases_to!(*self => self->Array_0));
                    assert(decreases_to!(*items => items@));
                    assert(decreases_to!(items@ => items@[i as int]));
                    let item: Json = items[i].clone();
                    proof {
                        lemma_trees_push(copy@, item);
                        assert(trees(items@).take(i + 1) =~= trees(items@).take(i as int).push(
                            item@,
                        ));
                    }
                    copy.push(item);
                    i = i + 1;
                }
                assert(trees(items@).take(i as int) =~= trees(items@));
                Json::Array(copy)
            },
            Json::Object(entries) => {
                let mut copy: Vec<(String, Json)> = Vec::new();
                let mut i: usize = 0;
                while i < entries.len()
                    invariant
                        i <= entries.len(),
                        *self == Json::Object(*entries),
                        members(copy@) == members(entries@.take(i as int)),
                    decreases entries.len() - i,
                {
                    assert(decreases_to!(*self => self->Object_0));
                    assert(decreases_to!(*entries => entries@));
                    assert(decreases_to!(entries@ => entries@[i as int]));
                    assert(decreases_to!(entries@[i as int] => entries@[i as int].1));
                    let value: Json = entries[i].1.clone();
                    let entry: (String, Json) = (entries[i].0.clone(), value);
                    proof {
                        lemma_members_push(copy@, entry);
                        assert(entries@.take(i + 1).drop_last() =~= entries@.take(i as int));
                    }
                    copy.push(entry);
                    i = i + 1;
                }
                assert(entries@.take(i as int) =~= entries@);
                Json::Object(copy)
            },
        }
    }
}

} // verus!
