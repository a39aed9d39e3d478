//! Documents as text. The text is read and written by serde_json; this file
//! carries its values into the library's trees and back.

use vstd::prelude::*;
use crate::json::{
    keys_distinct, lemma_member_trees, lemma_printable_items, lemma_printable_members, lemma_trees,
    member_trees, trees, Json, JsonValue,
};

verus! {

/// `serde_json::Value`, kept as it comes: the library reads one only through
/// the functions below.
#[verifier::external_type_specification]
#[verifier::external_body]
pub struct ExValue(serde_json::Value);

/// The tree that a `serde_json::Value` holds. A number is `Unsigned` where
/// `Number::as_u64` gives it, and `OtherNumber` where it gives none; the
/// members of an object stand in the order in which its map hands them out.
pub uninterp spec fn value_tree(value: serde_json::Value) -> JsonValue;

/// The tree of the value that `serde_json::from_str` reads from a text, and
/// `None` where it reads none.
pub uninterp spec fn json_parsed(text: Seq<char>) -> Option<JsonValue>;

/// The text that serde_json writes, in its compact form, for a value that
/// holds the given printable tree.
pub uninterp spec fn json_text(doc: JsonValue) -> Seq<char>;

/// One level of a `serde_json::Value`: what it is, with its children still
/// closed.
enum Shell<'a> {
    Null,
    Bool(bool),
    Number(Option<u64>),
    Text(String),
    Array(Vec<&'a serde_json::Value>),
    Object(Vec<(String, &'a serde_json::Value)>),
}

impl Shell<'_> {
    spec fn tree(self) -> JsonValue {
        match self {
            Shell::Null => JsonValue::Null,
            Shell::Bool(b) => JsonValue::Bool(b),
            Shell::Number(Some(n)) => JsonValue::Unsigned(n),
            Shell::Number(None) => JsonValue::OtherNumber,
            Shell::Text(s) => JsonValue::Text(s@),
            Shell::Array(items) => JsonValue::Array(
                Seq::new(items@.len(), |i: int| value_tree(*items@[i])),
            ),
            Shell::Object(members) => JsonValue::Object(
                Seq::new(members@.len(), |i: int| (members@[i].0@, value_tree(*members@[i].1))),
            ),
        }
    }
}

/// One level of a value that is being built, its children built already.
enum Parts {
    Null,
    Bool(bool),
    Unsigned(u64),
    Text(String),
    Array(Vec<serde_json::Value>),
    Object(Vec<(String, serde_json::Value)>),
}

impl Parts {
    spec fn tree(self) -> JsonValue {
        match self {
            Parts::Null => JsonValue::Null,
            Parts::Bool(b) => JsonValue::Bool(b),
            Parts::Unsigned(n) => JsonValue::Unsigned(n),
            Parts::Text(s) => JsonValue::Text(s@),
            Parts::Array(items) => JsonValue::Array(
                Seq::new(items@.len(), |i: int| value_tree(items@[i])),
            ),
            Parts::Object(members) => JsonValue::Object(
                Seq::new(members@.len(), |i: int| (members@[i].0@, value_tree(members@[i].1))),
            ),
        }
    }
}

/// `serde_json::from_str` at the type `serde_json::Value`. The contract names
/// what was read: a value comes back exactly where the text is a document, and
/// its tree is the one that the name gives for the text.
#[verifier::external_body]
fn read_value(text: &str) -> (read: Option<serde_json::Value>)
    ensures
        match read {
            Some(value) => json_parsed(text@) == Some(value_tree(value)),
            None => json_parsed(text@) is None,
        },
{
    match serde_json::from_str::<serde_json::Value>(text) {
        Ok(value) => Some(value),
        Err(_) => None,
    }
}

/// The `Display` of `serde_json::Value`, which writes the compact form. The
/// contract names the text by the value's tree. It asks for a printable tree,
/// since a tree does not say which number an `OtherNumber` is.
#[verifier::external_body]
fn write_value(value: &serde_json::Value) -> (text: String)
    requires
        value_tree(*value).printable(),
    ensures
        text@ == json_text(value_tree(*value)),
{
    value.to_string()
}

/// Tells the variants of a `serde_json::Value` apart and hands out what the
/// variant holds: a number through `Number::as_u64`, a text as a copy, the
/// items and members by reference, in their order.
#[verifier::external_body]
fn open_value<'a>(value: &'a serde_json::Value) -> (shell: Shell<'a>)
    ensures
        shell.tree() == value_tree(*value),
{
    match value {
        serde_json::Value::Null => Shell::Null,
        serde_json::Value::Bool(b) => Shell::Bool(*b),
        serde_json::Value::Number(n) => Shell::Number(n.as_u64()),
        serde_json::Value::String(s) => Shell::Text(s.clone()),
        serde_json::Value::Array(items) => Shell::Array(items.iter().collect()),
        serde_json::Value::Object(map) => Shell::Object(
            map.iter().map(|(key, child)| (key.clone(), child)).collect(),
        ),
    }
}

/// Makes the `serde_json::Value` of one variant from what it is to hold: a
/// number by `Number::from`, which `as_u64` gives back. The members of an
/// object go into its map in their order, which the map keeps, as serde_json
/// is built with `preserve_order`; their keys differ, so none replaces
/// another.
#[verifier::external_body]
fn close_value(parts: Parts) -> (value: serde_json::Value)
    requires
        parts matches Parts::Object(members) ==> forall|i: int, j: int|
            0 <= i < j < members@.len() ==> members@[i].0@ != members@[j].0@,
    ensures
        value_tree(value) == parts.tree(),
{
    match parts {
        Parts::Null => serde_json::Value::Null,
        Parts::Bool(b) => serde_json::Value::Bool(b),
        Parts::Unsigned(n) => serde_json::Value::Number(serde_json::Number::from(n)),
        Parts::Text(s) => serde_json::Value::String(s),
        Parts::Array(items) => serde_json::Value::Array(items),
        Parts::Object(members) => serde_json::Value::Object(members.into_iter().collect()),
    }
}

/// Carries a value into a document tree, level by level.
fn lift(value: &serde_json::Value) -> (doc: Json)
    ensures
        doc@ == value_tree(*value),
    decreases value_tree(*value),
{
    match open_value(value) {
        Shell::Null => Json::Null,
        Shell::Bool(b) => Json::Bool(b),
        Shell::Number(Some(n)) => Json::Unsigned(n),
        Shell::Number(None) => Json::OtherNumber,
        Shell::Text(s) => Json::Text(s),
        Shell::Array(items) => {
            let ghost branches = value_tree(*value)->Array_0;
            let mut out: Vec<Json> = Vec::new();
            let mut i: usize = 0;
            while i < items.len()
                invariant
                    i <= items.len(),
                    out.len() == i,
                    value_tree(*value) == JsonValue::Array(branches),
                    branches.len() == items@.len(),
                    forall|k: int| 0 <= k < items@.len() ==> branches[k] == value_tree(*items@[k]),
                    forall|k: int| 0 <= k < i ==> (#[trigger] out@[k])@ == branches[k],
                decreases items.len() - i,
            {
                proof {
                    assert(branches == value_tree(*value)->Array_0);
                    assert(decreases_to!(value_tree(*value) => value_tree(*value)->Array_0));
                    assert(decreases_to!(branches => branches[i as int]));
                }
                let child = lift(items[i]);
                out.push(child);
                i += 1;
            }
            proof {
                lemma_trees(out@);
                assert(trees(out@) =~= branches);
            }
            Json::Array(out)
        },
        Shell::Object(members) => {
            let ghost branches = value_tree(*value)->Object_0;
            let mut out: Vec<(String, Json)> = Vec::new();
            let mut i: usize = 0;
            while i < members.len()
                invariant
                    i <= members.len(),
                    out.len() == i,
                    value_tree(*value) == JsonValue::Object(branches),
                    branches.len() == members@.len(),
                    forall|k: int|
                        0 <= k < members@.len() ==> branches[k] == (
                            members@[k].0@,
                            value_tree(*members@[k].1),
                        ),
                    forall|k: int|
                        0 <= k < i ==> ((#[trigger] out@[k]).0@, out@[k].1@) == branches[k],
                decreases members.len() - i,
            {
                proof {
                    assert(branches == value_tree(*value)->Object_0);
                    assert(decreases_to!(value_tree(*value) => value_tree(*value)->Object_0));
                    assert(decreases_to!(branches => branches[i as int]));
                    assert(decreases_to!(branches[i as int] => branches[i as int].1));
                }
                let child = lift(members[i].1);
                out.push((members[i].0.clone(), child));
                i += 1;
            }
            proof {
                lemma_member_trees(out@);
                assert(member_trees(out@) =~= branches);
            }
            Json::Object(out)
        },
    }
}

/// Builds the value of a printable document tree, level by level.
fn lower(doc: &Json) -> (value: serde_json::Value)
    requires
        doc@.printable(),
    ensures
        value_tree(value) == doc@,
    decreases doc,
{
    match doc {
        Json::Null => close_value(Parts::Null),
        Json::Bool(b) => close_value(Parts::Bool(*b)),
        Json::Unsigned(n) => close_value(Parts::Unsigned(*n)),
        Json::OtherNumber => {
            proof {
                assert(false);
            }
            close_value(Parts::Null)
        },
        Json::Text(s) => close_value(Parts::Text(s.clone())),
        Json::Array(items) => {
            proof {
                lemma_trees(items@);
                lemma_printable_items(trees(items@));
                assert forall|k: int| 0 <= k < items@.len() implies (#[trigger] items@[k])@.printable() by {
                    assert(trees(items@)[k].printable());
                }
            }
            let mut out: Vec<serde_json::Value> = Vec::new();
            let mut i: usize = 0;
            while i < items.len()
                invariant
                    i <= items.len(),
                    out.len() == i,
                    *doc == Json::Array(*items),
                    forall|k: int| 0 <= k < items@.len() ==> (#[trigger] items@[k])@.printable(),
                    forall|k: int| 0 <= k < i ==> value_tree(#[trigger] out@[k]) == items@[k]@,
                decreases items.len() - i,
            {
                proof {
                    assert(doc->Array_0 == *items);
                    assert(decreases_to!(*doc => doc->Array_0));
                    assert(decreases_to!(*items => items[i as int]));
                }
                let child = lower(&items[i]);
                out.push(child);
                i += 1;
            }
            let parts = Parts::Array(out);
            assert(parts.tree()->Array_0 =~= trees(items@));
            close_value(parts)
        },
        Json::Object(members) => {
            proof {
                lemma_member_trees(members@);
                lemma_printable_members(member_trees(members@));
                assert forall|k: int| 0 <= k < members@.len() implies (#[trigger] members@[k]).1@.printable() by {
                    assert(member_trees(members@)[k].1.printable());
                }
            }
            let mut out: Vec<(String, serde_json::Value)> = Vec::new();
            let mut i: usize = 0;
            while i < members.len()
                invariant
                    i <= members.len(),
                    out.len() == i,
                    *doc == Json::Object(*members),
                    forall|k: int| 0 <= k < members@.len() ==> (#[trigger] members@[k]).1@.printable(),
                    forall|k: int|
                        0 <= k < i ==> (#[trigger] out@[k]).0@ == members@[k].0@ && value_tree(
                            out@[k].1,
                        ) == members@[k].1@,
                decreases members.len() - i,
            {
                proof {
                    assert(doc->Object_0 == *members);
                    assert(decreases_to!(*doc => doc->Object_0));
                    assert(decreases_to!(*members => members[i as int]));
                    assert(decreases_to!(members[i as int] => members[i as int].1));
                }
                let child = lower(&members[i].1);
                out.push((members[i].0.clone(), child));
                i += 1;
            }
            let parts = Parts::Object(out);
            assert(parts.tree()->Object_0 =~= member_trees(members@));
            assert(keys_distinct(member_trees(members@)));
            assert forall|a: int, b: int| 0 <= a < b < out@.len() implies out@[a].0@ != out@[b].0@ by {
                assert(member_trees(members@)[a].0 == out@[a].0@);
                assert(member_trees(members@)[b].0 == out@[b].0@);
            }
            close_value(parts)
        },
    }
}

impl Json {
    /// Reads a document from its text. A tree comes back exactly where the
    /// text is a document, and it is the tree that the text stands for.
    pub fn parse(text: &str) -> (doc: Option<Json>)
        ensures
            match doc {
                Some(d) => json_parsed(text@) == Some(d@),
                None => json_parsed(text@) is None,
            },
    {
        match read_value(text) {
            Some(value) => Some(lift(&value)),
            None => None,
        }
    }

    /// Writes a printable document as text, in the compact form.
    pub fn print(&self) -> (text: String)
        requires
            self@.printable(),
        ensures
            text@ == json_text(self@),
    {
        let value = lower(self);
        write_value(&value)
    }
}

} // verus!
