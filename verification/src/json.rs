//! The document tree that the schema is read from and written to.

use vstd::prelude::*;
use crate::error::SchemaError;
use crate::text::same_text;

verus! {

/// A document as a mathematical tree.
pub enum JsonValue {
    Null,
    Bool(bool),
    /// A number that is a whole number from 0 to 2^64 - 1.
    Unsigned(u64),
    /// Any other number. The schema has no field for one, so which number it
    /// is is not kept.
    OtherNumber,
    Text(Seq<char>),
    Array(Seq<JsonValue>),
    /// The members of an object, in their order.
    Object(Seq<(Seq<char>, JsonValue)>),
}

/// A document tree.
#[derive(Debug, PartialEq, Eq)]
pub enum Json {
    Null,
    Bool(bool),
    Unsigned(u64),
    OtherNumber,
    Text(String),
    Array(Vec<Json>),
    Object(Vec<(String, Json)>),
}

/// The trees of a sequence of documents, item by item.
pub open spec fn trees(items: Seq<Json>) -> Seq<JsonValue>
    decreases items, 0nat,
{
    if items.len() == 0 {
        Seq::empty()
    } else {
        trees(items.drop_last()).push(tree(items.last()))
    }
}

/// The members of an object as trees, member by member.
pub open spec fn member_trees(members: Seq<(String, Json)>) -> Seq<(Seq<char>, JsonValue)>
    decreases members, 0nat,
{
    if members.len() == 0 {
        Seq::empty()
    } else {
        member_trees(members.drop_last()).push((members.last().0@, tree(members.last().1)))
    }
}

/// The tree of a document.
pub open spec fn tree(doc: Json) -> JsonValue
    decreases doc, 1nat,
{
    match doc {
        Json::Null => JsonValue::Null,
        Json::Bool(b) => JsonValue::Bool(b),
        Json::Unsigned(n) => JsonValue::Unsigned(n),
        Json::OtherNumber => JsonValue::OtherNumber,
        Json::Text(s) => JsonValue::Text(s@),
        Json::Array(items) => JsonValue::Array(trees(items@)),
        Json::Object(members) => JsonValue::Object(member_trees(members@)),
    }
}

impl View for Json {
    type V = JsonValue;

    open spec fn view(&self) -> JsonValue {
        tree(*self)
    }
}

/// The trees of a sequence are as many as its items, and each is the tree of
/// the item at its place.
pub proof fn lemma_trees(items: Seq<Json>)
    ensures
        trees(items).len() == items.len(),
        forall|i: int| 0 <= i < items.len() ==> (#[trigger] trees(items)[i]) == items[i]@,
    decreases items.len(),
{
    if items.len() > 0 {
        lemma_trees(items.drop_last());
    }
}

/// The member trees of a sequence are as many as its members, and each holds
/// the key and the tree of the member at its place.
pub proof fn lemma_member_trees(members: Seq<(String, Json)>)
    ensures
        member_trees(members).len() == members.len(),
        forall|i: int|
            0 <= i < members.len() ==> (#[trigger] member_trees(members)[i]) == (
                members[i].0@,
                members[i].1@,
            ),
    decreases members.len(),
{
    if members.len() > 0 {
        lemma_member_trees(members.drop_last());
    }
}

/// The value of the first member with the given key, if any member has it.
pub open spec fn lookup(members: Seq<(Seq<char>, JsonValue)>, key: Seq<char>) -> Option<JsonValue>
    decreases members.len(),
{
    if members.len() == 0 {
        None
    } else if members[0].0 == key {
        Some(members[0].1)
    } else {
        lookup(members.skip(1), key)
    }
}

/// No two members have the same key.
pub open spec fn keys_distinct(members: Seq<(Seq<char>, JsonValue)>) -> bool {
    forall|i: int, j: int| 0 <= i < j < members.len() ==> members[i].0 != members[j].0
}

impl JsonValue {
    /// The member of an object under a key: a tree that is no object has the
    /// wrong shape, an object without the key lacks the field.
    pub open spec fn member(self, key: Seq<char>) -> Result<JsonValue, SchemaError> {
        match self {
            JsonValue::Object(members) => match lookup(members, key) {
                Some(value) => Ok(value),
                None => Err(SchemaError::MissingField),
            },
            _ => Err(SchemaError::TypeMismatch),
        }
    }

    /// The characters of a text.
    pub open spec fn as_text(self) -> Result<Seq<char>, SchemaError> {
        match self {
            JsonValue::Text(s) => Ok(s),
            _ => Err(SchemaError::TypeMismatch),
        }
    }

    /// The truth value of a boolean.
    pub open spec fn as_bool(self) -> Result<bool, SchemaError> {
        match self {
            JsonValue::Bool(b) => Ok(b),
            _ => Err(SchemaError::TypeMismatch),
        }
    }

    /// The value of a whole number that fits in 32 bits.
    pub open spec fn as_u32(self) -> Result<u32, SchemaError> {
        match self {
            JsonValue::Unsigned(n) if n <= u32::MAX => Ok(n as u32),
            _ => Err(SchemaError::TypeMismatch),
        }
    }

    /// The items of an array.
    pub open spec fn as_items(self) -> Result<Seq<JsonValue>, SchemaError> {
        match self {
            JsonValue::Array(items) => Ok(items),
            _ => Err(SchemaError::TypeMismatch),
        }
    }

    /// The text of the member under a key.
    pub open spec fn text_at(self, key: Seq<char>) -> Result<Seq<char>, SchemaError> {
        match self.member(key) {
            Ok(value) => value.as_text(),
            Err(e) => Err(e),
        }
    }

    /// The truth value of the member under a key.
    pub open spec fn bool_at(self, key: Seq<char>) -> Result<bool, SchemaError> {
        match self.member(key) {
            Ok(value) => value.as_bool(),
            Err(e) => Err(e),
        }
    }

    /// The number of the member under a key.
    pub open spec fn u32_at(self, key: Seq<char>) -> Result<u32, SchemaError> {
        match self.member(key) {
            Ok(value) => value.as_u32(),
            Err(e) => Err(e),
        }
    }

    /// The items of the member under a key.
    pub open spec fn items_at(self, key: Seq<char>) -> Result<Seq<JsonValue>, SchemaError> {
        match self.member(key) {
            Ok(value) => value.as_items(),
            Err(e) => Err(e),
        }
    }

    /// A tree that can be written as text and read again as the same tree:
    /// every number in it is known, and no object in it has a key twice.
    pub open spec fn printable(self) -> bool {
        all_printable(self)
    }
}

/// Every number in the tree is known, and no object in it has a key twice.
pub open spec fn all_printable(doc: JsonValue) -> bool
    decreases doc,
{
    match doc {
        JsonValue::OtherNumber => false,
        JsonValue::Array(items) => forall|i: int|
            #![trigger items[i]]
            0 <= i < items.len() ==> all_printable(items[i]),
        JsonValue::Object(members) => keys_distinct(members) && forall|i: int|
            #![trigger members[i]]
            0 <= i < members.len() ==> all_printable(members[i].1),
        _ => true,
    }
}

impl Json {
    /// The member of an object under a key.
    pub fn member(&self, key: &str) -> (found: Result<&Json, SchemaError>)
        ensures
            match found {
                Ok(value) => self@.member(key@) == Ok::<JsonValue, SchemaError>(value@),
                Err(e) => self@.member(key@) == Err::<JsonValue, SchemaError>(e),
            },
    {
        match self {
            Json::Object(members) => {
                proof {
                    lemma_member_trees(members@);
                }
                let ghost all = member_trees(members@);
                let mut i: usize = 0;
                assert(all.skip(0) =~= all);
                while i < members.len()
                    invariant
                        i <= members.len(),
                        self@ == JsonValue::Object(all),
                        all.len() == members@.len(),
                        forall|k: int|
                            0 <= k < all.len() ==> (#[trigger] all[k]) == (
                                members@[k].0@,
                                members@[k].1@,
                            ),
                        lookup(all, key@) == lookup(all.skip(i as int), key@),
                    decreases members.len() - i,
                {
                    let ghost rest = all.skip(i as int);
                    assert(rest[0] == all[i as int]);
                    assert(rest.skip(1) =~= all.skip(i + 1));
                    if same_text(members[i].0.as_str(), key) {
                        return Ok(&members[i].1);
                    }
                    i += 1;
                }
                Err(SchemaError::MissingField)
            },
            _ => Err(SchemaError::TypeMismatch),
        }
    }

    /// The characters of a text.
    pub fn as_text(&self) -> (found: Result<&str, SchemaError>)
        ensures
            match found {
                Ok(s) => self@.as_text() == Ok::<Seq<char>, SchemaError>(s@),
                Err(e) => self@.as_text() == Err::<Seq<char>, SchemaError>(e),
            },
    {
        match self {
            Json::Text(s) => Ok(s.as_str()),
            _ => Err(SchemaError::TypeMismatch),
        }
    }

    /// The truth value of a boolean.
    pub fn as_bool(&self) -> (found: Result<bool, SchemaError>)
        ensures
            found == self@.as_bool(),
    {
        match self {
            Json::Bool(b) => Ok(*b),
            _ => Err(SchemaError::TypeMismatch),
        }
    }

    /// The value of a whole number that fits in 32 bits.
    pub fn as_u32(&self) -> (found: Result<u32, SchemaError>)
        ensures
            found == self@.as_u32(),
    {
        match self {
            Json::Unsigned(n) => {
                if *n <= 0xffff_ffff {
                    Ok(*n as u32)
                } else {
                    Err(SchemaError::TypeMismatch)
                }
            },
            _ => Err(SchemaError::TypeMismatch),
        }
    }

    /// The items of an array.
    pub fn as_items(&self) -> (found: Result<&Vec<Json>, SchemaError>)
        ensures
            match found {
                Ok(items) => self@.as_items() == Ok::<Seq<JsonValue>, SchemaError>(trees(items@)),
                Err(e) => self@.as_items() == Err::<Seq<JsonValue>, SchemaError>(e),
            },
    {
        match self {
            Json::Array(items) => {
                Ok(items)
            },
            _ => Err(SchemaError::TypeMismatch),
        }
    }

    /// The text of the member under a key.
    pub fn text_at(&self, key: &str) -> (found: Result<&str, SchemaError>)
        ensures
            match found {
                Ok(s) => self@.text_at(key@) == Ok::<Seq<char>, SchemaError>(s@),
                Err(e) => self@.text_at(key@) == Err::<Seq<char>, SchemaError>(e),
            },
    {
        match self.member(key) {
            Ok(value) => value.as_text(),
            Err(e) => Err(e),
        }
    }

    /// The truth value of the member under a key.
    pub fn bool_at(&self, key: &str) -> (found: Result<bool, SchemaError>)
        ensures
            found == self@.bool_at(key@),
    {
        match self.member(key) {
            Ok(value) => value.as_bool(),
            Err(e) => Err(e),
        }
    }

    /// The number of the member under a key.
    pub fn u32_at(&self, key: &str) -> (found: Result<u32, SchemaError>)
        ensures
            found == self@.u32_at(key@),
    {
        match self.member(key) {
            Ok(value) => value.as_u32(),
            Err(e) => Err(e),
        }
    }

    /// The items of the member under a key.
    pub fn items_at(&self, key: &str) -> (found: Result<&Vec<Json>, SchemaError>)
        ensures
            match found {
                Ok(items) => self@.items_at(key@) == Ok::<Seq<JsonValue>, SchemaError>(
                    trees(items@),
                ),
                Err(e) => self@.items_at(key@) == Err::<Seq<JsonValue>, SchemaError>(e),
            },
    {
        match self.member(key) {
            Ok(value) => value.as_items(),
            Err(e) => Err(e),
        }
    }
}

/// Among members whose keys differ, looking up the key of a member finds
/// that member's value.
pub proof fn lemma_lookup(members: Seq<(Seq<char>, JsonValue)>, i: int)
    requires
        0 <= i < members.len(),
        keys_distinct(members),
    ensures
        lookup(members, members[i].0) == Some(members[i].1),
    decreases i,
{
    if i > 0 {
        let rest = members.skip(1);
        assert(rest[i - 1] == members[i]);
        assert(keys_distinct(rest)) by {
            assert forall|a: int, b: int| 0 <= a < b < rest.len() implies rest[a].0 != rest[b].0 by {
                assert(rest[a] == members[a + 1]);
                assert(rest[b] == members[b + 1]);
            }
        }
        lemma_lookup(rest, i - 1);
    }
}

/// What it means for an array to be printable.
pub proof fn lemma_printable_items(items: Seq<JsonValue>)
    ensures
        JsonValue::Array(items).printable() <==> forall|i: int|
            #![trigger items[i]]
            0 <= i < items.len() ==> items[i].printable(),
{
    let whole = JsonValue::Array(items);
    if whole.printable() {
        assert(all_printable(whole));
        assert(whole->Array_0 == items);
        assert forall|i: int| 0 <= i < items.len() implies all_printable(#[trigger] items[i]) by {
            assert(all_printable(whole->Array_0[i]));
        }
    }
    if forall|i: int| #![trigger items[i]] 0 <= i < items.len() ==> items[i].printable() {
        assert forall|i: int| 0 <= i < whole->Array_0.len() implies all_printable(#[trigger] whole->Array_0[i]) by {
            assert(items[i].printable());
        }
        assert(all_printable(whole));
    }
}

/// What it means for an object to be printable.
pub proof fn lemma_printable_members(members: Seq<(Seq<char>, JsonValue)>)
    ensures
        JsonValue::Object(members).printable() <==> keys_distinct(members) && forall|i: int|
            #![trigger members[i]]
            0 <= i < members.len() ==> members[i].1.printable(),
{
}

} // verus!
