//! JSON documents as plain values.
//!
//! The service speaks JSON in both directions. A document is held here as a
//! tree of plain values, so that the rules which read a response or build a
//! request body can be stated over its mathematical view and proved. In the
//! view an object is a map from names to values.

use vstd::prelude::*;

verus! {

/// `serde_json::Number`, carried through unread: no rule of this library looks
/// inside a number.
#[verifier::external_type_specification]
#[verifier::external_body]
pub struct ExNumber(serde_json::Number);

/// A JSON document.
///
/// An object keeps its members as a list of name and value pairs. Where a
/// name occurs more than once, the last occurrence is the one that counts.
#[derive(Debug, PartialEq)]
pub enum Json {
    Null,
    Bool(bool),
    Number(serde_json::Number),
    String(String),
    Array(Vec<Json>),
    Object(Vec<(String, Json)>),
}

/// The mathematical value of a [`Json`] document. An object is a map from
/// names to values.
pub enum JsonView {
    Null,
    Bool(bool),
    Number(serde_json::Number),
    String(Seq<char>),
    Array(Seq<JsonView>),
    Object(Map<Seq<char>, JsonView>),
}

/// What a map gives to `key`.
pub open spec fn entry(members: Map<Seq<char>, JsonView>, key: Seq<char>) -> Option<JsonView> {
    if members.contains_key(key) {
        Some(members[key])
    } else {
        None
    }
}

impl JsonView {
    /// The member `key` of an object; `None` for a missing member and for
    /// every document that is no object.
    pub open spec fn field(self, key: Seq<char>) -> Option<JsonView> {
        match self {
            JsonView::Object(members) => entry(members, key),
            _ => None,
        }
    }

    /// The text of a string document.
    pub open spec fn text(self) -> Option<Seq<char>> {
        match self {
            JsonView::String(s) => Some(s),
            _ => None,
        }
    }

    /// The text of the member `key`, where that member is a string.
    pub open spec fn text_field(self, key: Seq<char>) -> Option<Seq<char>> {
        match self.field(key) {
            Some(value) => value.text(),
            None => None,
        }
    }
}

/// The value of a document.
pub open spec fn value_of(doc: Json) -> JsonView
    decreases doc,
{
    match doc {
        Json::Null => JsonView::Null,
        Json::Bool(b) => JsonView::Bool(b),
        Json::Number(n) => JsonView::Number(n),
        Json::String(s) => JsonView::String(s@),
        Json::Array(items) => JsonView::Array(items_of(items@)),
        Json::Object(members) => JsonView::Object(members_of(members@)),
    }
}

/// The values of a list of items, in their order.
pub open spec fn items_of(items: Seq<Json>) -> Seq<JsonView>
    decreases items,
{
    if items.len() == 0 {
        Seq::empty()
    } else {
        items_of(items.drop_last()).push(value_of(items.last()))
    }
}

/// The map that a list of members stands for: every member in its turn gives
/// its name its value, so that a later member of the same name wins.
pub open spec fn members_of(members: Seq<(String, Json)>) -> Map<Seq<char>, JsonView>
    decreases members,
{
    if members.len() == 0 {
        Map::empty()
    } else {
        members_of(members.drop_last()).insert(members.last().0@, value_of(members.last().1))
    }
}

impl View for Json {
    type V = JsonView;

    open spec fn view(&self) -> JsonView {
        value_of(*self)
    }
}

/// The value of a document that may be missing.
pub open spec fn json_of(doc: Option<&Json>) -> Option<JsonView> {
    match doc {
        Some(doc) => Some(doc@),
        None => None,
    }
}

/// A list of items that grows by one item grows by that item's value.
pub proof fn lemma_items_push(items: Seq<Json>, item: Json)
    ensures
        items_of(items.push(item)) == items_of(items).push(item@),
{
    assert(items.push(item).drop_last() =~= items);
}

/// The values of a list of items are as many as the items, each in the place
/// of its item.
pub proof fn lemma_items_of(items: Seq<Json>)
    ensures
        items_of(items).len() == items.len(),
        forall|i: int| 0 <= i < items.len() ==> (#[trigger] items_of(items)[i]) == items[i]@,
    decreases items.len(),
{
    if items.len() > 0 {
        lemma_items_of(items.drop_last());
    }
}

/// A list of members that grows by one member gives that member's name its
/// value and leaves the other names as they were.
pub proof fn lemma_members_push(members: Seq<(String, Json)>, name: String, value: Json)
    ensures
        members_of(members.push((name, value))) == members_of(members).insert(name@, value@),
{
    assert(members.push((name, value)).drop_last() =~= members);
}

/// Looking a name up in the first `n + 1` members either finds it in member
/// `n` or goes on in the first `n`.
proof fn lemma_entry_prefix(members: Seq<(String, Json)>, key: Seq<char>, n: int)
    requires
        0 <= n < members.len(),
    ensures
        entry(members_of(members.subrange(0, n + 1)), key) == if members[n].0@ == key {
            Some(members[n].1@)
        } else {
            entry(members_of(members.subrange(0, n)), key)
        },
{
    let longer = members.subrange(0, n + 1);
    assert(longer.last() == members[n]);
    assert(longer.drop_last() =~= members.subrange(0, n));
}

/// Adds the member `name` with the value `value` at the end of a list of
/// members: the name now has that value, whatever it had before.
pub fn push_member(members: &mut Vec<(String, Json)>, name: &str, value: Json)
    ensures
        final(members)@.len() == old(members)@.len() + 1,
        final(members)@.drop_last() == old(members)@,
        final(members)@.last().0@ == name@,
        final(members)@.last().1 == value,
        members_of(final(members)@) == members_of(old(members)@).insert(name@, value@),
{
    let owned = name.to_owned();
    proof {
        lemma_members_push(members@, owned, value);
    }
    members.push((owned, value));
}

impl Json {
    /// A string document with the text of `text`.
    pub fn string(text: &str) -> (doc: Json)
        ensures
            doc@ == JsonView::String(text@),
    {
        Json::String(text.to_owned())
    }

    /// The member `key` of an object.
    pub fn get(&self, key: &str) -> (found: Option<&Json>)
        ensures
            json_of(found) == self@.field(key@),
    {
        match self {
            Json::Object(members) => {
                let wanted = key.to_owned();
                proof {
                    assert(members@.subrange(0, members@.len() as int) =~= members@);
                }
                let mut i: usize = members.len();
                while i > 0
                    invariant
                        i <= members.len(),
                        wanted@ == key@,
                        self@ == JsonView::Object(members_of(members@)),
                        self@.field(key@) == entry(
                            members_of(members@.subrange(0, i as int)),
                            key@,
                        ),
                    decreases i,
                {
                    i = i - 1;
                    proof {
                        lemma_entry_prefix(members@, key@, i as int);
                    }
                    if members[i].0 == wanted {
                        return Some(&members[i].1);
                    }
                }
                None
            },
            _ => None,
        }
    }

    /// Takes the member `key` out of an object. Where there is none, the
    /// document comes back as it was.
    pub fn take(self, key: &str) -> (outcome: Result<Json, Json>)
        ensures
            match outcome {
                Ok(value) => self@.field(key@) == Some(value@),
                Err(doc) => self@.field(key@) is None && doc == self,
            },
    {
        match self {
            Json::Object(members) => {
                let mut members = members;
                let wanted = key.to_owned();
                proof {
                    assert(members@.subrange(0, members@.len() as int) =~= members@);
                }
                let mut i: usize = members.len();
                while i > 0
                    invariant
                        i <= members.len(),
                        wanted@ == key@,
                        self == Json::Object(members),
                        self@.field(key@) == entry(
                            members_of(members@.subrange(0, i as int)),
                            key@,
                        ),
                    decreases i,
                {
                    i = i - 1;
                    proof {
                        lemma_entry_prefix(members@, key@, i as int);
                    }
                    if members[i].0 == wanted {
                        let member = members.swap_remove(i);
                        return Ok(member.1);
                    }
                }
                Err(Json::Object(members))
            },
            other => Err(other),
        }
    }

    /// The text of a string document.
    pub fn as_str(&self) -> (text: Option<&str>)
        ensures
            match text {
                Some(s) => self@.text() == Some(s@),
                None => self@.text() is None,
            },
    {
        match self {
            Json::String(s) => Some(s.as_str()),
            _ => None,
        }
    }

    /// The items of an array document.
    pub fn as_array(&self) -> (items: Option<&Vec<Json>>)
        ensures
            match items {
                Some(list) => self@ == JsonView::Array(items_of(list@)),
                None => !(self@ is Array),
            },
    {
        match self {
            Json::Array(items) => Some(items),
            _ => None,
        }
    }

    /// Whether the document is `null`.
    pub fn is_null(&self) -> (null: bool)
        ensures
            null == (self@ is Null),
    {
        match self {
            Json::Null => true,
            _ => false,
        }
    }
}

} // verus!
