//! A JSON document as a tree of plain values.

use vstd::prelude::*;

use crate::text::str_eq;

verus! {

/// One node of a JSON document.
#[derive(Debug)]
pub enum JsonValue {
    Null,
    Bool(bool),
    /// A number, kept as its decimal text.
    Number(String),
    String(String),
    Array(Vec<JsonValue>),
    /// The members of an object, in the order in which the object hands them
    /// out. Where a key occurs more than once, the last occurrence counts.
    Object(Vec<(String, JsonValue)>),
}

/// The mathematical value of a [`JsonValue`].
pub ghost enum JsonModel {
    Null,
    Bool(bool),
    Number(Seq<char>),
    String(Seq<char>),
    Array(Seq<JsonModel>),
    Object(Seq<(Seq<char>, JsonModel)>),
}

/// The mathematical value of a node: that of each of its parts, in place.
pub open spec fn json_view(value: JsonValue) -> JsonModel
    decreases value,
{
    match value {
        JsonValue::Null => JsonModel::Null,
        JsonValue::Bool(b) => JsonModel::Bool(b),
        JsonValue::Number(n) => JsonModel::Number(n@),
        JsonValue::String(s) => JsonModel::String(s@),
        JsonValue::Array(items) => JsonModel::Array(
            Seq::new(
                items@.len(),
                |i: int|
                    if 0 <= i < items@.len() {
                        json_view(items@[i])
                    } else {
                        JsonModel::Null
                    },
            ),
        ),
        JsonValue::Object(members) => JsonModel::Object(
            Seq::new(
                members@.len(),
                |i: int|
                    if 0 <= i < members@.len() {
                        (members@[i].0@, json_view(members@[i].1))
                    } else {
                        (Seq::empty(), JsonModel::Null)
                    },
            ),
        ),
    }
}

impl View for JsonValue {
    type V = JsonModel;

    open spec fn view(&self) -> JsonModel {
        json_view(*self)
    }
}

/// The items of an array as the model sees them.
pub open spec fn items_view(items: Seq<JsonValue>) -> Seq<JsonModel> {
    Seq::new(
        items.len(),
        |i: int|
            if 0 <= i < items.len() {
                items[i]@
            } else {
                JsonModel::Null
            },
    )
}

/// The members of an object as the model sees them.
pub open spec fn members_view(members: Seq<(String, JsonValue)>) -> Seq<(Seq<char>, JsonModel)> {
    Seq::new(
        members.len(),
        |i: int|
            if 0 <= i < members.len() {
                (members[i].0@, members[i].1@)
            } else {
                (Seq::empty(), JsonModel::Null)
            },
    )
}

/// The value that an object holds under `key`: that of the last member with
/// this key.
pub open spec fn member_value(members: Seq<(Seq<char>, JsonModel)>, key: Seq<char>) -> Option<
    JsonModel,
>
    decreases members.len(),
{
    if members.len() == 0 {
        None
    } else if members.last().0 == key {
        Some(members.last().1)
    } else {
        member_value(members.drop_last(), key)
    }
}

/// What parsing `text` as one JSON document gives: the document, or the
/// parser's message where `text` is no such document.
pub uninterp spec fn json_document(text: Seq<char>) -> Result<JsonModel, Seq<char>>;

/// The tree that a parsed document of the outside parser holds.
pub uninterp spec fn json_tree(value: serde_json::Value) -> JsonModel;

/// `serde_json::Value`: a parsed document of the outside parser. Nothing is
/// known of what is inside one but through [`json_tree`].
#[verifier::external_type_specification]
#[verifier::external_body]
pub struct ExJsonTree(serde_json::Value);

/// Wraps `serde_json::from_str`, asked for a `serde_json::Value`: the outcome
/// is the document that the text holds, or the display text of the parser's
/// error.
#[verifier::external_body]
fn parse_tree(text: &str) -> (r: Result<serde_json::Value, String>)
    ensures
        match r {
            Ok(value) => json_document(text@) == Ok::<JsonModel, Seq<char>>(json_tree(value)),
            Err(msg) => json_document(text@) == Err::<JsonModel, Seq<char>>(msg@),
        },
{
    match serde_json::from_str::<serde_json::Value>(text) {
        Ok(value) => Ok(value),
        Err(e) => Err(e.to_string()),
    }
}

/// Moves a `serde_json::Value` into a [`JsonValue`], variant by variant: a
/// number becomes its display text, an object its members in the order of
/// `serde_json::Map::into_iter`.
#[verifier::external_body]
fn tree_into_value(value: serde_json::Value) -> (r: JsonValue)
    ensures
        r@ == json_tree(value),
{
    match value {
        serde_json::Value::Null => JsonValue::Null,
        serde_json::Value::Bool(b) => JsonValue::Bool(b),
        serde_json::Value::Number(n) => JsonValue::Number(n.to_string()),
        serde_json::Value::String(s) => JsonValue::String(s),
        serde_json::Value::Array(a) => JsonValue::Array(
            a.into_iter().map(tree_into_value).collect(),
        ),
        serde_json::Value::Object(m) => JsonValue::Object(
            m.into_iter().map(|(k, v)| (k, tree_into_value(v))).collect(),
        ),
    }
}

/// Parses one JSON document.
pub fn parse_json(text: &str) -> (r: Result<JsonValue, String>)
    ensures
        match r {
            Ok(value) => json_document(text@) == Ok::<JsonModel, Seq<char>>(value@),
            Err(msg) => json_document(text@) == Err::<JsonModel, Seq<char>>(msg@),
        },
{
    match parse_tree(text) {
        Ok(tree) => Ok(tree_into_value(tree)),
        Err(msg) => Err(msg),
    }
}

impl JsonValue {
    /// The text of a string node.
    pub fn as_str(&self) -> (r: Option<&str>)
        ensures
            match r {
                Some(s) => self@ == JsonModel::String(s@),
                None => !(self@ is String),
            },
    {
        match self {
            JsonValue::String(s) => Some(s.as_str()),
            _ => None,
        }
    }

    /// Whether this node is an array.
    pub fn is_array(&self) -> (r: bool)
        ensures
            r == (self@ is Array),
    {
        match self {
            JsonValue::Array(_) => true,
            _ => false,
        }
    }
}

/// The value that the members of an object hold under `key`.
pub fn get_member<'a>(members: &'a Vec<(String, JsonValue)>, key: &str) -> (r: Option<
    &'a JsonValue,
>)
    ensures
        match r {
            Some(v) => member_value(members_view(members@), key@) == Some(v@),
            None => member_value(members_view(members@), key@).is_none(),
        },
{
    let ghost all = members_view(members@);
    let mut i: usize = members.len();
    assert(all.take(i as int) =~= all);
    while i > 0
        invariant
            i <= members.len(),
            all == members_view(members@),
            member_value(all, key@) == member_value(all.take(i as int), key@),
        decreases i,
    {
        assert(all.take(i as int).drop_last() =~= all.take(i - 1));
        if str_eq(members[i - 1].0.as_str(), key) {
            return Some(&members[i - 1].1);
        }
        i -= 1;
    }
    None
}

/// The model of an array is that of its items, in order.
pub proof fn lemma_array_view(items: Vec<JsonValue>)
    ensures
        JsonValue::Array(items)@ == JsonModel::Array(items_view(items@)),
{
    assert(JsonValue::Array(items)@->Array_0 =~= items_view(items@));
}

/// The model of an object is that of its members, in order.
pub proof fn lemma_object_view(members: Vec<(String, JsonValue)>)
    ensures
        JsonValue::Object(members)@ == JsonModel::Object(members_view(members@)),
{
    assert(JsonValue::Object(members)@->Object_0 =~= members_view(members@));
}

} // verus!
