//! The members of JSON documents.

use crate::text::{same_text, Text};
use serde_json::Value;
use vstd::prelude::*;

verus! {

/// The value of a member of a JSON object, as far as the client looks into it.
#[derive(Debug)]
pub enum JsonMember<T> {
    Null,
    Bool(bool),
    /// A number, with its value where that is an `i64`.
    Number(Option<i64>),
    Text(T),
    /// An array of so many elements.
    Array(usize),
    Object,
}

/// A member of a JSON object: its value, and the JSON that it is written in.
#[derive(Debug)]
pub struct JsonField<T> {
    pub value: JsonMember<T>,
    pub json: T,
}

/// The members of a JSON document, by their keys; a document that is no object has none.
pub type Fields = Map<Text, JsonField<Text>>;

impl View for JsonMember<String> {
    type V = JsonMember<Text>;

    open spec fn view(&self) -> JsonMember<Text> {
        match *self {
            JsonMember::Null => JsonMember::Null,
            JsonMember::Bool(b) => JsonMember::Bool(b),
            JsonMember::Number(n) => JsonMember::Number(n),
            JsonMember::Text(text) => JsonMember::Text(text@),
            JsonMember::Array(len) => JsonMember::Array(len),
            JsonMember::Object => JsonMember::Object,
        }
    }
}

impl View for JsonField<String> {
    type V = JsonField<Text>;

    open spec fn view(&self) -> JsonField<Text> {
        JsonField { value: self.value@, json: self.json@ }
    }
}

/// The members that a list of keys and members stands for.
pub open spec fn fields(list: Seq<(String, JsonField<String>)>) -> Fields
    decreases list.len(),
{
    if list.len() == 0 {
        Map::empty()
    } else {
        fields(list.drop_last()).insert(list.last().0@, list.last().1@)
    }
}

/// A document as contracts see it: its members, or the words of the parser's error.
pub open spec fn document_view(
    res: Result<Vec<(String, JsonField<String>)>, String>,
) -> Result<Fields, Text> {
    match res {
        Ok(list) => Ok(fields(list@)),
        Err(text) => Err(text@),
    }
}

/// The value of the member under `key`, if there is one.
pub open spec fn value_of(fields: Fields, key: Text) -> Option<JsonMember<Text>> {
    if fields.dom().contains(key) {
        Some(fields[key].value)
    } else {
        None
    }
}

/// The JSON of the member under `key`, if there is one.
pub open spec fn json_of(fields: Fields, key: Text) -> Option<Text> {
    if fields.dom().contains(key) {
        Some(fields[key].json)
    } else {
        None
    }
}

/// The members of the JSON document in `bytes`, as `serde_json::from_slice` reads it; or the words
/// of the parser's error.
pub uninterp spec fn json_bytes_fields(bytes: Seq<u8>) -> Result<
    Map<Seq<char>, JsonField<Seq<char>>>,
    Seq<char>,
>;

/// The members of the JSON document `text`, as `serde_json::from_str` reads it; or the words of
/// the parser's error.
pub uninterp spec fn json_text_fields(text: Seq<char>) -> Result<
    Map<Seq<char>, JsonField<Seq<char>>>,
    Seq<char>,
>;

/// Calls `serde_json::from_slice` for a `serde_json::Value`, and lists its members. The result
/// depends on the document alone, and is named `json_bytes_fields`; the grammar of JSON is not
/// repeated here.
#[verifier::external_body]
pub(crate) fn parse_bytes(bytes: &[u8]) -> (res: Result<
    Vec<(String, JsonField<String>)>,
    String,
>)
    ensures
        document_view(res) == json_bytes_fields(bytes@),
{
    let document: Value = serde_json::from_slice(bytes).map_err(|e| e.to_string())?;
    let members = document.as_object().into_iter().flatten();
    Ok(members.map(|(key, member)| (key.clone(), JsonField {
        value: match member {
            Value::Null => JsonMember::Null,
            Value::Bool(b) => JsonMember::Bool(*b),
            Value::Number(n) => JsonMember::Number(n.as_i64()),
            Value::String(s) => JsonMember::Text(s.clone()),
            Value::Array(a) => JsonMember::Array(a.len()),
            Value::Object(_) => JsonMember::Object,
        },
        json: member.to_string(),
    })).collect())
}

/// Calls `serde_json::from_str` for a `serde_json::Value`, and lists its members. The result
/// depends on the document alone, and is named `json_text_fields`; the grammar of JSON is not
/// repeated here.
#[verifier::external_body]
pub(crate) fn parse_text(text: &str) -> (res: Result<Vec<(String, JsonField<String>)>, String>)
    ensures
        document_view(res) == json_text_fields(text@),
{
    let document: Value = serde_json::from_str(text).map_err(|e| e.to_string())?;
    let members = document.as_object().into_iter().flatten();
    Ok(members.map(|(key, member)| (key.clone(), JsonField {
        value: match member {
            Value::Null => JsonMember::Null,
            Value::Bool(b) => JsonMember::Bool(*b),
            Value::Number(n) => JsonMember::Number(n.as_i64()),
            Value::String(s) => JsonMember::Text(s.clone()),
            Value::Array(a) => JsonMember::Array(a.len()),
            Value::Object(_) => JsonMember::Object,
        },
        json: member.to_string(),
    })).collect())
}

/// Looks a member up by its key.
pub fn find<'a>(list: &'a Vec<(String, JsonField<String>)>, key: &str) -> (res: Option<
    &'a JsonField<String>,
>)
    ensures
        match res {
            Some(field) => fields(list@).dom().contains(key@) && field@ == fields(list@)[key@],
            None => !fields(list@).dom().contains(key@),
        },
{
    let mut i: usize = list.len();
    assert(list@.take(i as int) =~= list@);
    while i > 0
        invariant
            i <= list.len(),
            fields(list@).dom().contains(key@) <==> fields(list@.take(i as int)).dom().contains(
                key@,
            ),
            fields(list@)[key@] == fields(list@.take(i as int))[key@],
        decreases i,
    {
        assert(list@.take(i as int).drop_last() =~= list@.take(i - 1));
        i = i - 1;
        if same_text(list[i].0.as_str(), key) {
            return Some(&list[i].1);
        }
    }
    None
}

/// Looks the value of a member up by its key.
pub fn find_value<'a>(list: &'a Vec<(String, JsonField<String>)>, key: &str) -> (res: Option<
    &'a JsonMember<String>,
>)
    ensures
        member_view(res) == value_of(fields(list@), key@),
{
    match find(list, key) {
        Some(field) => Some(&field.value),
        None => None,
    }
}

/// The member in an option, as contracts see it.
pub open spec fn member_view(member: Option<&JsonMember<String>>) -> Option<JsonMember<Text>> {
    match member {
        Some(m) => Some(m@),
        None => None,
    }
}

/// Of members with the same key the last one counts, and a key that no member has is not found.
pub proof fn law_last_member_counts(
    list: Seq<(String, JsonField<String>)>,
    key: Text,
    at: int,
)
    ensures
        (0 <= at < list.len() && list[at].0@ == key && forall|i: int|
            at < i < list.len() ==> (#[trigger] list[i]).0@ != key) ==> value_of(fields(list), key)
            == Some(list[at].1.value@) && json_of(fields(list), key) == Some(list[at].1.json@),
        (forall|i: int| 0 <= i < list.len() ==> (#[trigger] list[i]).0@ != key) ==> value_of(
            fields(list),
            key,
        ) is None && json_of(fields(list), key) is None,
    decreases list.len(),
{
    if list.len() > 0 {
        let rest = list.drop_last();
        law_last_member_counts(rest, key, at);
        assert(forall|i: int| 0 <= i < rest.len() ==> rest[i] == #[trigger] list[i]);
        assert(list.last() == list[list.len() - 1]);
    }
}


} // verus!
