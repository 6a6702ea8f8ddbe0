//! JSON documents, as `serde_json` reads and writes them.
//!
//! Parsing and quoting are `serde_json`'s work, and a parsed document stays a
//! `serde_json::Value`. What the client's rules need to know of a document is
//! stated over [`Json`], the mathematical tree that a value stands for.

use vstd::prelude::*;

verus! {

#[verifier::external_type_specification]
#[verifier::external_body]
pub struct ExValue(serde_json::Value);

#[verifier::external_type_specification]
#[verifier::external_body]
pub struct ExJsonError(serde_json::Error);

/// The tree that a JSON document stands for. The members of an object come in
/// the order in which `serde_json` walks them. A number's value is left out:
/// no rule of the client reads one.
pub enum Json {
    Null,
    Bool(bool),
    Number,
    Text(Seq<char>),
    Array(Seq<Json>),
    Object(Seq<(Seq<char>, Json)>),
}

/// The first member stored under `key` among `members`.
pub open spec fn first_member(members: Seq<(Seq<char>, Json)>, key: Seq<char>) -> Option<Json>
    decreases members.len(),
{
    if members.len() == 0 {
        None
    } else if members[0].0 == key {
        Some(members[0].1)
    } else {
        first_member(members.drop_first(), key)
    }
}

impl Json {
    /// The member of an object stored under `key`; `None` for anything that is
    /// not an object or has no such member.
    pub open spec fn member(self, key: Seq<char>) -> Option<Json> {
        match self {
            Json::Object(members) => first_member(members, key),
            _ => None,
        }
    }

    /// The text of a JSON string; `None` for anything else.
    pub open spec fn text(self) -> Option<Seq<char>> {
        match self {
            Json::Text(text) => Some(text),
            _ => None,
        }
    }

    /// The text stored under `key` in an object, where that member is a JSON
    /// string.
    pub open spec fn text_member(self, key: Seq<char>) -> Option<Seq<char>> {
        match self.member(key) {
            Some(inner) => inner.text(),
            None => None,
        }
    }
}

/// The tree that a parsed value stands for.
pub uninterp spec fn json_model(value: serde_json::Value) -> Json;

/// What `serde_json` makes of a text: the tree of the document that it reads,
/// or `None` where it refuses the text.
pub uninterp spec fn json_parse(text: Seq<char>) -> Option<Json>;

/// The JSON string literal that `serde_json` writes for a text, with its
/// quotes and escapes.
pub uninterp spec fn json_quoted(text: Seq<char>) -> Seq<char>;

/// The trees of a list of values, in order.
pub open spec fn models_of(values: Seq<serde_json::Value>) -> Seq<Json> {
    values.map_values(|value: serde_json::Value| json_model(value))
}

/// The members that a list of borrowed entries stands for, in order.
pub open spec fn members_of(entries: Seq<(&String, &serde_json::Value)>) -> Seq<(Seq<char>, Json)> {
    entries.map_values(|entry: (&String, &serde_json::Value)| (entry.0@, json_model(*entry.1)))
}

/// `serde_json::from_str`, read at `serde_json::Value`. Whether it succeeds
/// depends on the text alone; the value that it gives stands for the tree that
/// [`json_parse`] names, and it fails exactly where [`json_parse`] names none.
#[verifier::external_body]
pub(crate) fn parse_value(text: &str) -> (parsed: Result<serde_json::Value, serde_json::Error>)
    ensures
        match parsed {
            Ok(value) => json_parse(text@) == Some(json_model(value)),
            Err(_) => json_parse(text@) is None,
        },
{
    serde_json::from_str::<serde_json::Value>(text)
}

/// `serde_json::Value::get` with a string index: the member of an object
/// stored under `key`, and `None` for a missing key or a value that is no
/// object.
#[verifier::external_body]
pub(crate) fn value_get<'a>(value: &'a serde_json::Value, key: &str) -> (found: Option<
    &'a serde_json::Value,
>)
    ensures
        match found {
            Some(inner) => json_model(*value).member(key@) == Some(json_model(*inner)),
            None => json_model(*value).member(key@) is None,
        },
{
    value.get(key)
}

/// `serde_json::Value::as_str`: the text of a JSON string, and `None` for any
/// other value.
#[verifier::external_body]
pub(crate) fn value_as_str<'a>(value: &'a serde_json::Value) -> (text: Option<&'a str>)
    ensures
        match text {
            Some(chars) => json_model(*value) == Json::Text(chars@),
            None => !(json_model(*value) is Text),
        },
{
    value.as_str()
}

/// `serde_json::Value::as_array`: the items of a JSON array, and `None` for
/// any other value.
#[verifier::external_body]
pub(crate) fn value_as_array<'a>(value: &'a serde_json::Value) -> (items: Option<
    &'a Vec<serde_json::Value>,
>)
    ensures
        match items {
            Some(list) => json_model(*value) == Json::Array(models_of(list@)),
            None => !(json_model(*value) is Array),
        },
{
    value.as_array()
}

/// `serde_json::Value::as_object` and `serde_json::Map::iter`: the members of
/// a JSON object in the order in which the map yields them, and `None` for any
/// other value.
#[verifier::external_body]
pub(crate) fn value_entries<'a>(value: &'a serde_json::Value) -> (entries: Option<
    Vec<(&'a String, &'a serde_json::Value)>,
>)
    ensures
        match entries {
            Some(list) => json_model(*value) == Json::Object(members_of(list@)),
            None => !(json_model(*value) is Object),
        },
{
    value.as_object().map(|object| object.iter().collect())
}

/// `serde_json`'s rendering of `serde_json::Value::String`: the JSON string
/// literal for `text`.
#[verifier::external_body]
pub(crate) fn quoted(text: &str) -> (literal: String)
    ensures
        literal@ == json_quoted(text@),
{
    serde_json::Value::String(text.to_owned()).to_string()
}

/// The text stored under `key` in an object, where that member is a JSON
/// string; `None` otherwise.
pub fn text_member(value: &serde_json::Value, key: &str) -> (text: Option<String>)
    ensures
        match text {
            Some(chars) => json_model(*value).text_member(key@) == Some(chars@),
            None => json_model(*value).text_member(key@) is None,
        },
{
    match value_get(value, key) {
        Some(inner) => match value_as_str(inner) {
            Some(chars) => Some(chars.to_owned()),
            None => None,
        },
        None => None,
    }
}

} // verus!
