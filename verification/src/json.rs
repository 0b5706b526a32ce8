//! A JSON document as plain values, and reading it.
use vstd::prelude::*;

use crate::text::str_equal;

verus! {

/// A JSON number: the text that `Display` writes for it, and its value
/// where it is a non-negative integer that fits in `u64`.
#[derive(Debug, PartialEq)]
pub struct JsonNumber {
    pub text: String,
    pub unsigned: Option<u64>,
}

/// A JSON document. Object members keep the order in which the parser
/// hands them out.
#[derive(Debug, PartialEq)]
pub enum JsonValue {
    Null,
    Bool(bool),
    Number(JsonNumber),
    Text(String),
    Array(Vec<JsonValue>),
    Object(Vec<(String, JsonValue)>),
}

#[verifier::external_type_specification]
#[verifier::external_body]
pub struct ExSerdeJsonValue(serde_json::Value);

/// What `serde_json` makes of `text`: the document, or the text of its error.
pub uninterp spec fn serde_json_document(text: Seq<char>) -> Result<JsonValue, Seq<char>>;

/// Parses `text` as JSON.
/// Calls `serde_json::from_str::<serde_json::Value>`; the contract claims no
/// more than that the outcome is a function of `text` (the document, taken
/// over one for one, or the error's message).
#[verifier::external_body]
pub(crate) fn parse_json(text: &str) -> (r: Result<JsonValue, String>)
    ensures
        match r {
            Ok(v) => serde_json_document(text@) == Ok::<JsonValue, Seq<char>>(v),
            Err(e) => serde_json_document(text@) == Err::<JsonValue, Seq<char>>(e@),
        },
{
    match serde_json::from_str::<serde_json::Value>(text) {
        Ok(value) => Ok(from_serde(value)),
        Err(err) => Err(err.to_string()),
    }
}

/// Takes a `serde_json::Value` over into a `JsonValue`, variant by variant.
#[verifier::external_body]
fn from_serde(value: serde_json::Value) -> JsonValue {
    match value {
        serde_json::Value::Null => JsonValue::Null,
        serde_json::Value::Bool(b) => JsonValue::Bool(b),
        serde_json::Value::Number(n) => JsonValue::Number(
            JsonNumber { text: n.to_string(), unsigned: n.as_u64() },
        ),
        serde_json::Value::String(s) => JsonValue::Text(s),
        serde_json::Value::Array(items) => JsonValue::Array(items.into_iter().map(from_serde).collect()),
        serde_json::Value::Object(map) => JsonValue::Object(
            map.into_iter().map(|(k, v)| (k, from_serde(v))).collect(),
        ),
    }
}

/// The value of the first member named `key` among `entries[i..]`.
pub open spec fn lookup_from(entries: Seq<(String, JsonValue)>, key: Seq<char>, i: int) -> Option<
    JsonValue,
>
    decreases entries.len() - i,
{
    if i < 0 || i >= entries.len() {
        None
    } else if entries[i].0@ == key {
        Some(entries[i].1)
    } else {
        lookup_from(entries, key, i + 1)
    }
}

/// The member `key` of `v`, where `v` is an object that has one.
pub open spec fn obj_get(v: JsonValue, key: Seq<char>) -> Option<JsonValue> {
    match v {
        JsonValue::Object(entries) => lookup_from(entries@, key, 0),
        _ => None,
    }
}

/// `o.get(key)`, for an optional value.
pub open spec fn opt_get(o: Option<JsonValue>, key: Seq<char>) -> Option<JsonValue> {
    match o {
        Some(v) => obj_get(v, key),
        None => None,
    }
}

/// The text of a string value.
pub open spec fn as_text(o: Option<JsonValue>) -> Option<Seq<char>> {
    match o {
        Some(JsonValue::Text(s)) => Some(s@),
        _ => None,
    }
}

/// The items of an array value.
pub open spec fn as_items(o: Option<JsonValue>) -> Option<Seq<JsonValue>> {
    match o {
        Some(JsonValue::Array(items)) => Some(items@),
        _ => None,
    }
}

/// A number value that is a non-negative integer fitting in `u64`.
pub open spec fn as_u64(o: Option<JsonValue>) -> Option<u64> {
    match o {
        Some(JsonValue::Number(n)) => n.unsigned,
        _ => None,
    }
}

/// The string member `key` of `v`.
pub open spec fn string_field(v: JsonValue, key: Seq<char>) -> Option<Seq<char>> {
    as_text(obj_get(v, key))
}

/// The first item of an array value.
pub open spec fn first_item(o: Option<JsonValue>) -> Option<JsonValue> {
    match as_items(o) {
        Some(items) => if items.len() > 0 {
            Some(items[0])
        } else {
            None
        },
        None => None,
    }
}

/// `v` read back from an optional reference.
pub open spec fn deref_opt<'a>(o: Option<&'a JsonValue>) -> Option<JsonValue> {
    match o {
        Some(x) => Some(*x),
        None => None,
    }
}

/// The member `key` of `v`.
pub fn get<'a>(v: &'a JsonValue, key: &str) -> (r: Option<&'a JsonValue>)
    ensures
        deref_opt(r) == obj_get(*v, key@),
{
    match v {
        JsonValue::Object(entries) => {
            let mut i: usize = 0;
            while i < entries.len()
                invariant
                    i <= entries.len(),
                    obj_get(*v, key@) == lookup_from(entries@, key@, i as int),
                decreases entries.len() - i,
            {
                if str_equal(entries[i].0.as_str(), key) {
                    return Some(&entries[i].1);
                }
                i = i + 1;
            }
            None
        },
        _ => None,
    }
}

/// The member `key` of an optional value.
pub fn get_opt<'a>(o: Option<&'a JsonValue>, key: &str) -> (r: Option<&'a JsonValue>)
    ensures
        deref_opt(r) == opt_get(deref_opt(o), key@),
{
    match o {
        Some(v) => get(v, key),
        None => None,
    }
}

/// The text of a string value.
pub fn text_of<'a>(o: Option<&'a JsonValue>) -> (r: Option<&'a str>)
    ensures
        match r {
            Some(s) => as_text(deref_opt(o)) == Some(s@),
            None => as_text(deref_opt(o)) is None,
        },
{
    match o {
        Some(JsonValue::Text(s)) => Some(s.as_str()),
        _ => None,
    }
}

/// The items of an array value.
pub fn items_of<'a>(o: Option<&'a JsonValue>) -> (r: Option<&'a Vec<JsonValue>>)
    ensures
        match r {
            Some(items) => as_items(deref_opt(o)) == Some(items@),
            None => as_items(deref_opt(o)) is None,
        },
{
    match o {
        Some(JsonValue::Array(items)) => Some(items),
        _ => None,
    }
}

/// A number value as `u64`.
pub fn u64_of(o: Option<&JsonValue>) -> (r: Option<u64>)
    ensures
        r == as_u64(deref_opt(o)),
{
    match o {
        Some(JsonValue::Number(n)) => n.unsigned,
        _ => None,
    }
}

/// The string member `key` of `v`.
pub fn string_member<'a>(v: &'a JsonValue, key: &str) -> (r: Option<&'a str>)
    ensures
        match r {
            Some(s) => string_field(*v, key@) == Some(s@),
            None => string_field(*v, key@) is None,
        },
{
    text_of(get(v, key))
}

/// The first item of an array value.
pub fn first_of<'a>(o: Option<&'a JsonValue>) -> (r: Option<&'a JsonValue>)
    ensures
        deref_opt(r) == first_item(deref_opt(o)),
{
    match items_of(o) {
        Some(items) => if items.len() > 0 {
            Some(&items[0])
        } else {
            None
        },
        None => None,
    }
}

} // verus!
