//! The JSON documents of the ranking service, read through `serde_json`.
//!
//! The four functions marked `external_body` call `serde_json` and are
//! taken on trust: that a text parses to one document, and what the three
//! accessors used here give for each kind of value. What the library builds
//! on them is proved from these statements.

use serde_json::Value;
use vstd::prelude::*;

verus! {

/// `serde_json::Value`, a JSON value; the library sees nothing inside it.
#[verifier::external_type_specification]
#[verifier::external_body]
pub struct ExValue(serde_json::Value);

/// `serde_json::Error`, the reason why a text was rejected; the library
/// reads none of it.
#[verifier::external_type_specification]
#[verifier::external_body]
pub struct ExJsonError(serde_json::Error);

/// A JSON value as contracts see it. Of a number only its kind is kept: the
/// library reads none.
pub enum JsonModel {
    Null,
    Bool(bool),
    Number,
    Text(Seq<char>),
    List(Seq<JsonModel>),
    Object(Map<Seq<char>, JsonModel>),
}

/// What a `serde_json::Value` holds.
pub uninterp spec fn json_model(value: Value) -> JsonModel;

/// What `serde_json::from_str` reads from a text: the document, or `None`
/// where it rejects the text.
pub uninterp spec fn json_parsed(text: Seq<char>) -> Option<JsonModel>;

/// What each value of a list holds.
pub open spec fn json_models(values: Seq<Value>) -> Seq<JsonModel> {
    values.map_values(|v: Value| json_model(v))
}

/// `serde_json::from_str` at the type `Value`. The parser reads nothing but
/// its argument, so a text has one outcome: the document named by
/// `json_parsed`, or an error where there is none.
#[verifier::external_body]
pub(crate) fn parse_document(text: &str) -> (r: Result<Value, serde_json::Error>)
    ensures
        r matches Ok(v) ==> json_parsed(text@) == Some(json_model(v)),
        r is Err ==> json_parsed(text@) is None,
{
    serde_json::from_str::<Value>(text)
}

/// `Value::as_array`: the vector inside an array value, `None` for a value
/// of any other kind.
#[verifier::external_body]
pub(crate) fn elements_of(value: &Value) -> (r: Option<&Vec<Value>>)
    ensures
        r matches Some(items) ==> json_model(*value) == JsonModel::List(json_models(items@)),
        r is None ==> !(json_model(*value) is List),
{
    value.as_array()
}

/// `Value::get` with a string index: the member that an object holds under
/// the key, `None` where the value is no object or the object has no such
/// key.
#[verifier::external_body]
pub(crate) fn member_of<'a>(value: &'a Value, key: &str) -> (r: Option<&'a Value>)
    ensures
        r matches Some(member) ==> (json_model(*value) matches JsonModel::Object(members)
            && members.contains_key(key@) && members[key@] == json_model(*member)),
        r is None ==> !(json_model(*value) matches JsonModel::Object(members)
            && members.contains_key(key@)),
{
    value.get(key)
}

/// `Value::as_str`: the text inside a string value, `None` for a value of
/// any other kind.
#[verifier::external_body]
pub(crate) fn text_of(value: &Value) -> (r: Option<&str>)
    ensures
        r matches Some(text) ==> json_model(*value) == JsonModel::Text(text@),
        r is None ==> !(json_model(*value) is Text),
{
    value.as_str()
}

/// The text that an object holds under a key: `None` where the value is no
/// object, has no such key, or holds something other than a text there.
pub open spec fn text_member(value: JsonModel, key: Seq<char>) -> Option<Seq<char>> {
    match value {
        JsonModel::Object(members) => if members.contains_key(key) {
            match members[key] {
                JsonModel::Text(text) => Some(text),
                _ => None,
            }
        } else {
            None
        },
        _ => None,
    }
}

/// Reads the text that an object holds under a key.
pub(crate) fn read_text_member(value: &Value, key: &str) -> (r: Option<String>)
    ensures
        r is Some <==> text_member(json_model(*value), key@) is Some,
        r matches Some(text) ==> text_member(json_model(*value), key@) == Some(text@),
{
    match member_of(value, key) {
        Some(member) => match text_of(member) {
            Some(text) => Some(text.to_owned()),
            None => None,
        },
        None => None,
    }
}

} // verus!
