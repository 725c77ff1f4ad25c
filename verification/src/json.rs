//! JSON objects with plain fields, written by `serde_json`.
use vstd::prelude::*;
use crate::text::texts;

verus! {

/// A field's value.
#[derive(Debug)]
pub enum Json {
    Null,
    Bool(bool),
    Number(usize),
    Text(String),
    Texts(Vec<String>),
}

/// What a field's value holds. Values that no `Json` stands for are known by their JSON text.
pub enum JsonModel {
    Null,
    Bool(bool),
    Number(nat),
    Text(Seq<char>),
    Texts(Seq<Seq<char>>),
    Other(Seq<char>),
}

impl View for Json {
    type V = JsonModel;

    open spec fn view(&self) -> JsonModel {
        match self {
            Json::Null => JsonModel::Null,
            Json::Bool(b) => JsonModel::Bool(*b),
            Json::Number(n) => JsonModel::Number(*n as nat),
            Json::Text(s) => JsonModel::Text(s@),
            Json::Texts(v) => JsonModel::Texts(texts(v@)),
        }
    }
}

/// `serde_json::Value`, carried as it is.
#[verifier::external_type_specification]
#[verifier::external_body]
pub struct ExJsonValue(serde_json::Value);

/// `serde_json::Map`, whose fields are named by `json_fields`.
#[verifier::external_type_specification]
#[verifier::external_body]
#[verifier::reject_recursive_types(K)]
#[verifier::reject_recursive_types(V)]
pub struct ExJsonMap<K, V>(serde_json::Map<K, V>);

/// The fields that a JSON object holds.
pub uninterp spec fn json_fields(object: serde_json::Map<String, serde_json::Value>) -> Map<
    Seq<char>,
    JsonModel,
>;

/// The fields of an empty object.
pub open spec fn no_fields() -> Map<Seq<char>, JsonModel> {
    Map::empty()
}

/// How `serde_json` writes an object with these fields, compactly. Its map keeps the fields
/// ordered by their names, so that the text depends on nothing else.
pub uninterp spec fn json_text(fields: Map<Seq<char>, JsonModel>) -> Seq<char>;

/// Calls `serde_json::Map::new`: an object without fields.
#[verifier::external_body]
pub(crate) fn new_object() -> (r: serde_json::Map<String, serde_json::Value>)
    ensures
        json_fields(r) == no_fields(),
{
    serde_json::Map::new()
}

/// Calls `serde_json::Map::insert`: the field holds the value, whatever it held before, and the
/// other fields stay.
#[verifier::external_body]
pub(crate) fn put(
    object: &mut serde_json::Map<String, serde_json::Value>,
    name: &str,
    value: Json,
)
    ensures
        json_fields(*final(object)) == json_fields(*old(object)).insert(name@, value@),
{
    let held = match value {
        Json::Null => serde_json::Value::Null,
        Json::Bool(b) => serde_json::Value::Bool(b),
        Json::Number(n) => serde_json::Value::from(n),
        Json::Text(s) => serde_json::Value::String(s),
        Json::Texts(v) => serde_json::Value::from(v),
    };
    object.insert(name.to_string(), held);
}

/// Writes an object with `serde_json::Value`'s `to_string`.
#[verifier::external_body]
pub(crate) fn write_object(object: serde_json::Map<String, serde_json::Value>) -> (r: String)
    ensures
        r@ == json_text(json_fields(object)),
{
    serde_json::Value::Object(object).to_string()
}

} // verus!
