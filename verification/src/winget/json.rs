//! A JSON document as plain values, read with serde_json.
use vstd::prelude::*;

verus! {

/// A JSON value. Numbers keep their text; an object keeps its members in
/// the order serde_json's map yields them, each key once.
#[derive(Debug)]
pub enum Json {
    Null,
    Bool(bool),
    Number(String),
    Str(String),
    Array(Vec<Json>),
    Object(Vec<(String, Json)>),
}

#[verifier::external_type_specification]
#[verifier::external_body]
pub struct ExJsonValue(serde_json::Value);

/// What serde_json makes of `text`: the document, or, where it refuses
/// the text, the `Display` text of its error.
pub uninterp spec fn parsed_json(text: Seq<char>) -> Result<Json, Seq<char>>;

/// Reads `text` with `serde_json::from_str` into a `serde_json::Value` and
/// hands it back as a [`Json`]; a refusal is handed back as the `Display`
/// text of the `serde_json::Error`. Claimed: the outcome is
/// [`parsed_json`] of the text (a function of the text alone); what the
/// document or the error text is for a given text is left to serde_json.
#[verifier::external_body]
pub(crate) fn read_json(text: &str) -> (r: Result<Json, String>)
    ensures
        match r {
            Ok(j) => parsed_json(text@) == Ok::<Json, Seq<char>>(j),
            Err(m) => parsed_json(text@) == Err::<Json, Seq<char>>(m@),
        },
{
    match serde_json::from_str::<serde_json::Value>(text) {
        Ok(v) => Ok(json_of_value(v)),
        Err(e) => Err(e.to_string()),
    }
}

/// One-for-one conversion of a `serde_json::Value` (used inside
/// [`read_json`] only): each variant to the variant of the same name,
/// numbers to their `Display` text, object members in the map's order.
#[verifier::external_body]
fn json_of_value(v: serde_json::Value) -> Json {
    match v {
        serde_json::Value::Null => Json::Null,
        serde_json::Value::Bool(b) => Json::Bool(b),
        serde_json::Value::Number(n) => Json::Number(n.to_string()),
        serde_json::Value::String(s) => Json::Str(s),
        serde_json::Value::Array(a) => Json::Array(a.into_iter().map(json_of_value).collect()),
        serde_json::Value::Object(m) => Json::Object(
            m.into_iter().map(|(k, x)| (k, json_of_value(x))).collect(),
        ),
    }
}

} // verus!
