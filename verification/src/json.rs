//! A structural model of JSON values, and the trusted parse that
//! produces it.
//!
//! The resolver never trusts a substring sniff; it reads the parsed
//! structure. Numbers are kept as their source text — the resolver never
//! interprets them, and no numeric precision is silently lost.

use vstd::prelude::*;

verus! {

/// A parsed JSON value.
#[derive(Debug)]
pub enum Json {
    Null,
    Bool(bool),
    /// A number, kept as its source text.
    Number(String),
    /// A string value.
    Text(String),
    Array(Vec<Json>),
    /// An object: its fields in the order the parser reports them.
    Object(Vec<(String, Json)>),
}

/// What parsing a body yields: the parsed value for a body that is
/// valid JSON, nothing otherwise. A function of the text alone.
pub uninterp spec fn spec_json_parse(s: Seq<char>) -> Option<Json>;

#[verifier::external_type_specification]
#[verifier::external_body]
pub struct ExValue(serde_json::Value);

/// Converts a parsed `serde_json` value into the library's model,
/// variant by variant.
#[verifier::external_body]
fn json_of_value(v: serde_json::Value) -> Json {
    match v {
        serde_json::Value::Null => Json::Null,
        serde_json::Value::Bool(b) => Json::Bool(b),
        serde_json::Value::Number(n) => Json::Number(n.to_string()),
        serde_json::Value::String(s) => Json::Text(s),
        serde_json::Value::Array(a) => Json::Array(a.into_iter().map(json_of_value).collect()),
        serde_json::Value::Object(m) => Json::Object(
            m.into_iter().map(|f: (String, serde_json::Value)| (f.0, json_of_value(f.1))).collect(),
        ),
    }
}

/// Relies on `serde_json::from_str::<serde_json::Value>`: parsing is
/// deterministic in the input text; a body parses iff it is valid JSON.
#[verifier::external_body]
pub fn parse_json(body: &str) -> (r: Option<Json>)
    ensures
        r == spec_json_parse(body@),
{
    match serde_json::from_str::<serde_json::Value>(body) {
        Ok(v) => Some(json_of_value(v)),
        Err(_) => None,
    }
}

} // verus!
