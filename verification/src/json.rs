//! The trusted boundary to serde_json. Every inbound line is JSON text; the
//! functions here parse it and hand single fields back as plain values. What
//! a full JSON parse returns cannot be restated in a few lines, so each
//! extraction is given a name (an uninterpreted spec function of the text
//! alone), and the verified protocol logic speaks in terms of those names.

use vstd::prelude::*;

verus! {

/// Whether the text parses as one complete JSON document.
pub uninterp spec fn json_parse_ok(s: Seq<char>) -> bool;

/// The string value at a top-level key of a JSON object, if the text parses,
/// the key is present and its value is a string.
pub uninterp spec fn json_string_field(s: Seq<char>, key: Seq<char>) -> Option<Seq<char>>;

/// The value at a top-level key of a JSON object, re-rendered as JSON text,
/// if the text parses as an object and the key is present.
pub uninterp spec fn json_raw_field(s: Seq<char>, key: Seq<char>) -> Option<Seq<char>>;

/// The value at a top-level key, re-rendered as JSON text, if it is a number.
pub uninterp spec fn json_number_field(s: Seq<char>, key: Seq<char>) -> Option<Seq<char>>;

/// The integer at a top-level key, if the value is a number with an i64 representation.
pub uninterp spec fn json_i64_field(s: Seq<char>, key: Seq<char>) -> Option<i64>;

/// The boolean at a top-level key, if the value is a boolean.
pub uninterp spec fn json_bool_field(s: Seq<char>, key: Seq<char>) -> Option<bool>;

/// The elements of the text parsed as a JSON array, each re-rendered as JSON
/// text, if the text parses as an array.
pub uninterp spec fn json_array_items(s: Seq<char>) -> Option<Seq<Seq<char>>>;

/// The string value of the text parsed as a single JSON string literal.
pub uninterp spec fn json_string_value(s: Seq<char>) -> Option<Seq<char>>;

/// Relies on serde_json::from_str::<Value>: succeeds exactly on complete JSON.
#[verifier::external_body]
pub fn is_json_document(s: &str) -> (r: bool)
    ensures
        r == json_parse_ok(s@),
{
    serde_json::from_str::<serde_json::Value>(s).is_ok()
}

/// Relies on serde_json::from_str::<Value>, Value::get and Value::as_str:
/// the string at a top-level key.
#[verifier::external_body]
pub fn get_string_field(s: &str, key: &str) -> (r: Option<String>)
    ensures
        r.deep_view() == json_string_field(s@, key@),
{
    match serde_json::from_str::<serde_json::Value>(s) {
        Ok(v) => v.get(key).and_then(|f| f.as_str()).map(|t| t.to_string()),
        Err(_) => None,
    }
}

/// Relies on serde_json::from_str::<Value>, Value::get and Value::to_string:
/// the value at a top-level key, re-rendered as JSON text.
#[verifier::external_body]
pub fn get_raw_field(s: &str, key: &str) -> (r: Option<String>)
    ensures
        r.deep_view() == json_raw_field(s@, key@),
{
    match serde_json::from_str::<serde_json::Value>(s) {
        Ok(v) => v.get(key).map(|f| f.to_string()),
        Err(_) => None,
    }
}

/// Relies on serde_json::from_str::<Value>, Value::get, Value::is_number and
/// Value::to_string: the number at a top-level key, as JSON text.
#[verifier::external_body]
pub fn get_number_field(s: &str, key: &str) -> (r: Option<String>)
    ensures
        r.deep_view() == json_number_field(s@, key@),
{
    match serde_json::from_str::<serde_json::Value>(s) {
        Ok(v) => match v.get(key) {
            Some(f) if f.is_number() => Some(f.to_string()),
            _ => None,
        },
        Err(_) => None,
    }
}

/// Relies on serde_json::from_str::<Value>, Value::get and Value::as_i64:
/// the integer at a top-level key.
#[verifier::external_body]
pub fn get_i64_field(s: &str, key: &str) -> (r: Option<i64>)
    ensures
        r == json_i64_field(s@, key@),
{
    match serde_json::from_str::<serde_json::Value>(s) {
        Ok(v) => v.get(key).and_then(|f| f.as_i64()),
        Err(_) => None,
    }
}

/// Relies on serde_json::from_str::<Value>, Value::get and Value::as_bool:
/// the boolean at a top-level key.
#[verifier::external_body]
pub fn get_bool_field(s: &str, key: &str) -> (r: Option<bool>)
    ensures
        r == json_bool_field(s@, key@),
{
    match serde_json::from_str::<serde_json::Value>(s) {
        Ok(v) => v.get(key).and_then(|f| f.as_bool()),
        Err(_) => None,
    }
}

/// Relies on serde_json::from_str::<Value> and Value::to_string: the elements
/// of a JSON array, each re-rendered as JSON text.
#[verifier::external_body]
pub fn get_array_items(s: &str) -> (r: Option<Vec<String>>)
    ensures
        r.deep_view() == json_array_items(s@),
{
    match serde_json::from_str::<serde_json::Value>(s) {
        Ok(serde_json::Value::Array(items)) => {
            let mut out: Vec<String> = Vec::with_capacity(items.len());
            for item in &items {
                out.push(item.to_string());
            }
            Some(out)
        },
        _ => None,
    }
}

/// Relies on serde_json::from_str::<Value>: the value of a JSON string literal.
#[verifier::external_body]
pub fn get_string_value(s: &str) -> (r: Option<String>)
    ensures
        r.deep_view() == json_string_value(s@),
{
    match serde_json::from_str::<serde_json::Value>(s) {
        Ok(serde_json::Value::String(t)) => Some(t),
        _ => None,
    }
}

/// The kind of the text parsed as JSON: one of "null", "bool", "number",
/// "string", "array", "object", if the text parses at all.
pub uninterp spec fn json_kind(s: Seq<char>) -> Option<Seq<char>>;

/// Relies on serde_json::from_str::<Value>: which variant the text parses to,
/// one arm per variant.
#[verifier::external_body]
pub fn get_kind(s: &str) -> (r: Option<&'static str>)
    ensures
        r.deep_view() == json_kind(s@),
{
    match serde_json::from_str::<serde_json::Value>(s) {
        Ok(serde_json::Value::Null) => Some("null"),
        Ok(serde_json::Value::Bool(_)) => Some("bool"),
        Ok(serde_json::Value::Number(_)) => Some("number"),
        Ok(serde_json::Value::String(_)) => Some("string"),
        Ok(serde_json::Value::Array(_)) => Some("array"),
        Ok(serde_json::Value::Object(_)) => Some("object"),
        Err(_) => None,
    }
}

} // verus!
