//! The boundary between JSON text and the [`crate::json`] model.
//!
//! Parsing and rendering are done by `serde_json`; everything here either
//! declares what that library is relied upon for, or converts between its
//! types and the crate's own, value for value.  Both directions are
//! deterministic, so the result of each is given a name (`parsed_json_str`,
//! `parsed_json_bytes`, `rendered_str`, `rendered_bytes`) that the public
//! contracts speak of.

use vstd::prelude::*;

use crate::json::{JsonNum, JsonValue, JsonValueView};

verus! {

/// Declaration of `serde_json::Value` so that the converters below can pass
/// one around; the crate never reads such a value outside those converters.
#[verifier::external_type_specification]
#[verifier::external_body]
pub struct ExSerdeValue(serde_json::Value);

/// What `serde_json::from_str` makes of a text, carried over into the crate's
/// model: the parsed document, or `None` when the text is not one valid JSON
/// document.
pub uninterp spec fn parsed_json_str(s: Seq<char>) -> Option<JsonValueView>;

/// What `serde_json::from_slice` makes of a byte string, carried over into
/// the crate's model: the parsed document, or `None` when the bytes are not
/// one valid UTF-8 JSON document.
pub uninterp spec fn parsed_json_bytes(b: Seq<u8>) -> Option<JsonValueView>;

/// The text `serde_json::to_string` renders a value as.
pub uninterp spec fn rendered_str(v: JsonValueView) -> Seq<char>;

/// The bytes `serde_json::to_vec` renders a value as.
pub uninterp spec fn rendered_bytes(v: JsonValueView) -> Seq<u8>;

/// Carries a parsed `serde_json::Number` into the crate's model.  A number
/// that is an integer in `u64` or `i64` range keeps that form (as
/// `Number::as_u64`/`as_i64` report it); any other number is carried as the
/// `serde_json::Number` itself.
#[verifier::external_body]
fn num_to_model(n: &serde_json::Number) -> JsonNum {
    match n.as_u64() {
        Some(u) => JsonNum::UInt(u),
        None => match n.as_i64() {
            Some(i) => JsonNum::Int(i),
            None => JsonNum::Other(n.clone()),
        },
    }
}

/// Carries a parsed `serde_json::Value` into the crate's model, node for
/// node.
#[verifier::external_body]
fn value_to_model(v: &serde_json::Value) -> JsonValue {
    match v {
        serde_json::Value::Null => JsonValue::Null,
        serde_json::Value::Bool(b) => JsonValue::Bool(*b),
        serde_json::Value::Number(n) => JsonValue::Num(num_to_model(n)),
        serde_json::Value::String(s) => JsonValue::Str(s.clone()),
        serde_json::Value::Array(a) => JsonValue::Arr(a.iter().map(value_to_model).collect()),
        serde_json::Value::Object(m) => JsonValue::Obj(
            m.iter().map(|(k, x)| (k.clone(), value_to_model(x))).collect(),
        ),
    }
}

/// Carries a value of the crate's model back into a `serde_json::Value`,
/// node for node.
#[verifier::external_body]
fn model_to_value(v: &JsonValue) -> serde_json::Value {
    match v {
        JsonValue::Null => serde_json::Value::Null,
        JsonValue::Bool(b) => serde_json::Value::Bool(*b),
        JsonValue::Num(JsonNum::UInt(u)) => serde_json::Value::from(*u),
        JsonValue::Num(JsonNum::Int(i)) => serde_json::Value::from(*i),
        JsonValue::Num(JsonNum::Other(n)) => serde_json::Value::Number(n.clone()),
        JsonValue::Str(s) => serde_json::Value::String(s.clone()),
        JsonValue::Arr(a) => serde_json::Value::Array(a.iter().map(model_to_value).collect()),
        JsonValue::Obj(o) => serde_json::Value::Object(
            o.iter().map(|(k, x)| (k.clone(), model_to_value(x))).collect(),
        ),
    }
}

/// Relies on `serde_json::from_str`: parsing is a function of the text alone,
/// and returns a value exactly when the text is one valid JSON document.
#[verifier::external_body]
pub(crate) fn parse_json_str(s: &str) -> (r: Result<JsonValue, String>)
    ensures
        match r {
            Ok(v) => parsed_json_str(s@) == Some(v@),
            Err(_) => parsed_json_str(s@) is None,
        },
{
    match serde_json::from_str::<serde_json::Value>(s) {
        Ok(v) => Ok(value_to_model(&v)),
        Err(e) => Err(e.to_string()),
    }
}

/// Relies on `serde_json::from_slice`: parsing is a function of the bytes
/// alone, and returns a value exactly when the bytes are one valid UTF-8
/// JSON document.
#[verifier::external_body]
pub(crate) fn parse_json_bytes(b: &[u8]) -> (r: Result<JsonValue, String>)
    ensures
        match r {
            Ok(v) => parsed_json_bytes(b@) == Some(v@),
            Err(_) => parsed_json_bytes(b@) is None,
        },
{
    match serde_json::from_slice::<serde_json::Value>(b) {
        Ok(v) => Ok(value_to_model(&v)),
        Err(e) => Err(e.to_string()),
    }
}

/// Relies on `serde_json::to_string`: rendering is a function of the value
/// alone, and always succeeds on a `Value` (serialization fails only for
/// failing `Serialize` impls or maps with non-string keys, and a `Value` has
/// neither).
#[verifier::external_body]
pub(crate) fn render_json_string(v: &JsonValue) -> (r: Result<String, String>)
    ensures
        r is Ok,
        r matches Ok(s) ==> s@ == rendered_str(v@),
{
    serde_json::to_string(&model_to_value(v)).map_err(|e| e.to_string())
}

/// Relies on `serde_json::to_vec`: rendering is a function of the value
/// alone, and always succeeds on a `Value`, as for `serde_json::to_string`.
#[verifier::external_body]
pub(crate) fn render_json_bytes(v: &JsonValue) -> (r: Result<Vec<u8>, String>)
    ensures
        r is Ok,
        r matches Ok(b) ==> b@ == rendered_bytes(v@),
{
    serde_json::to_vec(&model_to_value(v)).map_err(|e| e.to_string())
}

} // verus!
