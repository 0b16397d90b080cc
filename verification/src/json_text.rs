//! The texts `serde_json` writes for a JSON document.
use vstd::prelude::*;
use serde_json::Value;
use crate::json::{Json, JsonNumber, JsonV};

verus! {

#[verifier::external_type_specification]
#[verifier::external_body]
pub struct ExValue(Value);

/// What `serde_json` displays (`Value::to_string`, compact JSON) for the
/// `serde_json::Value` holding this document.
pub uninterp spec fn json_display(v: JsonV) -> Seq<char>;

/// What `format!("{:?}", value)` writes for the `serde_json::Value` holding
/// this document.
pub uninterp spec fn json_debug(v: JsonV) -> Seq<char>;

/// The `serde_json::Value` holding the same document, one node for one node
/// (a fractional number from its text, members in order).
#[verifier::external_body]
fn to_value(v: &Json) -> Value {
    match v {
        Json::Null => Value::Null,
        Json::Bool(b) => Value::Bool(*b),
        Json::Number(JsonNumber::PosInt(u)) => Value::from(*u),
        Json::Number(JsonNumber::NegInt(i)) => Value::from(*i),
        Json::Number(JsonNumber::Float(t)) => t.parse().map(Value::Number).unwrap_or(Value::Null),
        Json::Str(s) => Value::String(s.clone()),
        Json::Array(items) => Value::Array(items.iter().map(to_value).collect()),
        Json::Object(members) => Value::Object(members.iter().map(|(k, x)| (k.clone(), to_value(x))).collect()),
    }
}

/// `value.to_string()` of the document.
#[verifier::external_body]
pub fn display_json(v: &Json) -> (r: String)
    ensures
        r@ == json_display(v.model()),
{
    to_value(v).to_string()
}

/// `format!("{:?}", value)` of the document.
#[verifier::external_body]
pub fn debug_json(v: &Json) -> (r: String)
    ensures
        r@ == json_debug(v.model()),
{
    format!("{:?}", to_value(v))
}

} // verus!
