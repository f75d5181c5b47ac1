//! Dynamically typed field values, carried as `serde_json::Value`.
//!
//! The player record's custom `data` mapping and the schema catalog's
//! defaults are dynamically typed. The library carries such a value as an
//! opaque `serde_json::Value` and never inspects it; it only constructs
//! values at the catalog boundary and moves them around. A value's abstract
//! identity, as the contracts speak of it, is its JSON content: two values
//! are equal exactly when they denote the same JSON document.

use vstd::prelude::*;

verus! {

#[verifier::external_type_specification]
#[verifier::external_body]
pub struct ExValue(serde_json::Value);

/// The JSON value `serde_json::Value::from` builds from a 64-bit integer.
pub uninterp spec fn json_int(i: int) -> serde_json::Value;

/// The JSON value `serde_json::Value::from` builds from a string.
pub uninterp spec fn json_str(s: Seq<char>) -> serde_json::Value;

/// The JSON value `serde_json::Value::from` builds from a boolean.
pub uninterp spec fn json_bool(b: bool) -> serde_json::Value;

/// What `serde_json::from_str` parses a piece of text into: `None` when the
/// text is not a well-formed JSON document.
pub uninterp spec fn json_of_text(s: Seq<char>) -> Option<serde_json::Value>;

/// Relies on `serde_json::Value::from` for `i64`: builds the JSON number
/// with exactly the given integer value.
#[verifier::external_body]
pub fn json_of_i64(i: i64) -> (r: serde_json::Value)
    ensures
        r == json_int(i as int),
{
    serde_json::Value::from(i)
}

/// Relies on `serde_json::Value::from` for `&str`: builds the JSON string
/// with exactly the given characters.
#[verifier::external_body]
pub fn json_of_str(s: &str) -> (r: serde_json::Value)
    ensures
        r == json_str(s@),
{
    serde_json::Value::from(s)
}

/// Relies on `serde_json::Value::from` for `bool`.
#[verifier::external_body]
pub fn json_of_bool(b: bool) -> (r: serde_json::Value)
    ensures
        r == json_bool(b),
{
    serde_json::Value::from(b)
}

/// Relies on `serde_json::from_str::<serde_json::Value>`: parses a JSON
/// document, a pure function of the text alone.
#[verifier::external_body]
pub fn parse_json(s: &str) -> (r: Option<serde_json::Value>)
    ensures
        r == json_of_text(s@),
{
    serde_json::from_str(s).ok()
}

/// Relies on `serde_json::Value`'s `Clone`: a clone denotes the same JSON
/// content, hence the same abstract value.
pub assume_specification [<serde_json::Value as Clone>::clone](v: &serde_json::Value) -> (r: serde_json::Value)
    ensures
        r == *v,
;

/// The JSON `null` value, written through the parser so that no further
/// trusted constructor is needed.
pub open spec fn json_null() -> serde_json::Value {
    match json_of_text("null"@) {
        Some(v) => v,
        None => json_int(0),
    }
}

/// The zero number used when a numeric field has no usable default.
pub open spec fn json_zero_number() -> serde_json::Value {
    match json_of_text("0.0"@) {
        Some(v) => v,
        None => json_int(0),
    }
}

/// The JSON `null` value as an executable constructor.
pub fn null_value() -> (r: serde_json::Value)
    ensures
        r == json_null(),
{
    match parse_json("null") {
        Some(v) => v,
        None => json_of_i64(0),
    }
}

/// The zero number as an executable constructor.
pub fn zero_number_value() -> (r: serde_json::Value)
    ensures
        r == json_zero_number(),
{
    match parse_json("0.0") {
        Some(v) => v,
        None => json_of_i64(0),
    }
}

} // verus!
