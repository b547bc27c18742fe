use vstd::prelude::*;

verus! {

#[verifier::external_type_specification]
#[verifier::external_body]
pub struct ExValue(serde_json::Value);

#[verifier::external_type_specification]
#[verifier::external_body]
pub struct ExJsonError(serde_json::Error);

/// Whether a string is a well-formed JSON document — what
/// `serde_json::from_str` decides, which depends on the input string alone.
pub uninterp spec fn json_parses(s: Seq<char>) -> bool;

/// The string-typed member of a document's top-level object, by key: `Some`
/// of its content exactly where the document parses to an object whose
/// member under the key is a string. Depends on the document and the key
/// alone.
pub uninterp spec fn json_str_field_of(s: Seq<char>, key: Seq<char>) -> Option<Seq<char>>;

/// The numeric member of a document's top-level object, by key, as the IEEE
/// 754 double bit pattern of its value. Depends on the document and the key
/// alone.
pub uninterp spec fn json_double_field_of(s: Seq<char>, key: Seq<char>) -> Option<u64>;

/// The boolean member of a document's top-level object, by key. Depends on
/// the document and the key alone.
pub uninterp spec fn json_bool_field_of(s: Seq<char>, key: Seq<char>) -> Option<bool>;

/// Relies on serde_json::from_str: parses a string into a generic JSON
/// value; whether it succeeds depends on the input string alone.
#[verifier::external_body]
pub(crate) fn parse_json(body: &str) -> (r: Result<serde_json::Value, serde_json::Error>)
    ensures
        r is Ok <==> json_parses(body@),
{
    serde_json::from_str::<serde_json::Value>(body)
}

/// Relies on serde_json::from_str, Value::get and Value::as_str: parse the
/// body and read one string member of the top-level object by key; the
/// member's content where it is a string, `None` wherever anything along
/// that path is not so.
#[verifier::external_body]
pub(crate) fn extract_str_field(body: &str, key: &str) -> (r: Option<String>)
    ensures
        json_str_field_of(body@, key@) == (match r {
            Some(t) => Some(t@),
            None => None::<Seq<char>>,
        }),
{
    match serde_json::from_str::<serde_json::Value>(body) {
        Ok(v) => v.get(key).and_then(|m| m.as_str()).map(|t| t.to_owned()),
        Err(_) => None,
    }
}

/// Relies on serde_json::from_str, Value::get and Value::as_f64: parse the
/// body and read one numeric member of the top-level object by key, handed
/// back as the IEEE 754 double bit pattern so that verified code can inspect
/// it without floating-point arithmetic.
#[verifier::external_body]
pub(crate) fn extract_double_field(body: &str, key: &str) -> (r: Option<u64>)
    ensures
        json_double_field_of(body@, key@) == r,
{
    match serde_json::from_str::<serde_json::Value>(body) {
        Ok(v) => v.get(key).and_then(|m| m.as_f64()).map(|x| x.to_bits()),
        Err(_) => None,
    }
}

/// Relies on serde_json::from_str, Value::get and Value::as_bool: parse the
/// body and read one boolean member of the top-level object by key.
#[verifier::external_body]
pub(crate) fn extract_bool_field(body: &str, key: &str) -> (r: Option<bool>)
    ensures
        json_bool_field_of(body@, key@) == r,
{
    match serde_json::from_str::<serde_json::Value>(body) {
        Ok(v) => v.get(key).and_then(|m| m.as_bool()),
        Err(_) => None,
    }
}

/// Relies on serde_json::Error's Display impl: a human-readable description
/// of what went wrong while parsing.
#[verifier::external_body]
pub(crate) fn json_error_text(e: &serde_json::Error) -> (r: String) {
    format!("{}", e)
}

} // verus!
