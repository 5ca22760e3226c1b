//! The crate's only window onto serde_json: the `Value` type is declared
//! opaque, and each method the adapters need is wrapped in one trusted
//! function. Each wrapper's result is given a name — serde_json's results
//! depend on their arguments alone — so the verified adapters can say
//! exactly which document parts they hand on. Everything done with what
//! these return is verified.

use vstd::prelude::*;

verus! {

#[verifier::external_type_specification]
#[verifier::external_body]
pub struct ExJsonValue(serde_json::Value);

/// Whether a string is one well-formed JSON document, the condition under
/// which serde_json's parser accepts it.
pub uninterp spec fn is_json_value(s: Seq<char>) -> bool;

/// The document serde_json parses a well-formed input into: a function of
/// the text alone.
pub uninterp spec fn json_doc_of(s: Seq<char>) -> serde_json::Value;

/// What member lookup by key returns on a JSON value: a function of the
/// value and the key alone.
pub uninterp spec fn json_member_of(v: serde_json::Value, key: Seq<char>) -> Option<
    serde_json::Value,
>;

/// What element lookup by position returns on a JSON value: a function of
/// the value and the position alone.
pub uninterp spec fn json_element_of(v: serde_json::Value, index: int) -> Option<
    serde_json::Value,
>;

/// The `i64` reading of a JSON value: a function of the value alone.
pub uninterp spec fn json_int_of(v: serde_json::Value) -> Option<i64>;

/// The text of a JSON string value, as UTF-8 bytes: a function of the value
/// alone.
pub uninterp spec fn json_str_bytes_of(v: serde_json::Value) -> Option<Seq<u8>>;

/// The decimal text of a JSON number value: a function of the value alone.
pub uninterp spec fn json_num_text_of(v: serde_json::Value) -> Option<Seq<char>>;

/// Relies on serde_json::from_str for `serde_json::Value`: it returns `Ok`
/// exactly when the whole input is one well-formed JSON document, and the
/// document depends on the input text alone.
#[verifier::external_body]
pub fn parse_json(s: &str) -> (r: Option<serde_json::Value>)
    ensures
        r is Some <==> is_json_value(s@),
        r matches Some(v) ==> v == json_doc_of(s@),
{
    serde_json::from_str(s).ok()
}

/// Relies on serde_json::Value::get with a string index: member lookup on a
/// JSON object, `None` on a missing member or a non-object, a function of
/// the value and the key alone.
#[verifier::external_body]
pub fn json_get<'a>(v: &'a serde_json::Value, key: &str) -> (r: Option<&'a serde_json::Value>)
    ensures
        (match r {
            Option::Some(m) => Option::Some(*m),
            Option::None => Option::None,
        }) == json_member_of(*v, key@),
{
    v.get(key)
}

/// Relies on serde_json::Value::get with a numeric index: element lookup on
/// a JSON array, `None` when out of bounds or on a non-array, a function of
/// the value and the position alone.
#[verifier::external_body]
pub fn json_get_index<'a>(v: &'a serde_json::Value, index: usize) -> (r: Option<
    &'a serde_json::Value,
>)
    ensures
        (match r {
            Option::Some(m) => Option::Some(*m),
            Option::None => Option::None,
        }) == json_element_of(*v, index as int),
{
    v.get(index)
}

/// Relies on serde_json::Value::as_i64: the value of a JSON integer that
/// fits in an `i64`, `None` on anything else, a function of the value alone.
#[verifier::external_body]
pub fn json_as_i64(v: &serde_json::Value) -> (r: Option<i64>)
    ensures
        r == json_int_of(*v),
{
    v.as_i64()
}

/// Relies on serde_json::Value::as_str: the text of a JSON string, `None` on
/// anything else, a function of the value alone. The text is handed out as
/// its UTF-8 bytes, unchanged.
#[verifier::external_body]
pub fn json_as_str_bytes(v: &serde_json::Value) -> (r: Option<Vec<u8>>)
    ensures
        (match r {
            Option::Some(b) => Option::Some(b@),
            Option::None => Option::None,
        }) == json_str_bytes_of(*v),
{
    v.as_str().map(|s| s.as_bytes().to_vec())
}

/// Relies on serde_json::Value::as_number and the Display of
/// serde_json::Number: the decimal text of a JSON number, `None` on anything
/// else, a function of the value alone. The store keeps balances as text, so
/// the number is handed out as its own decimal rendering.
#[verifier::external_body]
pub fn json_number_display(v: &serde_json::Value) -> (r: Option<String>)
    ensures
        (match r {
            Option::Some(s) => Option::Some(s@),
            Option::None => Option::None,
        }) == json_num_text_of(*v),
{
    v.as_number().map(|n| n.to_string())
}

} // verus!
