//! The library's own model of a JSON document, and the trusted parse that
//! produces it.
//!
//! Responses from the service are generic JSON. The library holds them in
//! [`JsonValue`], a plain recursive enum, so that the envelope interpretation
//! and the update decoding can be verified over it. Only the parse itself is
//! delegated to `serde_json`, behind a trusted wrapper.

use vstd::prelude::*;

verus! {

/// A JSON value as the library models it. Numbers are kept only when they
/// are 64-bit signed integers, the only kind of number the protocol reads;
/// any other number is remembered only as being present.
#[derive(Debug)]
pub enum JsonValue {
    Null,
    Bool(bool),
    Int(i64),
    /// A number that does not fit a 64-bit signed integer (too large, or not
    /// an integer at all). The protocol never reads such a number.
    OtherNumber,
    Str(String),
    Array(Vec<JsonValue>),
    Object(Vec<(String, JsonValue)>),
}

/// The value that a text parses to as JSON, or `None` where it is not valid
/// JSON. What exactly the parser accepts takes pages to state; this name
/// stands for its result, which depends on the text alone.
pub uninterp spec fn json_of(s: Seq<char>) -> Option<JsonValue>;

/// Relies on `serde_json::Value`: the declared type carries parsed documents
/// from the parser to the conversion below.
#[verifier::external_type_specification]
#[verifier::external_body]
pub struct ExValue(serde_json::Value);

/// Relies on `serde_json::Value`: tells its variants apart, one arm each,
/// and carries every field over; a number keeps its value exactly when
/// `Number::as_i64` yields one.
#[verifier::external_body]
fn value_from(v: serde_json::Value) -> JsonValue {
    match v {
        serde_json::Value::Null => JsonValue::Null,
        serde_json::Value::Bool(b) => JsonValue::Bool(b),
        serde_json::Value::Number(n) => match n.as_i64() {
            Some(i) => JsonValue::Int(i),
            None => JsonValue::OtherNumber,
        },
        serde_json::Value::String(s) => JsonValue::Str(s),
        serde_json::Value::Array(a) => JsonValue::Array(a.into_iter().map(value_from).collect()),
        serde_json::Value::Object(m) => {
            JsonValue::Object(m.into_iter().map(|(k, x)| (k, value_from(x))).collect())
        },
    }
}

/// Relies on `serde_json::from_str`: whether a text parses as JSON, and to
/// what value, depends on the text alone.
#[verifier::external_body]
pub(crate) fn parse_json(s: &str) -> (r: Option<JsonValue>)
    ensures
        r == json_of(s@),
{
    match serde_json::from_str::<serde_json::Value>(s) {
        Ok(v) => Some(value_from(v)),
        Err(_) => None,
    }
}

/// The value bound to `key` among an object's fields: the first binding,
/// where a key repeats.
pub open spec fn spec_lookup(fields: Seq<(String, JsonValue)>, key: Seq<char>) -> Option<
    JsonValue,
>
    decreases fields.len(),
{
    if fields.len() == 0 {
        None
    } else if fields[0].0@ == key {
        Some(fields[0].1)
    } else {
        spec_lookup(fields.drop_first(), key)
    }
}

/// Finds the value bound to `key` among an object's fields.
pub fn lookup<'a>(fields: &'a Vec<(String, JsonValue)>, key: &str) -> (r: Option<&'a JsonValue>)
    ensures
        match r {
            Some(v) => spec_lookup(fields@, key@) == Some(*v),
            None => spec_lookup(fields@, key@) is None,
        },
{
    let key_owned: String = key.to_owned();
    let mut i: usize = 0;
    proof {
        assert(fields@.skip(0) =~= fields@);
    }
    while i < fields.len()
        invariant
            i <= fields@.len(),
            key_owned@ == key@,
            spec_lookup(fields@, key@) == spec_lookup(fields@.skip(i as int), key@),
        decreases fields@.len() - i,
    {
        proof {
            assert(fields@.skip(i as int)[0] == fields@[i as int]);
            assert(fields@.skip(i as int).drop_first() =~= fields@.skip(i as int + 1));
        }
        if fields[i].0 == key_owned {
            return Some(&fields[i].1);
        }
        i = i + 1;
    }
    proof {
        assert(fields@.skip(i as int).len() == 0);
    }
    None
}

} // verus!
