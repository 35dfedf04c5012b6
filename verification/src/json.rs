//! JSON documents as plain values. The text is parsed by `serde_json`
//! behind a trusted boundary; everything after the parse — field lookup,
//! envelope decoding, probe interpretation — works on the library's own
//! `JsonValue` tree and is verified.

use vstd::prelude::*;
use crate::strutil::str_eq;

verus! {

/// Why a payload failed to decode.
#[derive(Clone, Copy, Debug, PartialEq, Eq, Structural)]
pub enum DecodeError {
    /// The body is not well-formed JSON.
    MalformedJson,
}

/// A decoded JSON document, held entirely as plain values so that the
/// envelope and probe logic over it can be verified.
#[derive(Debug)]
pub enum JsonValue {
    Null,
    Bool(bool),
    /// A number that fits in a signed 64-bit integer.
    Int(i64),
    /// A number outside that range, or not an integer. The probes never
    /// read such a number, so only its presence is kept.
    BigNum,
    Str(String),
    Arr(Vec<JsonValue>),
    Obj(Vec<(String, JsonValue)>),
}

/// The parse of `s` as one JSON document: `Some` exactly on well-formed
/// input. Names what `serde_json::from_str` returns; the parse is a
/// function of the text alone.
pub uninterp spec fn json_doc(s: Seq<char>) -> Option<JsonValue>;

#[verifier::external_type_specification]
#[verifier::external_body]
pub struct ExValue(serde_json::Value);

/// Relies on `serde_json::Value`: tells its variants apart and rebuilds the
/// document out of the library's own plain values, field by field. Object
/// fields come out in the deterministic order `serde_json`'s map iterates.
#[verifier::external_body]
fn value_to_node(v: &serde_json::Value) -> JsonValue {
    match v {
        serde_json::Value::Null => JsonValue::Null,
        serde_json::Value::Bool(b) => JsonValue::Bool(*b),
        serde_json::Value::Number(n) => n.as_i64().map_or(JsonValue::BigNum, JsonValue::Int),
        serde_json::Value::String(s) => JsonValue::Str(s.clone()),
        serde_json::Value::Array(a) => JsonValue::Arr(a.iter().map(value_to_node).collect()),
        serde_json::Value::Object(m) => JsonValue::Obj(
            m.iter().map(|(k, x)| (k.clone(), value_to_node(x))).collect(),
        ),
    }
}

/// Relies on `serde_json::from_str`: a well-formed body parses into one
/// JSON document, a malformed body is refused, and the outcome depends on
/// the text alone.
#[verifier::external_body]
pub fn parse_json(s: &str) -> (r: Result<JsonValue, DecodeError>)
    ensures
        match r {
            Ok(v) => json_doc(s@) == Some(v),
            Err(e) => json_doc(s@) is None && e == DecodeError::MalformedJson,
        },
{
    match serde_json::from_str::<serde_json::Value>(s) {
        Ok(v) => Ok(value_to_node(&v)),
        Err(_) => Err(DecodeError::MalformedJson),
    }
}

/// The value under `key` in an object's field list; the first binding wins.
pub open spec fn spec_obj_get(fields: Seq<(String, JsonValue)>, key: Seq<char>) -> Option<
    JsonValue,
>
    decreases fields.len(),
{
    if fields.len() == 0 {
        None
    } else if fields[0].0@ == key {
        Some(fields[0].1)
    } else {
        spec_obj_get(fields.drop_first(), key)
    }
}

/// Looks `key` up in an object's field list.
pub fn obj_get<'a>(fields: &'a Vec<(String, JsonValue)>, key: &str) -> (r: Option<&'a JsonValue>)
    ensures
        match r {
            Some(v) => spec_obj_get(fields@, key@) == Some(*v),
            None => spec_obj_get(fields@, key@) is None,
        },
{
    let n = fields.len();
    let mut i: usize = 0;
    proof {
        assert(fields@.skip(0) =~= fields@);
    }
    while i < n
        invariant
            i <= n,
            n == fields@.len(),
            spec_obj_get(fields@, key@) == spec_obj_get(fields@.skip(i as int), key@),
        decreases n - i,
    {
        let p = &fields[i];
        proof {
            assert(fields@.skip(i as int)[0] == fields@[i as int]);
        }
        if str_eq(p.0.as_str(), key) {
            return Some(&p.1);
        }
        proof {
            assert(fields@.skip(i as int).drop_first() =~= fields@.skip(i + 1));
        }
        i += 1;
    }
    proof {
        assert(fields@.skip(i as int) =~= Seq::<(String, JsonValue)>::empty());
    }
    None
}

} // verus!
