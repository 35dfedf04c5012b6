//! The two wire formats in use: JSON-RPC 2.0 request/response envelopes,
//! and plain REST envelopes wrapping a `data` field. Encoding is verified
//! character by character; decoding works on an already-parsed document.

use vstd::prelude::*;
use crate::json::{DecodeError, JsonValue, obj_get, spec_obj_get};

verus! {

/// A JSON-RPC 2.0 request envelope. Every probe this library issues is
/// parameterless, so `params` is always the empty list.
pub struct RpcRequest {
    pub jsonrpc: String,
    pub method: String,
    pub params: JsonValue,
    pub id: String,
}

/// A decoded JSON-RPC 2.0 response envelope. Fields the reply omitted are
/// `None`; clients that omit both `error` and `result` decode without
/// failure and the caller treats the reply as carrying no data.
pub struct RpcResponse<'a> {
    pub id: Option<&'a str>,
    pub jsonrpc: Option<&'a str>,
    pub error: Option<&'a JsonValue>,
    pub result: Option<&'a JsonValue>,
}

/// A decoded REST response envelope: the payload under `data`, when present.
pub struct RestResponse<'a> {
    pub data: Option<&'a JsonValue>,
}

/// `o` with the reference dropped.
pub open spec fn opt_deref<T>(o: Option<&T>) -> Option<T> {
    match o {
        Some(x) => Some(*x),
        None => None,
    }
}

/// The view of an optional string slice.
pub open spec fn opt_str_view(o: Option<&str>) -> Option<Seq<char>> {
    match o {
        Some(s) => Some(s@),
        None => None,
    }
}

/// The string under `key` in an object's field list, when the field is
/// present and holds a string.
pub open spec fn spec_field_str(fields: Seq<(String, JsonValue)>, key: Seq<char>) -> Option<
    Seq<char>,
> {
    match spec_obj_get(fields, key) {
        Some(JsonValue::Str(s)) => Some(s@),
        _ => None,
    }
}

/// The exact text of a JSON-RPC 2.0 request for a parameterless method.
pub open spec fn rpc_request_text(method: Seq<char>) -> Seq<char> {
    "{\"jsonrpc\":\"2.0\",\"method\":\""@ + method + "\",\"params\":[],\"id\":\"1\"}"@
}

/// Builds the JSON-RPC 2.0 envelope for a parameterless method call.
pub fn encode_rpc_request(method: &str) -> (r: String)
    ensures
        r@ == rpc_request_text(method@),
{
    let mut s = String::from_str("{\"jsonrpc\":\"2.0\",\"method\":\"");
    s.append(method);
    s.append("\",\"params\":[],\"id\":\"1\"}");
    s
}

impl RpcRequest {
    /// The canonical request envelope for a parameterless method.
    pub fn new(method: &str) -> (r: RpcRequest)
        ensures
            r.jsonrpc@ == "2.0"@,
            r.method@ == method@,
            r.id@ == "1"@,
            (r.params matches JsonValue::Arr(a) && a@.len() == 0),
    {
        RpcRequest {
            jsonrpc: String::from_str("2.0"),
            method: String::from_str(method),
            params: JsonValue::Arr(Vec::new()),
            id: String::from_str("1"),
        }
    }

    /// Serializes the envelope. The probes of this library carry no
    /// parameters, so only the empty parameter list is rendered.
    pub fn encode(&self) -> (r: String)
        requires
            self.jsonrpc@ == "2.0"@,
            self.id@ == "1"@,
            (self.params matches JsonValue::Arr(a) && a@.len() == 0),
        ensures
            r@ == rpc_request_text(self.method@),
    {
        encode_rpc_request(self.method.as_str())
    }
}

/// Splits a parsed JSON-RPC response document into its envelope fields.
/// Any document other than an object is refused as malformed.
pub fn decode_rpc_response<'a>(doc: &'a JsonValue) -> (r: Result<RpcResponse<'a>, DecodeError>)
    ensures
        (r is Ok) == (doc is Obj),
        r matches Err(e) ==> e == DecodeError::MalformedJson,
        doc matches JsonValue::Obj(fields) ==> r matches Ok(resp) ==> opt_str_view(resp.id)
            == spec_field_str(fields@, "id"@) && opt_str_view(resp.jsonrpc) == spec_field_str(
            fields@,
            "jsonrpc"@,
        ) && opt_deref(resp.error) == spec_obj_get(fields@, "error"@) && opt_deref(resp.result)
            == spec_obj_get(fields@, "result"@),
{
    match doc {
        JsonValue::Obj(fields) => {
            let id = match obj_get(fields, "id") {
                Some(v) => match v {
                    JsonValue::Str(s) => Some(s.as_str()),
                    _ => None,
                },
                None => None,
            };
            let jsonrpc = match obj_get(fields, "jsonrpc") {
                Some(v) => match v {
                    JsonValue::Str(s) => Some(s.as_str()),
                    _ => None,
                },
                None => None,
            };
            let error = obj_get(fields, "error");
            let result = obj_get(fields, "result");
            Ok(RpcResponse { id, jsonrpc, error, result })
        },
        _ => Err(DecodeError::MalformedJson),
    }
}

/// Splits a parsed REST response document into its envelope: the value
/// under `data`, when present. Any document other than an object is
/// refused as malformed.
pub fn decode_rest_envelope<'a>(doc: &'a JsonValue) -> (r: Result<RestResponse<'a>, DecodeError>)
    ensures
        (r is Ok) == (doc is Obj),
        r matches Err(e) ==> e == DecodeError::MalformedJson,
        doc matches JsonValue::Obj(fields) ==> r matches Ok(resp) ==> opt_deref(resp.data)
            == spec_obj_get(fields@, "data"@),
{
    match doc {
        JsonValue::Obj(fields) => Ok(RestResponse { data: obj_get(fields, "data") }),
        _ => Err(DecodeError::MalformedJson),
    }
}

} // verus!
