//! Probe interpretation: turns one HTTP exchange into the uniform raw
//! observation the evaluator consumes, normalizing over the families'
//! incompatible wire shapes — JSON-RPC versus REST envelopes, hex versus
//! decimal integer encodings, boolean versus object syncing payloads.

use vstd::prelude::*;
use crate::client::Eth2Client;
use crate::hexnum::{ParseError, parse_dec, parse_hex, spec_parse_dec, spec_parse_hex};
use crate::json::{JsonValue, json_doc, obj_get, parse_json, spec_obj_get};
use crate::outcome::{HttpOutcome, ProbeError};
use crate::wire::{RestResponse, decode_rest_envelope, decode_rpc_response, opt_deref};

verus! {

/// A node's reported sync position. For execution clients `progress` is
/// the current block the syncing node reports; for consensus clients it is
/// the reported sync distance.
#[derive(Clone, Copy, Debug, PartialEq, Eq, Structural)]
pub enum SyncState {
    /// The node reports itself in sync; the chain head when it gave one.
    Synced { head: Option<i64> },
    /// The node is still syncing; a progress number when it gave one.
    Syncing { progress: Option<i64> },
}

/// The probes this library issues against an execution client's JSON-RPC
/// endpoint. Every family answers the same methods.
#[derive(Clone, Copy, Debug, PartialEq, Eq, Structural)]
pub enum Eth1Probe {
    Version,
    NetworkIdentity,
    SyncStatus,
    BlockNumber,
    PeerCount,
}

/// The probes this library issues against a consensus client.
#[derive(Clone, Copy, Debug, PartialEq, Eq, Structural)]
pub enum Eth2Probe {
    Version,
    SyncStatus,
    PeerCount,
}

/// The JSON-RPC method behind each execution probe.
pub open spec fn spec_eth1_method(p: Eth1Probe) -> Seq<char> {
    match p {
        Eth1Probe::Version => "web3_clientVersion"@,
        Eth1Probe::NetworkIdentity => "net_version"@,
        Eth1Probe::SyncStatus => "eth_syncing"@,
        Eth1Probe::BlockNumber => "eth_blockNumber"@,
        Eth1Probe::PeerCount => "net_peerCount"@,
    }
}

/// The request body of one execution probe.
pub fn eth1_request_body(p: &Eth1Probe) -> (r: String)
    ensures
        r@ == crate::wire::rpc_request_text(spec_eth1_method(*p)),
{
    match p {
        Eth1Probe::Version => crate::wire::encode_rpc_request("web3_clientVersion"),
        Eth1Probe::NetworkIdentity => crate::wire::encode_rpc_request("net_version"),
        Eth1Probe::SyncStatus => crate::wire::encode_rpc_request("eth_syncing"),
        Eth1Probe::BlockNumber => crate::wire::encode_rpc_request("eth_blockNumber"),
        Eth1Probe::PeerCount => crate::wire::encode_rpc_request("net_peerCount"),
    }
}

/// The JSON-RPC method behind each probe of the RPC-style consensus family.
pub open spec fn spec_nimbus_method(p: Eth2Probe) -> Seq<char> {
    match p {
        Eth2Probe::Version => "getNodeVersion"@,
        Eth2Probe::SyncStatus => "getSyncing"@,
        Eth2Probe::PeerCount => "get_v1_node_peer_count"@,
    }
}

/// The request body of one probe of the RPC-style consensus family.
pub fn nimbus_request_body(p: &Eth2Probe) -> (r: String)
    ensures
        r@ == crate::wire::rpc_request_text(spec_nimbus_method(*p)),
{
    match p {
        Eth2Probe::Version => crate::wire::encode_rpc_request("getNodeVersion"),
        Eth2Probe::SyncStatus => crate::wire::encode_rpc_request("getSyncing"),
        Eth2Probe::PeerCount => crate::wire::encode_rpc_request("get_v1_node_peer_count"),
    }
}

/// The REST path segment naming the API version: `v1alpha1` for the
/// array-based alternate family, `v1` for the other REST families. This is
/// a fixed per-family constant, never inferred.
pub open spec fn spec_api_segment(c: Eth2Client) -> Seq<char> {
    if c == Eth2Client::PRYSM {
        "v1alpha1"@
    } else {
        "v1"@
    }
}

/// The resource name of one REST probe; the array-based family counts the
/// `peers` array, the others read `peer_count`.
pub open spec fn spec_eth2_resource(c: Eth2Client, p: Eth2Probe) -> Seq<char> {
    match p {
        Eth2Probe::Version => "version"@,
        Eth2Probe::SyncStatus => "syncing"@,
        Eth2Probe::PeerCount => if c == Eth2Client::PRYSM {
            "peers"@
        } else {
            "peer_count"@
        },
    }
}

/// The full REST request path of one consensus probe:
/// `{base}/eth/{apiVersion}/node/{resource}`.
pub fn eth2_request_path(base: &str, c: &Eth2Client, p: &Eth2Probe) -> (r: String)
    ensures
        r@ == base@ + "/eth/"@ + spec_api_segment(*c) + "/node/"@ + spec_eth2_resource(*c, *p),
{
    let mut s = String::from_str(base);
    s.append("/eth/");
    match c {
        Eth2Client::PRYSM => s.append("v1alpha1"),
        _ => s.append("v1"),
    }
    s.append("/node/");
    match p {
        Eth2Probe::Version => s.append("version"),
        Eth2Probe::SyncStatus => s.append("syncing"),
        Eth2Probe::PeerCount => match c {
            Eth2Client::PRYSM => s.append("peers"),
            _ => s.append("peer_count"),
        },
    }
    s
}

/// The parsed JSON document of a completed exchange: transport failures,
/// non-200 statuses and malformed bodies are refused.
pub open spec fn spec_http_json(outcome: HttpOutcome) -> Result<JsonValue, ProbeError> {
    match outcome {
        HttpOutcome::Unreachable => Err(ProbeError::Unreachable),
        HttpOutcome::TimedOut => Err(ProbeError::Timeout),
        HttpOutcome::Reply { status, body } => if status != 200 {
            Err(ProbeError::BadStatus(status))
        } else {
            match json_doc(body@) {
                None => Err(ProbeError::MalformedJson),
                Some(doc) => Ok(doc),
            }
        },
    }
}

/// The probe error standing for a JSON-RPC reply without a usable result:
/// an explicit error object is surfaced with its code and message, a reply
/// lacking both is "no result".
pub open spec fn spec_missing_error(err: Option<JsonValue>) -> ProbeError {
    match err {
        Some(e) => ProbeError::RpcError { code: spec_err_code(e), message: spec_err_message(e) },
        None => ProbeError::NoResult,
    }
}

/// The `code` field of a JSON-RPC error object, when it is an integer.
pub open spec fn spec_err_code(e: JsonValue) -> Option<i64> {
    match e {
        JsonValue::Obj(f) => match spec_obj_get(f@, "code"@) {
            Some(JsonValue::Int(i)) => Some(i),
            _ => None,
        },
        _ => None,
    }
}

/// The `message` field of a JSON-RPC error object, when it is a string.
pub open spec fn spec_err_message(e: JsonValue) -> Option<String> {
    match e {
        JsonValue::Obj(f) => match spec_obj_get(f@, "message"@) {
            Some(JsonValue::Str(s)) => Some(s),
            _ => None,
        },
        _ => None,
    }
}

/// The payload of a JSON-RPC exchange: the `result` value when present and
/// non-null, the explicit error otherwise.
pub open spec fn spec_rpc_data(outcome: HttpOutcome) -> Result<JsonValue, ProbeError> {
    match spec_http_json(outcome) {
        Err(e) => Err(e),
        Ok(doc) => match doc {
            JsonValue::Obj(fields) => match spec_obj_get(fields@, "result"@) {
                Some(v) => if v is Null {
                    Err(spec_missing_error(spec_obj_get(fields@, "error"@)))
                } else {
                    Ok(v)
                },
                None => Err(spec_missing_error(spec_obj_get(fields@, "error"@))),
            },
            _ => Err(ProbeError::MalformedJson),
        },
    }
}

/// The payload of a REST exchange: the value under `data`. A well-formed
/// object without `data` is the distinct "no data" condition, occurring
/// legitimately while a client is still initializing.
pub open spec fn spec_rest_data(outcome: HttpOutcome) -> Result<JsonValue, ProbeError> {
    match spec_http_json(outcome) {
        Err(e) => Err(e),
        Ok(doc) => match doc {
            JsonValue::Obj(fields) => match spec_obj_get(fields@, "data"@) {
                Some(v) => Ok(v),
                None => Err(ProbeError::NoData),
            },
            _ => Err(ProbeError::MalformedJson),
        },
    }
}

/// A JSON-RPC probe whose result is a plain string (client version,
/// network identity).
pub open spec fn spec_rpc_result_string(outcome: HttpOutcome) -> Result<String, ProbeError> {
    match spec_rpc_data(outcome) {
        Err(e) => Err(e),
        Ok(JsonValue::Str(s)) => Ok(s),
        Ok(_) => Err(ProbeError::NoResult),
    }
}

/// A JSON-RPC probe whose result is a hex-encoded integer string (peer
/// count, block number).
pub open spec fn spec_rpc_result_hex(outcome: HttpOutcome) -> Result<i64, ProbeError> {
    match spec_rpc_data(outcome) {
        Err(e) => Err(e),
        Ok(JsonValue::Str(s)) => match spec_parse_hex(s@) {
            Ok(v) => Ok(v),
            Err(ParseError::NotHex) => Err(ProbeError::NotHex),
            Err(ParseError::Overflow) => Err(ProbeError::Overflow),
        },
        Ok(_) => Err(ProbeError::NoResult),
    }
}

/// Turns a JSON-RPC reply without a usable result into its probe error.
fn missing_result_error(error: Option<&JsonValue>) -> (r: ProbeError)
    ensures
        r == spec_missing_error(opt_deref(error)),
{
    match error {
        Some(e) => {
            let code = match e {
                JsonValue::Obj(f) => match obj_get(f, "code") {
                    Some(v) => match v {
                        JsonValue::Int(i) => Some(*i),
                        _ => None,
                    },
                    None => None,
                },
                _ => None,
            };
            let message = match e {
                JsonValue::Obj(f) => match obj_get(f, "message") {
                    Some(v) => match v {
                        JsonValue::Str(s) => Some(s.clone()),
                        _ => None,
                    },
                    None => None,
                },
                _ => None,
            };
            ProbeError::RpcError { code, message }
        },
        None => ProbeError::NoResult,
    }
}

/// Interprets a JSON-RPC exchange whose result is a plain string.
pub fn rpc_result_string(outcome: &HttpOutcome) -> (r: Result<String, ProbeError>)
    ensures
        r == spec_rpc_result_string(*outcome),
{
    let (status, body) = match outcome {
        HttpOutcome::Reply { status, body } => (*status, body),
        HttpOutcome::Unreachable => {
            return Err(ProbeError::Unreachable);
        },
        HttpOutcome::TimedOut => {
            return Err(ProbeError::Timeout);
        },
    };
    if status != 200 {
        return Err(ProbeError::BadStatus(status));
    }
    let doc = match parse_json(body.as_str()) {
        Ok(d) => d,
        Err(_) => {
            return Err(ProbeError::MalformedJson);
        },
    };
    let resp = match decode_rpc_response(&doc) {
        Ok(x) => x,
        Err(_) => {
            return Err(ProbeError::MalformedJson);
        },
    };
    match resp.result {
        Some(v) => match v {
            JsonValue::Str(s) => Ok(s.clone()),
            JsonValue::Null => Err(missing_result_error(resp.error)),
            _ => Err(ProbeError::NoResult),
        },
        None => Err(missing_result_error(resp.error)),
    }
}

/// Interprets a JSON-RPC exchange whose result is a hex-encoded integer.
pub fn rpc_result_hex(outcome: &HttpOutcome) -> (r: Result<i64, ProbeError>)
    ensures
        r == spec_rpc_result_hex(*outcome),
{
    let (status, body) = match outcome {
        HttpOutcome::Reply { status, body } => (*status, body),
        HttpOutcome::Unreachable => {
            return Err(ProbeError::Unreachable);
        },
        HttpOutcome::TimedOut => {
            return Err(ProbeError::Timeout);
        },
    };
    if status != 200 {
        return Err(ProbeError::BadStatus(status));
    }
    let doc = match parse_json(body.as_str()) {
        Ok(d) => d,
        Err(_) => {
            return Err(ProbeError::MalformedJson);
        },
    };
    let resp = match decode_rpc_response(&doc) {
        Ok(x) => x,
        Err(_) => {
            return Err(ProbeError::MalformedJson);
        },
    };
    match resp.result {
        Some(v) => match v {
            JsonValue::Str(s) => match parse_hex(s.as_str()) {
                Ok(n) => Ok(n),
                Err(ParseError::NotHex) => Err(ProbeError::NotHex),
                Err(ParseError::Overflow) => Err(ProbeError::Overflow),
            },
            JsonValue::Null => Err(missing_result_error(resp.error)),
            _ => Err(ProbeError::NoResult),
        },
        None => Err(missing_result_error(resp.error)),
    }
}

/// The block number in a hex result, kept only when it parses.
pub open spec fn spec_opt_hex(r: Result<JsonValue, ProbeError>) -> Option<i64> {
    match r {
        Ok(JsonValue::Str(s)) => match spec_parse_hex(s@) {
            Ok(n) => Some(n),
            Err(_) => None,
        },
        _ => None,
    }
}

/// The sync position an execution client reports: `eth_syncing` answers
/// `false` (in sync) or a detail object; any non-false result counts as
/// syncing in progress, with `currentBlock` extracted opportunistically.
/// The chain head for the in-sync report comes from the separate
/// `eth_blockNumber` exchange.
pub open spec fn spec_eth1_sync_status(syncing: HttpOutcome, block: HttpOutcome) -> Result<
    SyncState,
    ProbeError,
> {
    match spec_rpc_data(syncing) {
        Err(e) => Err(e),
        Ok(v) => match v {
            JsonValue::Bool(b) => if !b {
                Ok(SyncState::Synced { head: spec_opt_hex(spec_rpc_data(block)) })
            } else {
                Ok(SyncState::Syncing { progress: None })
            },
            JsonValue::Obj(f) => Ok(
                SyncState::Syncing {
                    progress: (match spec_obj_get(f@, "currentBlock"@) {
                        Some(JsonValue::Str(s)) => match spec_parse_hex(s@) {
                            Ok(n) => Some(n),
                            Err(_) => None,
                        },
                        _ => None,
                    }),
                },
            ),
            _ => Err(ProbeError::NoResult),
        },
    }
}

/// Interprets the pair of execution sync exchanges.
pub fn eth1_sync_status(syncing: &HttpOutcome, block: &HttpOutcome) -> (r: Result<
    SyncState,
    ProbeError,
>)
    ensures
        r == spec_eth1_sync_status(*syncing, *block),
{
    let (status, body) = match syncing {
        HttpOutcome::Reply { status, body } => (*status, body),
        HttpOutcome::Unreachable => {
            return Err(ProbeError::Unreachable);
        },
        HttpOutcome::TimedOut => {
            return Err(ProbeError::Timeout);
        },
    };
    if status != 200 {
        return Err(ProbeError::BadStatus(status));
    }
    let doc = match parse_json(body.as_str()) {
        Ok(d) => d,
        Err(_) => {
            return Err(ProbeError::MalformedJson);
        },
    };
    let resp = match decode_rpc_response(&doc) {
        Ok(x) => x,
        Err(_) => {
            return Err(ProbeError::MalformedJson);
        },
    };
    match resp.result {
        Some(v) => match v {
            JsonValue::Bool(b) => {
                if !*b {
                    let head = match rpc_result_hex(block) {
                        Ok(n) => Some(n),
                        Err(_) => None,
                    };
                    proof {
                        assert(head == spec_opt_hex(spec_rpc_data(*block)));
                    }
                    Ok(SyncState::Synced { head })
                } else {
                    Ok(SyncState::Syncing { progress: None })
                }
            },
            JsonValue::Obj(f) => {
                let progress = match obj_get(f, "currentBlock") {
                    Some(cb) => match cb {
                        JsonValue::Str(s) => match parse_hex(s.as_str()) {
                            Ok(n) => Some(n),
                            Err(_) => None,
                        },
                        _ => None,
                    },
                    None => None,
                };
                Ok(SyncState::Syncing { progress })
            },
            JsonValue::Null => Err(missing_result_error(resp.error)),
            _ => Err(ProbeError::NoResult),
        },
        None => Err(missing_result_error(resp.error)),
    }
}

/// The sync position a REST consensus client reports:
/// `data.is_syncing` decides, and while syncing the decimal
/// `data.sync_distance` is surfaced opportunistically.
pub open spec fn spec_eth2_sync_check(outcome: HttpOutcome) -> Result<SyncState, ProbeError> {
    match spec_rest_data(outcome) {
        Err(e) => Err(e),
        Ok(data) => match data {
            JsonValue::Obj(f) => match spec_obj_get(f@, "is_syncing"@) {
                Some(JsonValue::Bool(b)) => if b {
                    Ok(
                        SyncState::Syncing {
                            progress: (match spec_obj_get(f@, "sync_distance"@) {
                                Some(JsonValue::Str(s)) => match spec_parse_dec(s@) {
                                    Ok(n) => Some(n),
                                    Err(_) => None,
                                },
                                _ => None,
                            }),
                        },
                    )
                } else {
                    Ok(SyncState::Synced { head: None })
                },
                _ => Err(ProbeError::NoResult),
            },
            _ => Err(ProbeError::NoResult),
        },
    }
}

/// Interprets a REST consensus sync exchange.
pub fn eth2_sync_check(outcome: &HttpOutcome) -> (r: Result<SyncState, ProbeError>)
    ensures
        r == spec_eth2_sync_check(*outcome),
{
    let (status, body) = match outcome {
        HttpOutcome::Reply { status, body } => (*status, body),
        HttpOutcome::Unreachable => {
            return Err(ProbeError::Unreachable);
        },
        HttpOutcome::TimedOut => {
            return Err(ProbeError::Timeout);
        },
    };
    if status != 200 {
        return Err(ProbeError::BadStatus(status));
    }
    let doc = match parse_json(body.as_str()) {
        Ok(d) => d,
        Err(_) => {
            return Err(ProbeError::MalformedJson);
        },
    };
    let resp = match decode_rest_envelope(&doc) {
        Ok(x) => x,
        Err(_) => {
            return Err(ProbeError::MalformedJson);
        },
    };
    let data = match resp.data {
        Some(d) => d,
        None => {
            return Err(ProbeError::NoData);
        },
    };
    match data {
        JsonValue::Obj(f) => match obj_get(f, "is_syncing") {
            Some(v) => match v {
                JsonValue::Bool(b) => {
                    if *b {
                        let progress = match obj_get(f, "sync_distance") {
                            Some(sd) => match sd {
                                JsonValue::Str(s) => match parse_dec(s.as_str()) {
                                    Ok(n) => Some(n),
                                    Err(_) => None,
                                },
                                _ => None,
                            },
                            None => None,
                        };
                        Ok(SyncState::Syncing { progress })
                    } else {
                        Ok(SyncState::Synced { head: None })
                    }
                },
                _ => Err(ProbeError::NoResult),
            },
            None => Err(ProbeError::NoResult),
        },
        _ => Err(ProbeError::NoResult),
    }
}

/// The sync position the RPC-style consensus family reports: `getSyncing`
/// answers a boolean; a detail object instead of a boolean means the node
/// is still syncing and is surfaced as the distinct "not synced" error.
pub open spec fn spec_nimbus_sync_status(outcome: HttpOutcome) -> Result<SyncState, ProbeError> {
    match spec_rpc_data(outcome) {
        Err(e) => Err(e),
        Ok(v) => match v {
            JsonValue::Bool(b) => if b {
                Ok(SyncState::Syncing { progress: None })
            } else {
                Ok(SyncState::Synced { head: None })
            },
            JsonValue::Obj(_) => Err(ProbeError::NotSynced),
            _ => Err(ProbeError::NoResult),
        },
    }
}

/// Interprets a `getSyncing` exchange of the RPC-style consensus family.
pub fn nimbus_sync_status(outcome: &HttpOutcome) -> (r: Result<SyncState, ProbeError>)
    ensures
        r == spec_nimbus_sync_status(*outcome),
{
    let (status, body) = match outcome {
        HttpOutcome::Reply { status, body } => (*status, body),
        HttpOutcome::Unreachable => {
            return Err(ProbeError::Unreachable);
        },
        HttpOutcome::TimedOut => {
            return Err(ProbeError::Timeout);
        },
    };
    if status != 200 {
        return Err(ProbeError::BadStatus(status));
    }
    let doc = match parse_json(body.as_str()) {
        Ok(d) => d,
        Err(_) => {
            return Err(ProbeError::MalformedJson);
        },
    };
    let resp = match decode_rpc_response(&doc) {
        Ok(x) => x,
        Err(_) => {
            return Err(ProbeError::MalformedJson);
        },
    };
    match resp.result {
        Some(v) => match v {
            JsonValue::Bool(b) => {
                if *b {
                    Ok(SyncState::Syncing { progress: None })
                } else {
                    Ok(SyncState::Synced { head: None })
                }
            },
            JsonValue::Obj(_) => Err(ProbeError::NotSynced),
            JsonValue::Null => Err(missing_result_error(resp.error)),
            _ => Err(ProbeError::NoResult),
        },
        None => Err(missing_result_error(resp.error)),
    }
}

/// The version string in a REST envelope's `data.version`.
pub open spec fn spec_parse_ver(data: Option<JsonValue>) -> Result<String, ProbeError> {
    match data {
        Some(JsonValue::Obj(f)) => match spec_obj_get(f@, "version"@) {
            Some(JsonValue::Str(s)) => Ok(s),
            _ => Err(ProbeError::NoResult),
        },
        Some(_) => Err(ProbeError::NoResult),
        None => Err(ProbeError::NoData),
    }
}

/// Extracts the reported version string from a decoded REST envelope.
pub fn parse_ver(pay: &RestResponse<'_>) -> (r: Result<String, ProbeError>)
    ensures
        r == spec_parse_ver(opt_deref(pay.data)),
{
    match pay.data {
        Some(d) => match d {
            JsonValue::Obj(f) => match obj_get(f, "version") {
                Some(v) => match v {
                    JsonValue::Str(s) => Ok(s.clone()),
                    _ => Err(ProbeError::NoResult),
                },
                None => Err(ProbeError::NoResult),
            },
            _ => Err(ProbeError::NoResult),
        },
        None => Err(ProbeError::NoData),
    }
}

/// The version string a consensus client reports: the RPC-style family
/// answers it as a JSON-RPC string result, the REST families under
/// `data.version`.
pub open spec fn spec_eth2_version(c: Eth2Client, outcome: HttpOutcome) -> Result<
    String,
    ProbeError,
> {
    if c == Eth2Client::NIMBUS {
        spec_rpc_result_string(outcome)
    } else {
        match spec_rest_data(outcome) {
            Err(e) => Err(e),
            Ok(data) => spec_parse_ver(Some(data)),
        }
    }
}

/// Interprets a consensus version exchange, branching on the family's
/// transport but presenting one return type upward.
pub fn eth2_version(c: &Eth2Client, outcome: &HttpOutcome) -> (r: Result<String, ProbeError>)
    ensures
        r == spec_eth2_version(*c, *outcome),
{
    match c {
        Eth2Client::NIMBUS => rpc_result_string(outcome),
        _ => {
            let (status, body) = match outcome {
                HttpOutcome::Reply { status, body } => (*status, body),
                HttpOutcome::Unreachable => {
                    return Err(ProbeError::Unreachable);
                },
                HttpOutcome::TimedOut => {
                    return Err(ProbeError::Timeout);
                },
            };
            if status != 200 {
                return Err(ProbeError::BadStatus(status));
            }
            let doc = match parse_json(body.as_str()) {
                Ok(d) => d,
                Err(_) => {
                    return Err(ProbeError::MalformedJson);
                },
            };
            let resp = match decode_rest_envelope(&doc) {
                Ok(x) => x,
                Err(_) => {
                    return Err(ProbeError::MalformedJson);
                },
            };
            match resp.data {
                Some(_) => parse_ver(&resp),
                None => Err(ProbeError::NoData),
            }
        },
    }
}

/// The peer count a consensus client reports. The array-based alternate
/// family exposes a top-level `peers` array whose length is the count; the
/// RPC-style family nests `connected` as an integer inside `result`; the
/// other REST families carry it as a decimal string under
/// `data.connected`.
pub open spec fn spec_eth2_peer_count(c: Eth2Client, outcome: HttpOutcome) -> Result<
    i64,
    ProbeError,
> {
    if c == Eth2Client::PRYSM {
        match spec_http_json(outcome) {
            Err(e) => Err(e),
            Ok(doc) => match doc {
                JsonValue::Obj(f) => match spec_obj_get(f@, "peers"@) {
                    Some(JsonValue::Arr(items)) => if items@.len() > i64::MAX {
                        Err(ProbeError::Overflow)
                    } else {
                        Ok(items@.len() as i64)
                    },
                    _ => Err(ProbeError::NoResult),
                },
                _ => Err(ProbeError::MalformedJson),
            },
        }
    } else if c == Eth2Client::NIMBUS {
        match spec_rpc_data(outcome) {
            Err(e) => Err(e),
            Ok(v) => match v {
                JsonValue::Obj(f) => match spec_obj_get(f@, "connected"@) {
                    Some(JsonValue::Int(i)) => Ok(i),
                    _ => Err(ProbeError::NoResult),
                },
                _ => Err(ProbeError::NoResult),
            },
        }
    } else {
        match spec_rest_data(outcome) {
            Err(e) => Err(e),
            Ok(data) => match data {
                JsonValue::Obj(f) => match spec_obj_get(f@, "connected"@) {
                    Some(JsonValue::Str(s)) => match spec_parse_dec(s@) {
                        Ok(n) => Ok(n),
                        Err(ParseError::NotHex) => Err(ProbeError::NotHex),
                        Err(ParseError::Overflow) => Err(ProbeError::Overflow),
                    },
                    _ => Err(ProbeError::NoResult),
                },
                _ => Err(ProbeError::NoResult),
            },
        }
    }
}

/// Interprets a consensus peer-count exchange, branching on the family's
/// wire convention but presenting one return type upward.
pub fn eth2_peer_count(c: &Eth2Client, outcome: &HttpOutcome) -> (r: Result<i64, ProbeError>)
    ensures
        r == spec_eth2_peer_count(*c, *outcome),
{
    let (status, body) = match outcome {
        HttpOutcome::Reply { status, body } => (*status, body),
        HttpOutcome::Unreachable => {
            return Err(ProbeError::Unreachable);
        },
        HttpOutcome::TimedOut => {
            return Err(ProbeError::Timeout);
        },
    };
    if status != 200 {
        return Err(ProbeError::BadStatus(status));
    }
    let doc = match parse_json(body.as_str()) {
        Ok(d) => d,
        Err(_) => {
            return Err(ProbeError::MalformedJson);
        },
    };
    match c {
        Eth2Client::PRYSM => match &doc {
            JsonValue::Obj(f) => match obj_get(f, "peers") {
                Some(v) => match v {
                    JsonValue::Arr(items) => {
                        let n = items.len();
                        if n as u64 > 9223372036854775807u64 {
                            Err(ProbeError::Overflow)
                        } else {
                            Ok(n as i64)
                        }
                    },
                    _ => Err(ProbeError::NoResult),
                },
                None => Err(ProbeError::NoResult),
            },
            _ => Err(ProbeError::MalformedJson),
        },
        Eth2Client::NIMBUS => {
            let resp = match decode_rpc_response(&doc) {
                Ok(x) => x,
                Err(_) => {
                    return Err(ProbeError::MalformedJson);
                },
            };
            match resp.result {
                Some(v) => match v {
                    JsonValue::Obj(f) => match obj_get(f, "connected") {
                        Some(cv) => match cv {
                            JsonValue::Int(i) => Ok(*i),
                            _ => Err(ProbeError::NoResult),
                        },
                        None => Err(ProbeError::NoResult),
                    },
                    JsonValue::Null => Err(missing_result_error(resp.error)),
                    _ => Err(ProbeError::NoResult),
                },
                None => Err(missing_result_error(resp.error)),
            }
        },
        _ => {
            let resp = match decode_rest_envelope(&doc) {
                Ok(x) => x,
                Err(_) => {
                    return Err(ProbeError::MalformedJson);
                },
            };
            let data = match resp.data {
                Some(d) => d,
                None => {
                    return Err(ProbeError::NoData);
                },
            };
            match data {
                JsonValue::Obj(f) => match obj_get(f, "connected") {
                    Some(v) => match v {
                        JsonValue::Str(s) => match parse_dec(s.as_str()) {
                            Ok(n) => Ok(n),
                            Err(ParseError::NotHex) => Err(ProbeError::NotHex),
                            Err(ParseError::Overflow) => Err(ProbeError::Overflow),
                        },
                        _ => Err(ProbeError::NoResult),
                    },
                    None => Err(ProbeError::NoResult),
                },
                _ => Err(ProbeError::NoResult),
            }
        },
    }
}

} // verus!
