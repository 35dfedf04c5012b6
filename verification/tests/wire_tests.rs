use valid8r::client::Eth2Client;
use valid8r::json::{obj_get, parse_json, DecodeError, JsonValue};
use valid8r::probe::{
    eth1_request_body, eth2_request_path, nimbus_request_body, Eth1Probe, Eth2Probe,
};
use valid8r::strutil::{contains_str, eq_ignore_ascii_case_str, i64_to_dec, str_eq, u64_to_dec};
use valid8r::wire::{decode_rest_envelope, decode_rpc_response, encode_rpc_request, RpcRequest};

#[test]
fn request_envelope_text() {
    assert_eq!(
        encode_rpc_request("web3_clientVersion"),
        "{\"jsonrpc\":\"2.0\",\"method\":\"web3_clientVersion\",\"params\":[],\"id\":\"1\"}"
    );
    let req = RpcRequest::new("net_version");
    assert_eq!(
        req.encode(),
        "{\"jsonrpc\":\"2.0\",\"method\":\"net_version\",\"params\":[],\"id\":\"1\"}"
    );
}

#[test]
fn encoded_request_parses_back() {
    let body = encode_rpc_request("eth_syncing");
    let doc = parse_json(body.as_str()).unwrap();
    match &doc {
        JsonValue::Obj(fields) => {
            match obj_get(fields, "method") {
                Some(JsonValue::Str(m)) => assert_eq!(m.as_str(), "eth_syncing"),
                other => panic!("unexpected method field: {:?}", other),
            }
            match obj_get(fields, "jsonrpc") {
                Some(JsonValue::Str(v)) => assert_eq!(v.as_str(), "2.0"),
                other => panic!("unexpected jsonrpc field: {:?}", other),
            }
        }
        other => panic!("not an object: {:?}", other),
    }
}

#[test]
fn execution_probe_bodies() {
    assert!(eth1_request_body(&Eth1Probe::Version).contains("web3_clientVersion"));
    assert!(eth1_request_body(&Eth1Probe::NetworkIdentity).contains("net_version"));
    assert!(eth1_request_body(&Eth1Probe::SyncStatus).contains("eth_syncing"));
    assert!(eth1_request_body(&Eth1Probe::BlockNumber).contains("eth_blockNumber"));
    assert!(eth1_request_body(&Eth1Probe::PeerCount).contains("net_peerCount"));
    assert!(nimbus_request_body(&Eth2Probe::PeerCount).contains("get_v1_node_peer_count"));
}

#[test]
fn consensus_request_paths() {
    assert_eq!(
        eth2_request_path("http://127.0.0.1:3500", &Eth2Client::PRYSM, &Eth2Probe::PeerCount),
        "http://127.0.0.1:3500/eth/v1alpha1/node/peers"
    );
    assert_eq!(
        eth2_request_path("http://0.0.0.0:5052", &Eth2Client::LIGHTHOUSE, &Eth2Probe::Version),
        "http://0.0.0.0:5052/eth/v1/node/version"
    );
    assert_eq!(
        eth2_request_path("http://0.0.0.0:5052", &Eth2Client::TEKU, &Eth2Probe::SyncStatus),
        "http://0.0.0.0:5052/eth/v1/node/syncing"
    );
    assert_eq!(
        eth2_request_path("http://0.0.0.0:5052", &Eth2Client::TEKU, &Eth2Probe::PeerCount),
        "http://0.0.0.0:5052/eth/v1/node/peer_count"
    );
}

#[test]
fn malformed_json_is_refused() {
    assert!(matches!(parse_json("{oops"), Err(DecodeError::MalformedJson)));
    assert!(matches!(parse_json(""), Err(DecodeError::MalformedJson)));
}

#[test]
fn decode_envelopes() {
    let doc = parse_json("{\"id\":\"1\",\"jsonrpc\":\"2.0\",\"result\":\"1\"}").unwrap();
    let resp = decode_rpc_response(&doc).unwrap();
    assert_eq!(resp.id, Some("1"));
    assert_eq!(resp.jsonrpc, Some("2.0"));
    assert!(resp.error.is_none());
    match resp.result {
        Some(JsonValue::Str(s)) => assert_eq!(s.as_str(), "1"),
        other => panic!("unexpected result: {:?}", other),
    }

    let rest_doc = parse_json("{\"data\":{\"version\":\"x\"}}").unwrap();
    let rest = decode_rest_envelope(&rest_doc).unwrap();
    assert!(rest.data.is_some());

    let arr = parse_json("[1]").unwrap();
    assert!(decode_rpc_response(&arr).is_err());
    assert!(decode_rest_envelope(&arr).is_err());
}

#[test]
fn string_helpers() {
    assert!(str_eq("abc", "abc"));
    assert!(!str_eq("abc", "abd"));
    assert!(!str_eq("abc", "ab"));
    assert!(eq_ignore_ascii_case_str("GeTh", "geth"));
    assert!(!eq_ignore_ascii_case_str("geth2", "geth"));
    assert!(contains_str("hello world", "lo wo"));
    assert!(!contains_str("hello", "world"));
    assert!(contains_str("abc", ""));
}

#[test]
fn decimal_rendering() {
    assert_eq!(u64_to_dec(0), "0");
    assert_eq!(u64_to_dec(17), "17");
    assert_eq!(u64_to_dec(1234567890), "1234567890");
    assert_eq!(i64_to_dec(-42), "-42");
    assert_eq!(i64_to_dec(i64::MIN), "-9223372036854775808");
    assert_eq!(i64_to_dec(i64::MAX), "9223372036854775807");
}
