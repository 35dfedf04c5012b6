use valid8r::client::Eth2Client;
use valid8r::outcome::{HttpOutcome, ProbeError};
use valid8r::probe::{
    eth1_sync_status, eth2_peer_count, eth2_sync_check, eth2_version, nimbus_sync_status,
    rpc_result_hex, rpc_result_string, SyncState,
};

fn reply(body: &str) -> HttpOutcome {
    HttpOutcome::Reply { status: 200, body: String::from(body) }
}

#[test]
fn rpc_string_result() {
    let out = reply("{\"id\":\"1\",\"jsonrpc\":\"2.0\",\"result\":\"Geth/v1.9.25\"}");
    assert_eq!(rpc_result_string(&out), Ok(String::from("Geth/v1.9.25")));
}

#[test]
fn rpc_transport_failures() {
    assert_eq!(rpc_result_string(&HttpOutcome::Unreachable), Err(ProbeError::Unreachable));
    assert_eq!(rpc_result_string(&HttpOutcome::TimedOut), Err(ProbeError::Timeout));
}

#[test]
fn rpc_bad_status() {
    let out = HttpOutcome::Reply { status: 500, body: String::from("{}") };
    assert_eq!(rpc_result_string(&out), Err(ProbeError::BadStatus(500)));
}

#[test]
fn rpc_malformed_body() {
    let out = reply("{{{");
    assert_eq!(rpc_result_string(&out), Err(ProbeError::MalformedJson));
    let arr = reply("[1,2]");
    assert_eq!(rpc_result_string(&arr), Err(ProbeError::MalformedJson));
}

#[test]
fn rpc_error_object_is_surfaced() {
    let out = reply(
        "{\"id\":\"1\",\"jsonrpc\":\"2.0\",\"error\":{\"code\":-32601,\"message\":\"method not found\"}}",
    );
    assert_eq!(
        rpc_result_string(&out),
        Err(ProbeError::RpcError {
            code: Some(-32601),
            message: Some(String::from("method not found")),
        })
    );
}

#[test]
fn rpc_all_absent_is_no_result() {
    let out = reply("{\"id\":\"1\",\"jsonrpc\":\"2.0\"}");
    assert_eq!(rpc_result_string(&out), Err(ProbeError::NoResult));
    let null_result = reply("{\"id\":\"1\",\"jsonrpc\":\"2.0\",\"result\":null}");
    assert_eq!(rpc_result_string(&null_result), Err(ProbeError::NoResult));
}

#[test]
fn rpc_hex_result() {
    let out = reply("{\"id\":\"1\",\"jsonrpc\":\"2.0\",\"result\":\"0x11\"}");
    assert_eq!(rpc_result_hex(&out), Ok(17));
    let bad = reply("{\"id\":\"1\",\"jsonrpc\":\"2.0\",\"result\":\"0xzz\"}");
    assert_eq!(rpc_result_hex(&bad), Err(ProbeError::NotHex));
    let wide = reply("{\"id\":\"1\",\"jsonrpc\":\"2.0\",\"result\":\"0xffffffffffffffffff\"}");
    assert_eq!(rpc_result_hex(&wide), Err(ProbeError::Overflow));
}

#[test]
fn eth1_sync_in_sync_reads_head() {
    let syncing = reply("{\"id\":\"1\",\"jsonrpc\":\"2.0\",\"result\":false}");
    let block = reply("{\"id\":\"1\",\"jsonrpc\":\"2.0\",\"result\":\"0x100\"}");
    assert_eq!(eth1_sync_status(&syncing, &block), Ok(SyncState::Synced { head: Some(256) }));
}

#[test]
fn eth1_sync_object_reads_current_block() {
    let syncing = reply(
        "{\"id\":\"1\",\"jsonrpc\":\"2.0\",\"result\":{\"currentBlock\":\"0x2a\",\"highestBlock\":\"0xff\"}}",
    );
    let block = HttpOutcome::Unreachable;
    assert_eq!(
        eth1_sync_status(&syncing, &block),
        Ok(SyncState::Syncing { progress: Some(42) })
    );
}

#[test]
fn eth1_sync_true_without_detail() {
    let syncing = reply("{\"id\":\"1\",\"jsonrpc\":\"2.0\",\"result\":true}");
    let block = HttpOutcome::Unreachable;
    assert_eq!(eth1_sync_status(&syncing, &block), Ok(SyncState::Syncing { progress: None }));
}

#[test]
fn eth1_sync_head_unreadable_is_tolerated() {
    let syncing = reply("{\"id\":\"1\",\"jsonrpc\":\"2.0\",\"result\":false}");
    let block = reply("{\"id\":\"1\",\"jsonrpc\":\"2.0\",\"result\":null}");
    assert_eq!(eth1_sync_status(&syncing, &block), Ok(SyncState::Synced { head: None }));
}

#[test]
fn rest_sync_check() {
    let synced = reply("{\"data\":{\"is_syncing\":false,\"head_slot\":\"123\"}}");
    assert_eq!(eth2_sync_check(&synced), Ok(SyncState::Synced { head: None }));
    let syncing = reply("{\"data\":{\"is_syncing\":true,\"sync_distance\":\"97\"}}");
    assert_eq!(eth2_sync_check(&syncing), Ok(SyncState::Syncing { progress: Some(97) }));
    let no_distance = reply("{\"data\":{\"is_syncing\":true}}");
    assert_eq!(eth2_sync_check(&no_distance), Ok(SyncState::Syncing { progress: None }));
}

#[test]
fn rest_sync_check_without_data_is_no_data() {
    let empty = reply("{}");
    assert_eq!(eth2_sync_check(&empty), Err(ProbeError::NoData));
    let wrong = reply("{\"data\":{\"head_slot\":\"1\"}}");
    assert_eq!(eth2_sync_check(&wrong), Err(ProbeError::NoResult));
}

#[test]
fn nimbus_sync_variants() {
    let synced = reply("{\"id\":\"1\",\"jsonrpc\":\"2.0\",\"result\":false}");
    assert_eq!(nimbus_sync_status(&synced), Ok(SyncState::Synced { head: None }));
    let syncing = reply("{\"id\":\"1\",\"jsonrpc\":\"2.0\",\"result\":true}");
    assert_eq!(nimbus_sync_status(&syncing), Ok(SyncState::Syncing { progress: None }));
    let object = reply(
        "{\"id\":\"1\",\"jsonrpc\":\"2.0\",\"result\":{\"starting_slot\":1}}",
    );
    assert_eq!(nimbus_sync_status(&object), Err(ProbeError::NotSynced));
}

#[test]
fn eth2_version_by_family() {
    let rest = reply("{\"data\":{\"version\":\"Lighthouse/v1.1.0\"}}");
    assert_eq!(
        eth2_version(&Eth2Client::LIGHTHOUSE, &rest),
        Ok(String::from("Lighthouse/v1.1.0"))
    );
    let rpc = reply("{\"id\":\"1\",\"jsonrpc\":\"2.0\",\"result\":\"Nimbus/v1.0.2\"}");
    assert_eq!(eth2_version(&Eth2Client::NIMBUS, &rpc), Ok(String::from("Nimbus/v1.0.2")));
    let no_data = reply("{}");
    assert_eq!(eth2_version(&Eth2Client::TEKU, &no_data), Err(ProbeError::NoData));
}

#[test]
fn eth2_peer_count_by_family() {
    let prysm = reply("{\"peers\":[1,2,3]}");
    assert_eq!(eth2_peer_count(&Eth2Client::PRYSM, &prysm), Ok(3));
    let rest = reply("{\"data\":{\"connected\":\"56\"}}");
    assert_eq!(eth2_peer_count(&Eth2Client::LIGHTHOUSE, &rest), Ok(56));
    let nimbus = reply("{\"id\":\"1\",\"jsonrpc\":\"2.0\",\"result\":{\"connected\":12}}");
    assert_eq!(eth2_peer_count(&Eth2Client::NIMBUS, &nimbus), Ok(12));
}

#[test]
fn eth2_peer_count_bad_shapes() {
    let prysm_missing = reply("{\"connected\":\"5\"}");
    assert_eq!(eth2_peer_count(&Eth2Client::PRYSM, &prysm_missing), Err(ProbeError::NoResult));
    let rest_bad = reply("{\"data\":{\"connected\":\"5x\"}}");
    assert_eq!(eth2_peer_count(&Eth2Client::TEKU, &rest_bad), Err(ProbeError::NotHex));
}
