use valid8r::client::Eth2Client;
use valid8r::evaluate::{Severity, SignalKind};
use valid8r::outcome::HttpOutcome;
use valid8r::report::{eth1_report, eth2_report, Eth1Observations, Eth2Observations};

fn reply(body: &str) -> HttpOutcome {
    HttpOutcome::Reply { status: 200, body: String::from(body) }
}

fn healthy_eth1_observations() -> Eth1Observations {
    Eth1Observations {
        version: reply(
            "{\"id\":\"1\",\"jsonrpc\":\"2.0\",\"result\":\"Geth/v1.9.25-stable/linux-amd64\"}",
        ),
        network: reply("{\"id\":\"1\",\"jsonrpc\":\"2.0\",\"result\":\"1\"}"),
        syncing: reply("{\"id\":\"1\",\"jsonrpc\":\"2.0\",\"result\":false}"),
        block_number: reply("{\"id\":\"1\",\"jsonrpc\":\"2.0\",\"result\":\"0x100\"}"),
        peer_count: reply("{\"id\":\"1\",\"jsonrpc\":\"2.0\",\"result\":\"0x11\"}"),
        release: reply("{\"tag_name\":\"v1.9.25\"}"),
    }
}

#[test]
fn healthy_execution_report() {
    let report = eth1_report(&healthy_eth1_observations(), false, 16);
    assert_eq!(report.signals.len(), 4);
    assert_eq!(report.signals[0].kind, SignalKind::Freshness);
    assert_eq!(report.signals[0].severity, Severity::OK);
    assert_eq!(report.signals[1].kind, SignalKind::NetworkIdentity);
    assert_eq!(report.signals[1].severity, Severity::OK);
    assert_eq!(report.signals[2].kind, SignalKind::SyncStatus);
    assert_eq!(report.signals[2].severity, Severity::OK);
    assert!(report.signals[2].detail.contains("256"));
    assert_eq!(report.signals[3].kind, SignalKind::PeerCount);
    assert_eq!(report.signals[3].severity, Severity::OK);
    assert!(report.signals[3].detail.contains("17"));
}

#[test]
fn low_peer_count_warns() {
    let mut obs = healthy_eth1_observations();
    obs.peer_count = reply("{\"id\":\"1\",\"jsonrpc\":\"2.0\",\"result\":\"0x5\"}");
    let report = eth1_report(&obs, false, 16);
    assert_eq!(report.signals.len(), 4);
    assert_eq!(report.signals[3].severity, Severity::WARN);
    assert!(report.signals[3].detail.contains("5"));
    assert_eq!(report.signals[0].severity, Severity::OK);
    assert_eq!(report.signals[1].severity, Severity::OK);
    assert_eq!(report.signals[2].severity, Severity::OK);
}

#[test]
fn malformed_release_body_only_downgrades_freshness() {
    let mut obs = healthy_eth1_observations();
    obs.release = reply("<html>rate limited</html>");
    let report = eth1_report(&obs, false, 16);
    assert_eq!(report.signals.len(), 4);
    assert_eq!(report.signals[0].severity, Severity::WARN);
    assert!(report.signals[0].detail.contains("could not pull client release version"));
    assert_eq!(report.signals[1].severity, Severity::OK);
    assert_eq!(report.signals[2].severity, Severity::OK);
    assert_eq!(report.signals[3].severity, Severity::OK);
}

#[test]
fn unreachable_probe_fails_only_its_signal() {
    let mut obs = healthy_eth1_observations();
    obs.network = HttpOutcome::Unreachable;
    let report = eth1_report(&obs, false, 16);
    assert_eq!(report.signals[1].severity, Severity::FAIL);
    assert!(report.signals[1].detail.contains("unreachable"));
    assert_eq!(report.signals[0].severity, Severity::OK);
    assert_eq!(report.signals[2].severity, Severity::OK);
    assert_eq!(report.signals[3].severity, Severity::OK);
}

#[test]
fn testnet_flag_flips_network_verdict() {
    let report = eth1_report(&healthy_eth1_observations(), true, 16);
    assert_eq!(report.signals[1].severity, Severity::FAIL);
}

#[test]
fn prysm_report_counts_peer_array() {
    let obs = Eth2Observations {
        version: reply("{\"data\":{\"version\":\"Prysm/v1.3.8\"}}"),
        syncing: reply("{\"data\":{\"is_syncing\":false}}"),
        peer_count: reply("{\"peers\":[1,2,3]}"),
        release: reply("{\"tag_name\":\"v1.3.8\"}"),
    };
    let report = eth2_report(&Eth2Client::PRYSM, &obs, 10);
    assert_eq!(report.signals.len(), 3);
    assert_eq!(report.signals[0].kind, SignalKind::Freshness);
    assert_eq!(report.signals[0].severity, Severity::OK);
    assert_eq!(report.signals[1].kind, SignalKind::SyncStatus);
    assert_eq!(report.signals[1].severity, Severity::OK);
    assert_eq!(report.signals[2].kind, SignalKind::PeerCount);
    assert_eq!(report.signals[2].severity, Severity::WARN);
    assert!(report.signals[2].detail.contains("3"));
}

#[test]
fn nimbus_report_uses_rpc_shapes() {
    let obs = Eth2Observations {
        version: reply("{\"id\":\"1\",\"jsonrpc\":\"2.0\",\"result\":\"Nimbus/v1.0.2\"}"),
        syncing: reply("{\"id\":\"1\",\"jsonrpc\":\"2.0\",\"result\":false}"),
        peer_count: reply("{\"id\":\"1\",\"jsonrpc\":\"2.0\",\"result\":{\"connected\":42}}"),
        release: reply("{\"tag_name\":\"v1.0.2\"}"),
    };
    let report = eth2_report(&Eth2Client::NIMBUS, &obs, 10);
    assert_eq!(report.signals[0].severity, Severity::OK);
    assert_eq!(report.signals[1].severity, Severity::OK);
    assert_eq!(report.signals[2].severity, Severity::OK);
    assert!(report.signals[2].detail.contains("42"));
}

#[test]
fn lighthouse_report_reads_connected_string() {
    let obs = Eth2Observations {
        version: reply("{\"data\":{\"version\":\"Lighthouse/v1.1.0\"}}"),
        syncing: reply("{\"data\":{\"is_syncing\":true,\"sync_distance\":\"97\"}}"),
        peer_count: reply("{\"data\":{\"connected\":\"56\"}}"),
        release: reply("{\"tag_name\":\"v1.1.0\"}"),
    };
    let report = eth2_report(&Eth2Client::LIGHTHOUSE, &obs, 10);
    assert_eq!(report.signals[1].severity, Severity::FAIL);
    assert!(report.signals[1].detail.contains("97"));
    assert_eq!(report.signals[2].severity, Severity::OK);
    assert!(report.signals[2].detail.contains("56"));
}
