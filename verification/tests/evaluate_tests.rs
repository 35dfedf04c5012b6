use valid8r::evaluate::{
    evaluate_freshness, evaluate_network_identity, evaluate_peer_count, evaluate_sync, Severity,
    SignalKind, ETH1_PEER_THRESHOLD, ETH2_PEER_THRESHOLD,
};

#[test]
fn peer_count_policy() {
    assert_eq!(evaluate_peer_count(17, 16).severity, Severity::OK);
    assert_eq!(evaluate_peer_count(16, 16).severity, Severity::WARN);
    assert_eq!(evaluate_peer_count(0, 16).severity, Severity::WARN);
}

#[test]
fn peer_count_details() {
    let ok = evaluate_peer_count(17, 16);
    assert_eq!(ok.kind, SignalKind::PeerCount);
    assert!(ok.detail.contains("17"));
    let warn = evaluate_peer_count(5, 16);
    assert!(warn.detail.contains("5"));
}

#[test]
fn default_thresholds() {
    assert_eq!(ETH1_PEER_THRESHOLD, 16);
    assert_eq!(ETH2_PEER_THRESHOLD, 10);
}

#[test]
fn network_identity_policy() {
    assert_eq!(evaluate_network_identity("1", false).severity, Severity::OK);
    assert_eq!(evaluate_network_identity("1", true).severity, Severity::FAIL);
    assert_eq!(evaluate_network_identity("5", true).severity, Severity::OK);
    assert_eq!(evaluate_network_identity("5", false).severity, Severity::FAIL);
}

#[test]
fn sync_policy() {
    let ok = evaluate_sync(false, Some(123));
    assert_eq!(ok.severity, Severity::OK);
    assert!(ok.detail.contains("123"));
    assert_eq!(evaluate_sync(true, Some(99)).severity, Severity::FAIL);
    assert_eq!(evaluate_sync(true, None).severity, Severity::FAIL);
    assert_eq!(evaluate_sync(false, None).severity, Severity::OK);
}

#[test]
fn freshness_policy() {
    let ok = evaluate_freshness("Geth/v1.9.25-stable/linux-amd64", "v1.9.25");
    assert_eq!(ok.kind, SignalKind::Freshness);
    assert_eq!(ok.severity, Severity::OK);
    let stale = evaluate_freshness("Geth/v1.9.20/linux", "v1.9.25");
    assert_eq!(stale.severity, Severity::FAIL);
    assert!(stale.detail.contains("v1.9.25"));
}
