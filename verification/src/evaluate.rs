//! Health evaluation policy: pure, total functions from raw observations
//! to severity-tagged signals, with the fixed thresholds of the policy.

use vstd::prelude::*;
use crate::strutil::{contains_seq, contains_str, i64_dec_str, i64_to_dec, str_eq};

verus! {

/// Default peer-count threshold for execution clients.
pub const ETH1_PEER_THRESHOLD: i64 = 16;

/// Default peer-count threshold for consensus clients.
pub const ETH2_PEER_THRESHOLD: i64 = 10;

/// Severity of one health signal, ordered `OK < WARN < FAIL` for
/// reporting; each signal stands alone, nothing is rolled up.
#[allow(non_camel_case_types)]
#[derive(Clone, Copy, Debug, PartialEq, Eq, Structural)]
pub enum Severity {
    OK,
    WARN,
    FAIL,
}

/// Which check a signal reports on: one of the four probes or the
/// release-freshness check; no signal has any other kind.
#[derive(Clone, Copy, Debug, PartialEq, Eq, Structural)]
pub enum SignalKind {
    Freshness,
    NetworkIdentity,
    SyncStatus,
    PeerCount,
}

/// One severity-tagged health signal.
#[derive(Debug)]
pub struct HealthSignal {
    pub kind: SignalKind,
    pub severity: Severity,
    pub detail: String,
}

/// The rank of a severity in the reporting order `OK < WARN < FAIL`.
pub open spec fn severity_rank(s: Severity) -> int {
    match s {
        Severity::OK => 0,
        Severity::WARN => 1,
        Severity::FAIL => 2,
    }
}

/// Freshness policy: `OK` exactly when the reported version contains the
/// latest tag, else `FAIL`.
pub open spec fn spec_evaluate_freshness(version: Seq<char>, tag: Seq<char>) -> (Severity, Seq<
    char,
>) {
    if contains_seq(version, tag) {
        (Severity::OK, version + " is the latest release: "@ + tag)
    } else {
        (Severity::FAIL, "needs to be updated to latest release: "@ + tag)
    }
}

/// Applies the freshness policy.
pub fn evaluate_freshness(version: &str, tag: &str) -> (r: HealthSignal)
    ensures
        r.kind == SignalKind::Freshness,
        ((r.severity, r.detail@) == spec_evaluate_freshness(version@, tag@)),
{
    if contains_str(version, tag) {
        let mut d = String::from_str(version);
        d.append(" is the latest release: ");
        d.append(tag);
        HealthSignal { kind: SignalKind::Freshness, severity: Severity::OK, detail: d }
    } else {
        let mut d = String::from_str("needs to be updated to latest release: ");
        d.append(tag);
        HealthSignal { kind: SignalKind::Freshness, severity: Severity::FAIL, detail: d }
    }
}

/// Network-identity policy: chain id `"1"` is mainnet; the signal is `OK`
/// exactly when being on mainnet agrees with not asking for a testnet.
pub open spec fn spec_evaluate_network_identity(chain_id: Seq<char>, testnet: bool) -> (
    Severity,
    Seq<char>,
) {
    if chain_id == "1"@ && !testnet {
        (Severity::OK, "on mainnet"@)
    } else if chain_id != "1"@ && testnet {
        (Severity::OK, "on testnet: "@ + chain_id)
    } else {
        (Severity::FAIL, "not on the expected network: "@ + chain_id)
    }
}

/// Applies the network-identity policy.
pub fn evaluate_network_identity(chain_id: &str, testnet: bool) -> (r: HealthSignal)
    ensures
        r.kind == SignalKind::NetworkIdentity,
        ((r.severity, r.detail@) == spec_evaluate_network_identity(chain_id@, testnet)),
{
    let mainnet = str_eq(chain_id, "1");
    if mainnet && !testnet {
        HealthSignal {
            kind: SignalKind::NetworkIdentity,
            severity: Severity::OK,
            detail: String::from_str("on mainnet"),
        }
    } else if !mainnet && testnet {
        let mut d = String::from_str("on testnet: ");
        d.append(chain_id);
        HealthSignal { kind: SignalKind::NetworkIdentity, severity: Severity::OK, detail: d }
    } else {
        let mut d = String::from_str("not on the expected network: ");
        d.append(chain_id);
        HealthSignal { kind: SignalKind::NetworkIdentity, severity: Severity::FAIL, detail: d }
    }
}

/// Sync policy: `OK` ("in sync", with the head block number when known)
/// when not syncing; `FAIL` ("not currently synced", with the progress
/// number when known) when syncing.
pub open spec fn spec_evaluate_sync(is_syncing: bool, number: Option<int>) -> (Severity, Seq<
    char,
>) {
    if !is_syncing {
        match number {
            Some(n) => (Severity::OK, "in sync, latest block: "@ + i64_dec_str(n)),
            None => (Severity::OK, "in sync"@),
        }
    } else {
        match number {
            Some(n) => (Severity::FAIL, "not currently synced: "@ + i64_dec_str(n)),
            None => (Severity::FAIL, "not currently synced"@),
        }
    }
}

/// Applies the sync policy. When in sync, `number` is the reported head
/// block; while syncing, the reported progress (current block or sync
/// distance).
pub fn evaluate_sync(is_syncing: bool, number: Option<i64>) -> (r: HealthSignal)
    ensures
        r.kind == SignalKind::SyncStatus,
        ((r.severity, r.detail@) == spec_evaluate_sync(
            is_syncing,
            match number {
                Some(n) => Some(n as int),
                None => None,
            },
        )),
{
    if !is_syncing {
        match number {
            Some(n) => {
                let mut d = String::from_str("in sync, latest block: ");
                let num = i64_to_dec(n);
                d.append(num.as_str());
                HealthSignal { kind: SignalKind::SyncStatus, severity: Severity::OK, detail: d }
            },
            None => HealthSignal {
                kind: SignalKind::SyncStatus,
                severity: Severity::OK,
                detail: String::from_str("in sync"),
            },
        }
    } else {
        match number {
            Some(n) => {
                let mut d = String::from_str("not currently synced: ");
                let num = i64_to_dec(n);
                d.append(num.as_str());
                HealthSignal { kind: SignalKind::SyncStatus, severity: Severity::FAIL, detail: d }
            },
            None => HealthSignal {
                kind: SignalKind::SyncStatus,
                severity: Severity::FAIL,
                detail: String::from_str("not currently synced"),
            },
        }
    }
}

/// Peer-count policy: `OK` exactly when the count is strictly above the
/// threshold, else a warning.
pub open spec fn spec_evaluate_peer_count(count: int, threshold: int) -> (Severity, Seq<char>) {
    if count > threshold {
        (Severity::OK, "currently has "@ + i64_dec_str(count) + " peers"@)
    } else {
        (Severity::WARN, "low peer count: "@ + i64_dec_str(count))
    }
}

/// Applies the peer-count policy.
pub fn evaluate_peer_count(count: i64, threshold: i64) -> (r: HealthSignal)
    ensures
        r.kind == SignalKind::PeerCount,
        ((r.severity, r.detail@) == spec_evaluate_peer_count(count as int, threshold as int)),
{
    if count > threshold {
        let mut d = String::from_str("currently has ");
        let num = i64_to_dec(count);
        d.append(num.as_str());
        d.append(" peers");
        HealthSignal { kind: SignalKind::PeerCount, severity: Severity::OK, detail: d }
    } else {
        let mut d = String::from_str("low peer count: ");
        let num = i64_to_dec(count);
        d.append(num.as_str());
        HealthSignal { kind: SignalKind::PeerCount, severity: Severity::WARN, detail: d }
    }
}

} // verus!
