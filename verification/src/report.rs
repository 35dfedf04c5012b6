//! Assembles one client's health report: every probe-level error becomes
//! exactly one FAIL-severity signal carrying its cause (the release-tag
//! `MissingField` case alone downgrades freshness to WARN), and the
//! signals stand in the canonical order — freshness, network identity,
//! sync, peers — regardless of which exchange finished first.

use vstd::prelude::*;
use crate::client::Eth2Client;
use crate::evaluate::{
    HealthSignal, Severity, SignalKind, evaluate_freshness, evaluate_network_identity,
    evaluate_peer_count, evaluate_sync, spec_evaluate_freshness, spec_evaluate_network_identity,
    spec_evaluate_peer_count, spec_evaluate_sync,
};
use crate::outcome::{
    FetchError, HttpOutcome, ProbeError, fetch_error_detail, probe_error_detail,
    spec_fetch_error_detail, spec_probe_error_detail,
};
use crate::probe::{
    SyncState, eth1_sync_status, eth2_peer_count, eth2_sync_check, nimbus_sync_status,
    rpc_result_hex, rpc_result_string, spec_eth1_sync_status, spec_eth2_peer_count,
    spec_eth2_sync_check, spec_eth2_version, spec_nimbus_sync_status, spec_rpc_result_hex,
    spec_rpc_result_string, eth2_version,
};
use crate::release::{latest_tag, spec_latest_tag};

verus! {

/// One client's health report: severity-tagged signals in probe order.
#[derive(Debug)]
pub struct Report {
    pub signals: Vec<HealthSignal>,
}

/// The exchanges one execution-client check performs.
#[derive(Debug)]
pub struct Eth1Observations {
    pub version: HttpOutcome,
    pub network: HttpOutcome,
    pub syncing: HttpOutcome,
    pub block_number: HttpOutcome,
    pub peer_count: HttpOutcome,
    pub release: HttpOutcome,
}

/// The exchanges one consensus-client check performs.
#[derive(Debug)]
pub struct Eth2Observations {
    pub version: HttpOutcome,
    pub syncing: HttpOutcome,
    pub peer_count: HttpOutcome,
    pub release: HttpOutcome,
}

/// An optional machine integer, as a mathematical one.
pub open spec fn opt_int(o: Option<i64>) -> Option<int> {
    match o {
        Some(n) => Some(n as int),
        None => None,
    }
}

/// A fetched tag, at the view level.
pub open spec fn res_tag_view(r: Result<String, FetchError>) -> Result<Seq<char>, FetchError> {
    match r {
        Ok(t) => Ok(t@),
        Err(e) => Err(e),
    }
}

/// The freshness signal's content: the policy verdict when both the
/// reported version and the latest tag are known; WARN when only the tag
/// lookup failed recoverably; FAIL with the cause otherwise.
pub open spec fn spec_freshness_signal(
    version: Result<String, ProbeError>,
    tag: Result<Seq<char>, FetchError>,
) -> (Severity, Seq<char>) {
    match version {
        Err(e) => (Severity::FAIL, "could not read client version: "@ + spec_probe_error_detail(e)),
        Ok(v) => match tag {
            Ok(t) => spec_evaluate_freshness(v@, t),
            Err(FetchError::MissingField) => (
                Severity::WARN,
                spec_fetch_error_detail(FetchError::MissingField),
            ),
            Err(e) => (Severity::FAIL, spec_fetch_error_detail(e)),
        },
    }
}

/// Builds the freshness signal.
pub fn freshness_signal(version: &Result<String, ProbeError>, tag: &Result<String, FetchError>) -> (r:
    HealthSignal)
    ensures
        r.kind == SignalKind::Freshness,
        ((r.severity, r.detail@) == spec_freshness_signal(*version, res_tag_view(*tag))),
{
    match version {
        Err(e) => {
            let mut d = String::from_str("could not read client version: ");
            let cause = probe_error_detail(e);
            d.append(cause.as_str());
            HealthSignal { kind: SignalKind::Freshness, severity: Severity::FAIL, detail: d }
        },
        Ok(v) => match tag {
            Ok(t) => evaluate_freshness(v.as_str(), t.as_str()),
            Err(e) => {
                let d = fetch_error_detail(e);
                match e {
                    FetchError::MissingField => HealthSignal {
                        kind: SignalKind::Freshness,
                        severity: Severity::WARN,
                        detail: d,
                    },
                    _ => HealthSignal {
                        kind: SignalKind::Freshness,
                        severity: Severity::FAIL,
                        detail: d,
                    },
                }
            },
        },
    }
}

/// The network-identity signal's content.
pub open spec fn spec_network_signal(chain: Result<String, ProbeError>, testnet: bool) -> (
    Severity,
    Seq<char>,
) {
    match chain {
        Err(e) => (
            Severity::FAIL,
            "could not read network identity: "@ + spec_probe_error_detail(e),
        ),
        Ok(id) => spec_evaluate_network_identity(id@, testnet),
    }
}

/// Builds the network-identity signal.
pub fn network_signal(chain: &Result<String, ProbeError>, testnet: bool) -> (r: HealthSignal)
    ensures
        r.kind == SignalKind::NetworkIdentity,
        ((r.severity, r.detail@) == spec_network_signal(*chain, testnet)),
{
    match chain {
        Err(e) => {
            let mut d = String::from_str("could not read network identity: ");
            let cause = probe_error_detail(e);
            d.append(cause.as_str());
            HealthSignal { kind: SignalKind::NetworkIdentity, severity: Severity::FAIL, detail: d }
        },
        Ok(id) => evaluate_network_identity(id.as_str(), testnet),
    }
}

/// The sync signal's content.
pub open spec fn spec_sync_signal(sync: Result<SyncState, ProbeError>) -> (Severity, Seq<char>) {
    match sync {
        Err(e) => (Severity::FAIL, "could not read sync status: "@ + spec_probe_error_detail(e)),
        Ok(SyncState::Synced { head }) => spec_evaluate_sync(false, opt_int(head)),
        Ok(SyncState::Syncing { progress }) => spec_evaluate_sync(true, opt_int(progress)),
    }
}

/// Builds the sync signal.
pub fn sync_signal(sync: &Result<SyncState, ProbeError>) -> (r: HealthSignal)
    ensures
        r.kind == SignalKind::SyncStatus,
        ((r.severity, r.detail@) == spec_sync_signal(*sync)),
{
    match sync {
        Err(e) => {
            let mut d = String::from_str("could not read sync status: ");
            let cause = probe_error_detail(e);
            d.append(cause.as_str());
            HealthSignal { kind: SignalKind::SyncStatus, severity: Severity::FAIL, detail: d }
        },
        Ok(SyncState::Synced { head }) => evaluate_sync(false, *head),
        Ok(SyncState::Syncing { progress }) => evaluate_sync(true, *progress),
    }
}

/// The peer-count signal's content.
pub open spec fn spec_peers_signal(count: Result<i64, ProbeError>, threshold: int) -> (
    Severity,
    Seq<char>,
) {
    match count {
        Err(e) => (Severity::FAIL, "could not read peer count: "@ + spec_probe_error_detail(e)),
        Ok(n) => spec_evaluate_peer_count(n as int, threshold),
    }
}

/// Builds the peer-count signal.
pub fn peers_signal(count: &Result<i64, ProbeError>, threshold: i64) -> (r: HealthSignal)
    ensures
        r.kind == SignalKind::PeerCount,
        ((r.severity, r.detail@) == spec_peers_signal(*count, threshold as int)),
{
    match count {
        Err(e) => {
            let mut d = String::from_str("could not read peer count: ");
            let cause = probe_error_detail(e);
            d.append(cause.as_str());
            HealthSignal { kind: SignalKind::PeerCount, severity: Severity::FAIL, detail: d }
        },
        Ok(n) => evaluate_peer_count(*n, threshold),
    }
}

/// The sync position a consensus client reports, over the family's own
/// transport.
pub open spec fn spec_eth2_sync_status(c: Eth2Client, outcome: HttpOutcome) -> Result<
    SyncState,
    ProbeError,
> {
    if c == Eth2Client::NIMBUS {
        spec_nimbus_sync_status(outcome)
    } else {
        spec_eth2_sync_check(outcome)
    }
}

/// Interprets a consensus sync exchange, branching on the family's
/// transport but presenting one return type upward.
pub fn eth2_sync_status(c: &Eth2Client, outcome: &HttpOutcome) -> (r: Result<
    SyncState,
    ProbeError,
>)
    ensures
        r == spec_eth2_sync_status(*c, *outcome),
{
    match c {
        Eth2Client::NIMBUS => nimbus_sync_status(outcome),
        _ => eth2_sync_check(outcome),
    }
}

/// Assembles the execution-client report from its exchanges: exactly four
/// signals, in the canonical order freshness, network identity, sync,
/// peers, each pinned to its probe's interpretation; no probe failure
/// aborts the report.
pub fn eth1_report(obs: &Eth1Observations, testnet: bool, threshold: i64) -> (r: Report)
    ensures
        r.signals@.len() == 4,
        r.signals@[0].kind == SignalKind::Freshness,
        ((r.signals@[0].severity, r.signals@[0].detail@) == spec_freshness_signal(
            spec_rpc_result_string(obs.version),
            spec_latest_tag(obs.release),
        )),
        r.signals@[1].kind == SignalKind::NetworkIdentity,
        ((r.signals@[1].severity, r.signals@[1].detail@) == spec_network_signal(
            spec_rpc_result_string(obs.network),
            testnet,
        )),
        r.signals@[2].kind == SignalKind::SyncStatus,
        ((r.signals@[2].severity, r.signals@[2].detail@) == spec_sync_signal(
            spec_eth1_sync_status(obs.syncing, obs.block_number),
        )),
        r.signals@[3].kind == SignalKind::PeerCount,
        ((r.signals@[3].severity, r.signals@[3].detail@) == spec_peers_signal(
            spec_rpc_result_hex(obs.peer_count),
            threshold as int,
        )),
{
    let version = rpc_result_string(&obs.version);
    let tag = latest_tag(&obs.release);
    let chain = rpc_result_string(&obs.network);
    let sync = eth1_sync_status(&obs.syncing, &obs.block_number);
    let peers = rpc_result_hex(&obs.peer_count);
    let s0 = freshness_signal(&version, &tag);
    let s1 = network_signal(&chain, testnet);
    let s2 = sync_signal(&sync);
    let s3 = peers_signal(&peers, threshold);
    let mut signals: Vec<HealthSignal> = Vec::new();
    signals.push(s0);
    signals.push(s1);
    signals.push(s2);
    signals.push(s3);
    Report { signals }
}

/// Assembles the consensus-client report from its exchanges: exactly three
/// signals, in the canonical order freshness, sync, peers, each pinned to
/// its probe's interpretation; no probe failure aborts the report.
pub fn eth2_report(c: &Eth2Client, obs: &Eth2Observations, threshold: i64) -> (r: Report)
    ensures
        r.signals@.len() == 3,
        r.signals@[0].kind == SignalKind::Freshness,
        ((r.signals@[0].severity, r.signals@[0].detail@) == spec_freshness_signal(
            spec_eth2_version(*c, obs.version),
            spec_latest_tag(obs.release),
        )),
        r.signals@[1].kind == SignalKind::SyncStatus,
        ((r.signals@[1].severity, r.signals@[1].detail@) == spec_sync_signal(
            spec_eth2_sync_status(*c, obs.syncing),
        )),
        r.signals@[2].kind == SignalKind::PeerCount,
        ((r.signals@[2].severity, r.signals@[2].detail@) == spec_peers_signal(
            spec_eth2_peer_count(*c, obs.peer_count),
            threshold as int,
        )),
{
    let version = eth2_version(c, &obs.version);
    let tag = latest_tag(&obs.release);
    let sync = eth2_sync_status(c, &obs.syncing);
    let peers = eth2_peer_count(c, &obs.peer_count);
    let s0 = freshness_signal(&version, &tag);
    let s1 = sync_signal(&sync);
    let s2 = peers_signal(&peers, threshold);
    let mut signals: Vec<HealthSignal> = Vec::new();
    signals.push(s0);
    signals.push(s1);
    signals.push(s2);
    Report { signals }
}

} // verus!
