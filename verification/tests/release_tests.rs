use valid8r::client::{Eth1Client, Eth2Client};
use valid8r::outcome::{FetchError, HttpOutcome};
use valid8r::release::{eth1_release_repo, eth2_release_repo, is_current, latest_tag};

#[test]
fn version_contains_tag() {
    assert!(is_current("Geth/v1.9.25-stable/linux-amd64", "v1.9.25"));
    assert!(!is_current("Geth/v1.9.20/linux-amd64", "v1.9.25"));
}

#[test]
fn substring_is_case_sensitive() {
    assert!(!is_current("GETH/V1.9.25", "v1.9.25"));
    assert!(is_current("anything", ""));
    assert!(!is_current("", "v1"));
}

#[test]
fn latest_tag_from_good_body() {
    let outcome = HttpOutcome::Reply {
        status: 200,
        body: String::from("{\"tag_name\":\"v1.9.25\",\"name\":\"release\"}"),
    };
    assert_eq!(latest_tag(&outcome), Ok(String::from("v1.9.25")));
}

#[test]
fn latest_tag_missing_field() {
    let outcome = HttpOutcome::Reply {
        status: 200,
        body: String::from("{\"name\":\"release\"}"),
    };
    assert_eq!(latest_tag(&outcome), Err(FetchError::MissingField));
}

#[test]
fn latest_tag_malformed_body() {
    let outcome = HttpOutcome::Reply {
        status: 200,
        body: String::from("not json at all"),
    };
    assert_eq!(latest_tag(&outcome), Err(FetchError::MissingField));
}

#[test]
fn latest_tag_non_2xx_status() {
    let outcome = HttpOutcome::Reply {
        status: 403,
        body: String::from("{\"tag_name\":\"v1.9.25\"}"),
    };
    assert_eq!(latest_tag(&outcome), Err(FetchError::Http(403)));
}

#[test]
fn latest_tag_transport_failures() {
    assert_eq!(latest_tag(&HttpOutcome::Unreachable), Err(FetchError::Unreachable));
    assert_eq!(latest_tag(&HttpOutcome::TimedOut), Err(FetchError::Timeout));
}

#[test]
fn latest_tag_non_string_tag() {
    let outcome = HttpOutcome::Reply {
        status: 200,
        body: String::from("{\"tag_name\":7}"),
    };
    assert_eq!(latest_tag(&outcome), Err(FetchError::MissingField));
}

#[test]
fn release_repo_binding() {
    assert!(eth1_release_repo(&Eth1Client::GETH).contains("go-ethereum"));
    assert!(eth1_release_repo(&Eth1Client::BESU).contains("besu"));
    assert!(eth1_release_repo(&Eth1Client::NETHERMIND).contains("nethermind"));
    assert!(eth1_release_repo(&Eth1Client::OPENETHEREUM).contains("openethereum"));
    assert!(eth2_release_repo(&Eth2Client::LIGHTHOUSE).contains("lighthouse"));
    assert!(eth2_release_repo(&Eth2Client::PRYSM).contains("prysm"));
    assert!(eth2_release_repo(&Eth2Client::NIMBUS).contains("nimbus"));
    assert!(eth2_release_repo(&Eth2Client::TEKU).contains("teku"));
}
