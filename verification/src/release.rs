//! Release freshness: each client family is bound to its upstream
//! release-metadata endpoint; the latest published tag is extracted from
//! the lookup's reply and compared against the locally-reported version
//! string by case-sensitive substring containment.

use vstd::prelude::*;
use crate::client::{Eth1Client, Eth2Client};
use crate::json::{JsonValue, json_doc};
use crate::outcome::{FetchError, HttpOutcome};
use crate::strutil::{contains_seq, contains_str};
use crate::wire::spec_field_str;

verus! {

/// The release-metadata URL of an execution-client family.
pub fn eth1_release_repo(c: &Eth1Client) -> (r: String)
    ensures
        c == Eth1Client::GETH ==> r@
            == "https://api.github.com/repos/ethereum/go-ethereum/releases/latest"@,
        c == Eth1Client::BESU ==> r@
            == "https://api.github.com/repos/hyperledger/besu/releases/latest"@,
        c == Eth1Client::NETHERMIND ==> r@
            == "https://api.github.com/repos/nethermindeth/nethermind/releases/latest"@,
        c == Eth1Client::OPENETHEREUM ==> r@
            == "https://api.github.com/repos/openethereum/openethereum/releases/latest"@,
{
    match c {
        Eth1Client::GETH => String::from_str(
            "https://api.github.com/repos/ethereum/go-ethereum/releases/latest",
        ),
        Eth1Client::BESU => String::from_str(
            "https://api.github.com/repos/hyperledger/besu/releases/latest",
        ),
        Eth1Client::NETHERMIND => String::from_str(
            "https://api.github.com/repos/nethermindeth/nethermind/releases/latest",
        ),
        Eth1Client::OPENETHEREUM => String::from_str(
            "https://api.github.com/repos/openethereum/openethereum/releases/latest",
        ),
    }
}

/// The release-metadata URL of a consensus-client family.
pub fn eth2_release_repo(c: &Eth2Client) -> (r: String)
    ensures
        c == Eth2Client::LIGHTHOUSE ==> r@
            == "https://api.github.com/repos/sigp/lighthouse/releases/latest"@,
        c == Eth2Client::PRYSM ==> r@
            == "https://api.github.com/repos/prysmaticlabs/prysm/releases/latest"@,
        c == Eth2Client::NIMBUS ==> r@
            == "https://api.github.com/repos/status-im/nimbus-eth2/releases/latest"@,
        c == Eth2Client::TEKU ==> r@
            == "https://api.github.com/repos/ConsenSys/teku/releases/latest"@,
{
    match c {
        Eth2Client::LIGHTHOUSE => String::from_str(
            "https://api.github.com/repos/sigp/lighthouse/releases/latest",
        ),
        Eth2Client::PRYSM => String::from_str(
            "https://api.github.com/repos/prysmaticlabs/prysm/releases/latest",
        ),
        Eth2Client::NIMBUS => String::from_str(
            "https://api.github.com/repos/status-im/nimbus-eth2/releases/latest",
        ),
        Eth2Client::TEKU => String::from_str(
            "https://api.github.com/repos/ConsenSys/teku/releases/latest",
        ),
    }
}

/// The latest release tag carried by a lookup's outcome: present exactly
/// when the exchange completed with a 2xx status and a JSON object body
/// holding a string under `tag_name`.
pub open spec fn spec_latest_tag(outcome: HttpOutcome) -> Result<Seq<char>, FetchError> {
    match outcome {
        HttpOutcome::Unreachable => Err(FetchError::Unreachable),
        HttpOutcome::TimedOut => Err(FetchError::Timeout),
        HttpOutcome::Reply { status, body } => if !(200 <= status && status < 300) {
            Err(FetchError::Http(status))
        } else {
            match json_doc(body@) {
                Some(JsonValue::Obj(fields)) => match spec_field_str(fields@, "tag_name"@) {
                    Some(t) => Ok(t),
                    None => Err(FetchError::MissingField),
                },
                _ => Err(FetchError::MissingField),
            }
        },
    }
}

/// Extracts the latest release tag from the lookup's outcome. A body that
/// does not decode, or decodes without a `tag_name` string, is the
/// recoverable `MissingField` case; the comparison is best-effort.
pub fn latest_tag(outcome: &HttpOutcome) -> (r: Result<String, FetchError>)
    ensures
        match r {
            Ok(t) => spec_latest_tag(*outcome) == Ok::<Seq<char>, FetchError>(t@),
            Err(e) => spec_latest_tag(*outcome) == Err::<Seq<char>, FetchError>(e),
        },
{
    let (status, body) = match outcome {
        HttpOutcome::Reply { status, body } => (*status, body),
        HttpOutcome::Unreachable => {
            return Err(FetchError::Unreachable);
        },
        HttpOutcome::TimedOut => {
            return Err(FetchError::Timeout);
        },
    };
    if !(200 <= status && status < 300) {
        return Err(FetchError::Http(status));
    }
    let doc = match crate::json::parse_json(body.as_str()) {
        Ok(d) => d,
        Err(_) => {
            return Err(FetchError::MissingField);
        },
    };
    match &doc {
        JsonValue::Obj(fields) => match crate::json::obj_get(fields, "tag_name") {
            Some(v) => match v {
                JsonValue::Str(t) => Ok(t.clone()),
                _ => Err(FetchError::MissingField),
            },
            None => Err(FetchError::MissingField),
        },
        _ => Err(FetchError::MissingField),
    }
}

/// True exactly when the locally-reported version string contains the
/// latest release tag as a substring (case-sensitive), mirroring the loose
/// versioning conventions of client release strings.
pub fn is_current(reported_version: &str, tag: &str) -> (r: bool)
    ensures
        r == contains_seq(reported_version@, tag@),
{
    contains_str(reported_version, tag)
}

} // verus!
