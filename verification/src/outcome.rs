//! What came back from one HTTP exchange, and the error kinds a probe or a
//! release lookup can end in. Every error renders to a human-readable cause
//! with an exact contract, so the report's wording is pinned down.

use vstd::prelude::*;
use crate::strutil::{dec_str_of, u64_to_dec};

verus! {

/// The outcome of one HTTP exchange, as the transport layer hands it over:
/// either a reply with its status code and body text, or the reason no
/// reply arrived.
#[derive(Debug)]
pub enum HttpOutcome {
    /// The exchange completed; the status code and the body text.
    Reply { status: u16, body: String },
    /// The endpoint could not be reached at the transport level.
    Unreachable,
    /// The probe's deadline passed before a reply arrived.
    TimedOut,
}

/// Why a probe produced no observation.
#[derive(Debug, PartialEq)]
pub enum ProbeError {
    /// Transport/connection failure.
    Unreachable,
    /// The probe's deadline passed.
    Timeout,
    /// The HTTP status was not 200.
    BadStatus(u16),
    /// The body was not well-formed JSON, or not the expected envelope.
    MalformedJson,
    /// Well-formed JSON-RPC reply without a usable `result`.
    NoResult,
    /// Well-formed REST reply whose `data` field is entirely absent.
    NoData,
    /// The reply carried an explicit JSON-RPC error object.
    RpcError { code: Option<i64>, message: Option<String> },
    /// The RPC-style sync probe answered with a detail object instead of a
    /// boolean: the node is still syncing.
    NotSynced,
    /// A numeric string held a character outside its digit alphabet.
    NotHex,
    /// A numeric string exceeded the signed 64-bit range.
    Overflow,
}

/// Why the latest-release lookup produced no tag.
#[derive(Clone, Copy, Debug, PartialEq, Eq, Structural)]
pub enum FetchError {
    /// Transport/connection failure.
    Unreachable,
    /// The lookup's deadline passed.
    Timeout,
    /// The HTTP status was not 2xx.
    Http(u16),
    /// The body did not decode, or held no `tag_name` string. Version
    /// comparison is best-effort, so this downgrades freshness to a
    /// warning rather than a failure.
    MissingField,
}

/// The rendered cause of a probe error.
pub open spec fn spec_probe_error_detail(e: ProbeError) -> Seq<char> {
    match e {
        ProbeError::Unreachable => "communication error: endpoint unreachable"@,
        ProbeError::Timeout => "communication error: probe timed out"@,
        ProbeError::BadStatus(s) => "unexpected HTTP status: "@ + dec_str_of(s as int),
        ProbeError::MalformedJson => "malformed JSON in response"@,
        ProbeError::NoResult => "response carried no result"@,
        ProbeError::NoData => "response carried no data"@,
        ProbeError::RpcError { code: _, message } => match message {
            Some(m) => "JSON-RPC error: "@ + m@,
            None => "JSON-RPC error"@,
        },
        ProbeError::NotSynced => "not currently synced"@,
        ProbeError::NotHex => "malformed numeric string in response"@,
        ProbeError::Overflow => "numeric value in response out of range"@,
    }
}

/// The rendered cause of a release-lookup error.
pub open spec fn spec_fetch_error_detail(e: FetchError) -> Seq<char> {
    match e {
        FetchError::Unreachable => "communication error: release endpoint unreachable"@,
        FetchError::Timeout => "communication error: release lookup timed out"@,
        FetchError::Http(s) => "release endpoint HTTP status: "@ + dec_str_of(s as int),
        FetchError::MissingField => "could not pull client release version"@,
    }
}

/// Renders the cause of a probe error.
pub fn probe_error_detail(e: &ProbeError) -> (r: String)
    ensures
        r@ == spec_probe_error_detail(*e),
{
    match e {
        ProbeError::Unreachable => String::from_str("communication error: endpoint unreachable"),
        ProbeError::Timeout => String::from_str("communication error: probe timed out"),
        ProbeError::BadStatus(s) => {
            let mut d = String::from_str("unexpected HTTP status: ");
            let num = u64_to_dec(*s as u64);
            d.append(num.as_str());
            d
        },
        ProbeError::MalformedJson => String::from_str("malformed JSON in response"),
        ProbeError::NoResult => String::from_str("response carried no result"),
        ProbeError::NoData => String::from_str("response carried no data"),
        ProbeError::RpcError { code: _, message } => match message {
            Some(m) => {
                let mut d = String::from_str("JSON-RPC error: ");
                d.append(m.as_str());
                d
            },
            None => String::from_str("JSON-RPC error"),
        },
        ProbeError::NotSynced => String::from_str("not currently synced"),
        ProbeError::NotHex => String::from_str("malformed numeric string in response"),
        ProbeError::Overflow => String::from_str("numeric value in response out of range"),
    }
}

/// Renders the cause of a release-lookup error.
pub fn fetch_error_detail(e: &FetchError) -> (r: String)
    ensures
        r@ == spec_fetch_error_detail(*e),
{
    match e {
        FetchError::Unreachable => String::from_str(
            "communication error: release endpoint unreachable",
        ),
        FetchError::Timeout => String::from_str("communication error: release lookup timed out"),
        FetchError::Http(s) => {
            let mut d = String::from_str("release endpoint HTTP status: ");
            let num = u64_to_dec(*s as u64);
            d.append(num.as_str());
            d
        },
        FetchError::MissingField => String::from_str("could not pull client release version"),
    }
}

} // verus!
