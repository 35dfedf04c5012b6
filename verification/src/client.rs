//! Client families and run configuration. A client name from the command
//! line resolves (case-insensitively) to one of the known families, and the
//! resolved settings carry the endpoints every later probe uses.

use vstd::prelude::*;
use crate::strutil::{eq_ignore_ascii_case_str, i64_dec_str, i64_to_dec, seq_lower_eq};

verus! {

/// The known execution-client families.
#[allow(non_camel_case_types)]
#[derive(Clone, Copy, Debug, PartialEq, Eq, Structural)]
pub enum Eth1Client {
    GETH,
    BESU,
    NETHERMIND,
    OPENETHEREUM,
}

/// The known consensus-client families.
#[allow(non_camel_case_types)]
#[derive(Clone, Copy, Debug, PartialEq, Eq, Structural)]
pub enum Eth2Client {
    LIGHTHOUSE,
    PRYSM,
    TEKU,
    NIMBUS,
}

/// The run configuration as handed over by the command line.
pub struct Config {
    pub eth1: String,
    pub eth1_listener_port: Option<i32>,
    pub eth1_http_port: Option<i32>,
    pub eth2: String,
    pub eth2_listener_port: Option<i32>,
    pub eth2_http_port: Option<i32>,
    pub testnet: Option<String>,
    pub ntp_endpoint: Option<String>,
    pub infura_endpoint: Option<String>,
}

/// Why a configuration was refused.
#[derive(Clone, Copy, Debug, PartialEq, Eq, Structural)]
pub enum ConfigError {
    /// The execution-client name matches no known family.
    UnknownEth1Client,
    /// The consensus-client name matches no known family.
    UnknownEth2Client,
}

/// The resolved settings of one run.
#[derive(Debug, PartialEq)]
pub struct Valid8r {
    pub eth1: Eth1Client,
    /// JSON-RPC endpoint of the execution client, with scheme.
    pub eth1_http_url: String,
    /// The execution client's P2P listener, host and port.
    pub eth1_listener_addr: String,
    /// The execution client's JSON-RPC listener, host and port.
    pub eth1_http_addr: String,
    pub eth2: Eth2Client,
    /// The consensus client's P2P listener, host and port.
    pub eth2_listener_addr: String,
    /// The consensus client's API listener, host and port.
    pub eth2_http_addr: String,
    pub ntp_endpoint: String,
    /// Fallback execution endpoint for a cross-check; empty when not
    /// configured.
    pub infura_addr: String,
    pub testnet: bool,
}

/// The family an execution-client name stands for, matched without regard
/// to ASCII letter case.
pub open spec fn spec_eth1_client(name: Seq<char>) -> Option<Eth1Client> {
    if seq_lower_eq(name, "geth"@) {
        Some(Eth1Client::GETH)
    } else if seq_lower_eq(name, "besu"@) {
        Some(Eth1Client::BESU)
    } else if seq_lower_eq(name, "nethermind"@) {
        Some(Eth1Client::NETHERMIND)
    } else if seq_lower_eq(name, "openethereum"@) {
        Some(Eth1Client::OPENETHEREUM)
    } else {
        None
    }
}

/// The family a consensus-client name stands for, matched without regard
/// to ASCII letter case.
pub open spec fn spec_eth2_client(name: Seq<char>) -> Option<Eth2Client> {
    if seq_lower_eq(name, "lighthouse"@) {
        Some(Eth2Client::LIGHTHOUSE)
    } else if seq_lower_eq(name, "prysm"@) {
        Some(Eth2Client::PRYSM)
    } else if seq_lower_eq(name, "teku"@) {
        Some(Eth2Client::TEKU)
    } else if seq_lower_eq(name, "nimbus"@) {
        Some(Eth2Client::NIMBUS)
    } else {
        None
    }
}

/// Resolves an execution-client name to its family.
pub fn eth1_client_of(name: &str) -> (r: Option<Eth1Client>)
    ensures
        r == spec_eth1_client(name@),
{
    if eq_ignore_ascii_case_str(name, "geth") {
        Some(Eth1Client::GETH)
    } else if eq_ignore_ascii_case_str(name, "besu") {
        Some(Eth1Client::BESU)
    } else if eq_ignore_ascii_case_str(name, "nethermind") {
        Some(Eth1Client::NETHERMIND)
    } else if eq_ignore_ascii_case_str(name, "openethereum") {
        Some(Eth1Client::OPENETHEREUM)
    } else {
        None
    }
}

/// Resolves a consensus-client name to its family.
pub fn eth2_client_of(name: &str) -> (r: Option<Eth2Client>)
    ensures
        r == spec_eth2_client(name@),
{
    if eq_ignore_ascii_case_str(name, "lighthouse") {
        Some(Eth2Client::LIGHTHOUSE)
    } else if eq_ignore_ascii_case_str(name, "prysm") {
        Some(Eth2Client::PRYSM)
    } else if eq_ignore_ascii_case_str(name, "teku") {
        Some(Eth2Client::TEKU)
    } else if eq_ignore_ascii_case_str(name, "nimbus") {
        Some(Eth2Client::NIMBUS)
    } else {
        None
    }
}

/// The display name of an execution-client family.
pub fn eth1_client_name(c: &Eth1Client) -> (r: String)
    ensures
        c == Eth1Client::GETH ==> r@ == "GETH"@,
        c == Eth1Client::BESU ==> r@ == "BESU"@,
        c == Eth1Client::NETHERMIND ==> r@ == "NETHERMIND"@,
        c == Eth1Client::OPENETHEREUM ==> r@ == "OPENETHEREUM"@,
{
    match c {
        Eth1Client::GETH => String::from_str("GETH"),
        Eth1Client::BESU => String::from_str("BESU"),
        Eth1Client::NETHERMIND => String::from_str("NETHERMIND"),
        Eth1Client::OPENETHEREUM => String::from_str("OPENETHEREUM"),
    }
}

/// The display name of a consensus-client family.
pub fn eth2_client_name(c: &Eth2Client) -> (r: String)
    ensures
        c == Eth2Client::LIGHTHOUSE ==> r@ == "LIGHTHOUSE"@,
        c == Eth2Client::PRYSM ==> r@ == "PRYSM"@,
        c == Eth2Client::TEKU ==> r@ == "TEKU"@,
        c == Eth2Client::NIMBUS ==> r@ == "NIMBUS"@,
{
    match c {
        Eth2Client::LIGHTHOUSE => String::from_str("LIGHTHOUSE"),
        Eth2Client::PRYSM => String::from_str("PRYSM"),
        Eth2Client::TEKU => String::from_str("TEKU"),
        Eth2Client::NIMBUS => String::from_str("NIMBUS"),
    }
}

/// A host prefix followed by a port number.
fn addr_with_port(prefix: &str, port: i32) -> (r: String)
    ensures
        r@ == prefix@ + i64_dec_str(port as int),
{
    let mut s = String::from_str(prefix);
    let d = i64_to_dec(port as i64);
    s.append(d.as_str());
    s
}

/// The consensus client's default API listener, host and port.
pub open spec fn spec_eth2_default_http_addr(c: Eth2Client) -> Seq<char> {
    match c {
        Eth2Client::PRYSM => "127.0.0.1:3500"@,
        Eth2Client::NIMBUS => "127.0.0.1:9091"@,
        _ => "0.0.0.0:5052"@,
    }
}

/// The consensus client's default P2P listener, host and port.
pub open spec fn spec_eth2_default_listener_addr(c: Eth2Client) -> Seq<char> {
    match c {
        Eth2Client::PRYSM => "0.0.0.0:13000"@,
        _ => "0.0.0.0:9000"@,
    }
}

impl Valid8r {
    /// Resolves a configuration into one run's settings: the client names
    /// pick the families (an unknown name is the one fatal configuration
    /// error, the execution name checked first), ports override the
    /// per-family defaults, and the optional endpoints replace theirs.
    pub fn new(cfg: Config) -> (r: Result<Valid8r, ConfigError>)
        ensures
            (r is Ok) == (spec_eth1_client(cfg.eth1@) is Some && spec_eth2_client(cfg.eth2@)
                is Some),
            r matches Err(e) ==> e == (if spec_eth1_client(cfg.eth1@) is None {
                ConfigError::UnknownEth1Client
            } else {
                ConfigError::UnknownEth2Client
            }),
            r matches Ok(v) ==> Some(v.eth1) == spec_eth1_client(cfg.eth1@) && Some(v.eth2)
                == spec_eth2_client(cfg.eth2@),
            r matches Ok(v) ==> v.eth1_http_url@ == (match cfg.eth1_http_port {
                Some(p) => "http://127.0.0.1:"@ + i64_dec_str(p as int),
                None => "http://127.0.0.1:8545"@,
            }),
            r matches Ok(v) ==> v.eth1_http_addr@ == (match cfg.eth1_http_port {
                Some(p) => "127.0.0.1:"@ + i64_dec_str(p as int),
                None => "127.0.0.1:8545"@,
            }),
            r matches Ok(v) ==> v.eth1_listener_addr@ == (match cfg.eth1_listener_port {
                Some(p) => "0.0.0.0:"@ + i64_dec_str(p as int),
                None => "0.0.0.0:30303"@,
            }),
            r matches Ok(v) ==> v.eth2_http_addr@ == (match cfg.eth2_http_port {
                Some(p) => "127.0.0.1:"@ + i64_dec_str(p as int),
                None => spec_eth2_default_http_addr(v.eth2),
            }),
            r matches Ok(v) ==> v.eth2_listener_addr@ == (match cfg.eth2_listener_port {
                Some(p) => "0.0.0.0:"@ + i64_dec_str(p as int),
                None => spec_eth2_default_listener_addr(v.eth2),
            }),
            r matches Ok(v) ==> v.ntp_endpoint@ == (match cfg.ntp_endpoint {
                Some(n) => n@,
                None => "0.pool.ntp.org:123"@,
            }),
            r matches Ok(v) ==> v.infura_addr@ == (match cfg.infura_endpoint {
                Some(a) => a@,
                None => Seq::<char>::empty(),
            }),
            r matches Ok(v) ==> v.testnet == (cfg.testnet is Some),
    {
        let eth1 = match eth1_client_of(cfg.eth1.as_str()) {
            Some(c) => c,
            None => {
                return Err(ConfigError::UnknownEth1Client);
            },
        };
        let eth2 = match eth2_client_of(cfg.eth2.as_str()) {
            Some(c) => c,
            None => {
                return Err(ConfigError::UnknownEth2Client);
            },
        };
        let eth1_http_url = match &cfg.eth1_http_port {
            Some(p) => addr_with_port("http://127.0.0.1:", *p),
            None => String::from_str("http://127.0.0.1:8545"),
        };
        let eth1_http_addr = match &cfg.eth1_http_port {
            Some(p) => addr_with_port("127.0.0.1:", *p),
            None => String::from_str("127.0.0.1:8545"),
        };
        let eth1_listener_addr = match &cfg.eth1_listener_port {
            Some(p) => addr_with_port("0.0.0.0:", *p),
            None => String::from_str("0.0.0.0:30303"),
        };
        let eth2_http_addr = match &cfg.eth2_http_port {
            Some(p) => addr_with_port("127.0.0.1:", *p),
            None => match eth2 {
                Eth2Client::PRYSM => String::from_str("127.0.0.1:3500"),
                Eth2Client::NIMBUS => String::from_str("127.0.0.1:9091"),
                _ => String::from_str("0.0.0.0:5052"),
            },
        };
        let eth2_listener_addr = match &cfg.eth2_listener_port {
            Some(p) => addr_with_port("0.0.0.0:", *p),
            None => match eth2 {
                Eth2Client::PRYSM => String::from_str("0.0.0.0:13000"),
                _ => String::from_str("0.0.0.0:9000"),
            },
        };
        let ntp_endpoint = match cfg.ntp_endpoint {
            Some(n) => n,
            None => String::from_str("0.pool.ntp.org:123"),
        };
        let infura_addr = match cfg.infura_endpoint {
            Some(a) => a,
            None => String::new(),
        };
        let testnet = cfg.testnet.is_some();
        Ok(
            Valid8r {
                eth1,
                eth1_http_url,
                eth1_listener_addr,
                eth1_http_addr,
                eth2,
                eth2_listener_addr,
                eth2_http_addr,
                ntp_endpoint,
                infura_addr,
                testnet,
            },
        )
    }
}

} // verus!
