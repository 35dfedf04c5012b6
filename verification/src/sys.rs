//! Local-environment adequacy policy: pure verdicts on the numbers and
//! outcomes the system probes hand over — memory, processor count, disk
//! size, OS version, and TCP port availability. The probing itself is an
//! external collaborator; only the policy lives here.

use vstd::prelude::*;
use crate::evaluate::Severity;
use crate::strutil::str_eq;

verus! {

/// What binding a TCP listener to a port ended in.
#[derive(Clone, Copy, Debug, PartialEq, Eq, Structural)]
pub enum BindOutcome {
    /// The bind succeeded: nothing is listening on the port.
    Bound,
    /// The address is already in use: something is listening.
    AddrInUse,
    /// The bind was refused for lack of privilege.
    PermissionDenied,
    /// Any other error.
    OtherError,
}

/// Memory policy, on total memory in kilobytes: the preferred amount is
/// 16 GB, the minimum 8 GB.
pub open spec fn spec_evaluate_memory(kb: int) -> Severity {
    if kb > 16000000 {
        Severity::OK
    } else if kb > 8000000 {
        Severity::WARN
    } else {
        Severity::FAIL
    }
}

/// Applies the memory policy.
pub fn evaluate_memory(kb: u64) -> (r: Severity)
    ensures
        r == spec_evaluate_memory(kb as int),
{
    if kb > 16000000 {
        Severity::OK
    } else if kb > 8000000 {
        Severity::WARN
    } else {
        Severity::FAIL
    }
}

/// Processor-count policy: four processors preferred, three tolerated.
pub open spec fn spec_evaluate_cpu_count(n: int) -> Severity {
    if n >= 4 {
        Severity::OK
    } else if n > 2 {
        Severity::WARN
    } else {
        Severity::FAIL
    }
}

/// Applies the processor-count policy.
pub fn evaluate_cpu_count(n: u64) -> (r: Severity)
    ensures
        r == spec_evaluate_cpu_count(n as int),
{
    if n >= 4 {
        Severity::OK
    } else if n > 2 {
        Severity::WARN
    } else {
        Severity::FAIL
    }
}

/// Disk-size policy, on the largest disk in bytes: 1 TB preferred,
/// 300 GB minimum.
pub open spec fn spec_evaluate_disk_space(bytes: int) -> Severity {
    if bytes > 1000000000000 {
        Severity::OK
    } else if bytes > 300000000000 {
        Severity::WARN
    } else {
        Severity::FAIL
    }
}

/// Applies the disk-size policy.
pub fn evaluate_disk_space(bytes: u64) -> (r: Severity)
    ensures
        r == spec_evaluate_disk_space(bytes as int),
{
    if bytes > 1000000000000 {
        Severity::OK
    } else if bytes > 300000000000 {
        Severity::WARN
    } else {
        Severity::FAIL
    }
}

/// The OS version the policy expects of a recognized system, by its
/// lower-cased name.
pub open spec fn spec_expected_os_version(os: Seq<char>) -> Option<Seq<char>> {
    if os == "ubuntu"@ {
        Some("20.04"@)
    } else if os == "darwin"@ {
        Some("11.2.1"@)
    } else {
        None
    }
}

/// OS-version policy: on a recognized system, `OK` exactly when the
/// current version equals the expected release; an unrecognized system
/// gets no verdict.
pub fn evaluate_os_version(os: &str, current: &str) -> (r: Option<Severity>)
    ensures
        r == (match spec_expected_os_version(os@) {
            Some(expected) => Some(
                if current@ == expected {
                    Severity::OK
                } else {
                    Severity::FAIL
                },
            ),
            None => None::<Severity>,
        }),
{
    if str_eq(os, "ubuntu") {
        if str_eq(current, "20.04") {
            Some(Severity::OK)
        } else {
            Some(Severity::FAIL)
        }
    } else if str_eq(os, "darwin") {
        if str_eq(current, "11.2.1") {
            Some(Severity::OK)
        } else {
            Some(Severity::FAIL)
        }
    } else {
        None
    }
}

/// Listener policy for a node's port: a successful bind means nothing is
/// listening there (a failure of the check), an address in use means the
/// node is listening, anything else is only a warning.
pub open spec fn spec_evaluate_listener(b: BindOutcome) -> Severity {
    match b {
        BindOutcome::Bound => Severity::FAIL,
        BindOutcome::AddrInUse => Severity::OK,
        BindOutcome::PermissionDenied => Severity::WARN,
        BindOutcome::OtherError => Severity::WARN,
    }
}

/// Applies the listener policy.
pub fn evaluate_listener(b: &BindOutcome) -> (r: Severity)
    ensures
        r == spec_evaluate_listener(*b),
{
    match b {
        BindOutcome::Bound => Severity::FAIL,
        BindOutcome::AddrInUse => Severity::OK,
        BindOutcome::PermissionDenied => Severity::WARN,
        BindOutcome::OtherError => Severity::WARN,
    }
}

/// Listener policy for the default SSH port: a successful bind means no
/// agent sits on the default port (good practice), an address in use
/// means one does, a privilege refusal leaves the check open.
pub open spec fn spec_evaluate_ssh_port(b: BindOutcome) -> Severity {
    match b {
        BindOutcome::Bound => Severity::OK,
        BindOutcome::AddrInUse => Severity::FAIL,
        BindOutcome::PermissionDenied => Severity::WARN,
        BindOutcome::OtherError => Severity::WARN,
    }
}

/// Applies the SSH-port policy.
pub fn evaluate_ssh_port(b: &BindOutcome) -> (r: Severity)
    ensures
        r == spec_evaluate_ssh_port(*b),
{
    match b {
        BindOutcome::Bound => Severity::OK,
        BindOutcome::AddrInUse => Severity::FAIL,
        BindOutcome::PermissionDenied => Severity::WARN,
        BindOutcome::OtherError => Severity::WARN,
    }
}

} // verus!
