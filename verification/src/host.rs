//! Host snapshots and the property readers.
//!
//! The kernel, the persistence store and the OS-release collaborator
//! are queried outside this crate; their raw answers are handed in as
//! one plain snapshot, and every property reply is computed from that
//! snapshot alone. Reads take no authorization and have no effect.

use crate::chassis::ChassisCategory;
use crate::registry::PropertyId;
use crate::text::{trim_end, trim_end_spec};
use vstd::prelude::*;

verus! {

/// The running kernel's identity fields, as one uname query reported
/// them. The service queries them once and keeps the snapshot for its
/// lifetime.
#[derive(Clone)]
pub struct KernelInfo {
    pub sysname: String,
    pub release: String,
    pub version: String,
}

/// The static OS-release record, loaded once at service construction
/// and immutable for the process lifetime. `cpe_name` comes from the
/// record's extra key/value section and may be absent.
#[derive(Clone)]
pub struct OsReleaseData {
    pub pretty_name: String,
    pub home_url: String,
    pub cpe_name: Option<String>,
}

/// Everything a property read can depend on, gathered at the I/O edge:
/// the running hostname as the kernel reported it, the raw contents of
/// the static-hostname store entry (`None` when unreadable), the
/// classifier's result, the kernel snapshot, and the OS-release record
/// (`None` when it could not be loaded).
pub struct HostState {
    pub hostname: String,
    pub static_hostname_file: Option<String>,
    pub chassis: Option<ChassisCategory>,
    pub kernel: KernelInfo,
    pub os_release: Option<OsReleaseData>,
}

/// The reply to a read of each property.
///
/// The static hostname is the stored value with trailing whitespace
/// removed, or `unknown` when the store is unreadable. The icon name
/// is derived from the chassis category, with a generic icon when
/// classification is inconclusive; the chassis property itself falls
/// back to the empty string, absence being a valid terminal state and
/// never a fault. The machine-info fields with no backing store read
/// as empty. The OS-release fields fall back to `<unknown>` when the
/// record or the key is absent.
pub open spec fn read_reply_spec(p: PropertyId, host: HostState) -> Seq<char> {
    match p {
        PropertyId::Hostname => host.hostname@,
        PropertyId::StaticHostname => match host.static_hostname_file {
            Some(s) => trim_end_spec(s@),
            None => "unknown"@,
        },
        PropertyId::PrettyHostname => ""@,
        PropertyId::IconName => match host.chassis {
            Some(c) => "computer-"@ + c.label_spec(),
            None => "computer"@,
        },
        PropertyId::Chassis => match host.chassis {
            Some(c) => c.label_spec(),
            None => ""@,
        },
        PropertyId::Deployment => ""@,
        PropertyId::Location => ""@,
        PropertyId::KernelName => host.kernel.sysname@,
        PropertyId::KernelRelease => host.kernel.release@,
        PropertyId::KernelVersion => host.kernel.version@,
        PropertyId::OperatingSystemPrettyName => match host.os_release {
            Some(d) => d.pretty_name@,
            None => "<unknown>"@,
        },
        PropertyId::OperatingSystemCpeName => match host.os_release {
            Some(d) => match d.cpe_name {
                Some(c) => c@,
                None => "<unknown>"@,
            },
            None => "<unknown>"@,
        },
        PropertyId::HomeUrl => match host.os_release {
            Some(d) => d.home_url@,
            None => "<unknown>"@,
        },
    }
}

pub fn read_reply(p: PropertyId, host: &HostState) -> (r: String)
    ensures
        r@ == read_reply_spec(p, *host),
{
    match p {
        PropertyId::Hostname => host.hostname.clone(),
        PropertyId::StaticHostname => match &host.static_hostname_file {
            Some(s) => trim_end(s.as_str()),
            None => "unknown".to_owned(),
        },
        PropertyId::PrettyHostname => "".to_owned(),
        PropertyId::IconName => match &host.chassis {
            Some(c) => {
                let label = c.label();
                "computer-".to_owned().concat(label.as_str())
            },
            None => "computer".to_owned(),
        },
        PropertyId::Chassis => match &host.chassis {
            Some(c) => c.label(),
            None => "".to_owned(),
        },
        PropertyId::Deployment => "".to_owned(),
        PropertyId::Location => "".to_owned(),
        PropertyId::KernelName => host.kernel.sysname.clone(),
        PropertyId::KernelRelease => host.kernel.release.clone(),
        PropertyId::KernelVersion => host.kernel.version.clone(),
        PropertyId::OperatingSystemPrettyName => match &host.os_release {
            Some(d) => d.pretty_name.clone(),
            None => "<unknown>".to_owned(),
        },
        PropertyId::OperatingSystemCpeName => match &host.os_release {
            Some(d) => match &d.cpe_name {
                Some(c) => c.clone(),
                None => "<unknown>".to_owned(),
            },
            None => "<unknown>".to_owned(),
        },
        PropertyId::HomeUrl => match &host.os_release {
            Some(d) => d.home_url.clone(),
            None => "<unknown>".to_owned(),
        },
    }
}

/// The kernel identity properties.
pub open spec fn is_kernel_property(p: PropertyId) -> bool {
    p == PropertyId::KernelName || p == PropertyId::KernelRelease || p == PropertyId::KernelVersion
}

/// Repeated reads of a kernel identity property within one process
/// lifetime return identical values: each read is a function of the
/// snapshot alone, so any two replies computed from the same snapshot
/// are equal.
pub proof fn lemma_kernel_reads_idempotent(
    p: PropertyId,
    host: HostState,
    first: Seq<char>,
    second: Seq<char>,
)
    requires
        is_kernel_property(p),
        first == read_reply_spec(p, host),
        second == read_reply_spec(p, host),
    ensures
        first == second,
{
}

} // verus!
