//! The property registry and the dispatch rules.
//!
//! The service exposes a fixed table of named properties and one
//! privileged method. The table never changes at runtime: which
//! properties are writable, which action gates each write, and which
//! writes carry an effect are all functions of the property alone.
//! Reads never pass through the authorization gate; every gated
//! operation passes through it exactly once, and a gate refusal is
//! propagated verbatim, before any question of whether the operation
//! is implemented at all.

use crate::authz::{gate, gate_spec, AuthorityReply, AuthzError};
use vstd::prelude::*;

verus! {

/// The properties the service exposes.
#[derive(Clone, Copy, Debug, PartialEq, Eq, Structural)]
pub enum PropertyId {
    Hostname,
    StaticHostname,
    PrettyHostname,
    IconName,
    Chassis,
    Deployment,
    Location,
    KernelName,
    KernelRelease,
    KernelVersion,
    OperatingSystemPrettyName,
    OperatingSystemCpeName,
    HomeUrl,
}

/// One privileged action class, as the authorization authority names
/// it. One action may gate several properties: every machine-info
/// field shares `SetMachineInfo`.
#[derive(Clone, Copy, Debug, PartialEq, Eq, Structural)]
pub enum ActionId {
    SetHostname,
    SetStaticHostname,
    SetMachineInfo,
    GetProductUuid,
}

impl ActionId {
    /// The stable string under which the authority knows this action.
    pub open spec fn name_spec(self) -> Seq<char> {
        match self {
            ActionId::SetHostname => "org.freedesktop.hostname1.set-hostname"@,
            ActionId::SetStaticHostname => "org.freedesktop.hostname1.set-static-hostname"@,
            ActionId::SetMachineInfo => "org.freedesktop.hostname1.set-machine-info"@,
            ActionId::GetProductUuid => "org.freedesktop.hostname1.get-product-uuid"@,
        }
    }

    pub fn name(self) -> (r: String)
        ensures
            r@ == self.name_spec(),
    {
        match self {
            ActionId::SetHostname => "org.freedesktop.hostname1.set-hostname".to_owned(),
            ActionId::SetStaticHostname => "org.freedesktop.hostname1.set-static-hostname"
                .to_owned(),
            ActionId::SetMachineInfo => "org.freedesktop.hostname1.set-machine-info".to_owned(),
            ActionId::GetProductUuid => "org.freedesktop.hostname1.get-product-uuid".to_owned(),
        }
    }
}

/// The faults a caller can be shown, named as the IPC bus names them.
#[derive(Clone, Copy, Debug, PartialEq, Eq, Structural)]
pub enum Fault {
    AccessDenied,
    InteractiveAuthorizationRequired,
    NotSupported,
    Failed,
}

impl Fault {
    /// The error name under which the fault travels on the bus.
    pub open spec fn name_spec(self) -> Seq<char> {
        match self {
            Fault::AccessDenied => "org.freedesktop.DBus.Error.AccessDenied"@,
            Fault::InteractiveAuthorizationRequired => "org.freedesktop.DBus.Error.InteractiveAuthorizationRequired"@,
            Fault::NotSupported => "org.freedesktop.DBus.Error.NotSupported"@,
            Fault::Failed => "org.freedesktop.DBus.Error.Failed"@,
        }
    }

    pub fn name(self) -> (r: String)
        ensures
            r@ == self.name_spec(),
    {
        match self {
            Fault::AccessDenied => "org.freedesktop.DBus.Error.AccessDenied".to_owned(),
            Fault::InteractiveAuthorizationRequired => "org.freedesktop.DBus.Error.InteractiveAuthorizationRequired"
                .to_owned(),
            Fault::NotSupported => "org.freedesktop.DBus.Error.NotSupported".to_owned(),
            Fault::Failed => "org.freedesktop.DBus.Error.Failed".to_owned(),
        }
    }
}

/// How each gate refusal is surfaced to the caller. The distinction
/// between an outright denial and an available challenge is the
/// contract external tooling depends on to decide whether to prompt;
/// an unreachable authority is a generic failure, never a denial.
pub open spec fn fault_of_spec(e: AuthzError) -> Fault {
    match e {
        AuthzError::Denied => Fault::AccessDenied,
        AuthzError::ChallengeRequired => Fault::InteractiveAuthorizationRequired,
        AuthzError::AuthorityUnavailable => Fault::Failed,
    }
}

pub fn fault_of(e: AuthzError) -> (r: Fault)
    ensures
        r == fault_of_spec(e),
{
    match e {
        AuthzError::Denied => Fault::AccessDenied,
        AuthzError::ChallengeRequired => Fault::InteractiveAuthorizationRequired,
        AuthzError::AuthorityUnavailable => Fault::Failed,
    }
}

/// The registry's write column: the action that gates a write to each
/// property, or `None` for the read-only rows, which expose no write
/// at all.
pub open spec fn write_action_spec(p: PropertyId) -> Option<ActionId> {
    match p {
        PropertyId::Hostname => Some(ActionId::SetHostname),
        PropertyId::StaticHostname => Some(ActionId::SetStaticHostname),
        PropertyId::PrettyHostname => Some(ActionId::SetMachineInfo),
        PropertyId::IconName => Some(ActionId::SetMachineInfo),
        PropertyId::Chassis => Some(ActionId::SetMachineInfo),
        PropertyId::Deployment => Some(ActionId::SetMachineInfo),
        PropertyId::Location => Some(ActionId::SetMachineInfo),
        PropertyId::KernelName => None,
        PropertyId::KernelRelease => None,
        PropertyId::KernelVersion => None,
        PropertyId::OperatingSystemPrettyName => None,
        PropertyId::OperatingSystemCpeName => None,
        PropertyId::HomeUrl => None,
    }
}

pub fn write_action(p: PropertyId) -> (r: Option<ActionId>)
    ensures
        r == write_action_spec(p),
{
    match p {
        PropertyId::Hostname => Some(ActionId::SetHostname),
        PropertyId::StaticHostname => Some(ActionId::SetStaticHostname),
        PropertyId::PrettyHostname => Some(ActionId::SetMachineInfo),
        PropertyId::IconName => Some(ActionId::SetMachineInfo),
        PropertyId::Chassis => Some(ActionId::SetMachineInfo),
        PropertyId::Deployment => Some(ActionId::SetMachineInfo),
        PropertyId::Location => Some(ActionId::SetMachineInfo),
        PropertyId::KernelName => None,
        PropertyId::KernelRelease => None,
        PropertyId::KernelVersion => None,
        PropertyId::OperatingSystemPrettyName => None,
        PropertyId::OperatingSystemCpeName => None,
        PropertyId::HomeUrl => None,
    }
}

/// The effect a permitted write carries. Only the two hostname rows
/// are implemented; a permitted write to any other writable row has no
/// effect and reports `NotSupported`.
#[derive(Clone, Copy, Debug, PartialEq, Eq, Structural)]
pub enum WriteEffect {
    /// Apply the value as the running kernel hostname.
    SetRunningHostname,
    /// Persist the value as the static hostname.
    PersistStaticHostname,
}

pub open spec fn write_effect_spec(p: PropertyId) -> Option<WriteEffect> {
    match p {
        PropertyId::Hostname => Some(WriteEffect::SetRunningHostname),
        PropertyId::StaticHostname => Some(WriteEffect::PersistStaticHostname),
        _ => None,
    }
}

pub fn write_effect(p: PropertyId) -> (r: Option<WriteEffect>)
    ensures
        r == write_effect_spec(p),
{
    match p {
        PropertyId::Hostname => Some(WriteEffect::SetRunningHostname),
        PropertyId::StaticHostname => Some(WriteEffect::PersistStaticHostname),
        _ => None,
    }
}

/// One incoming call, as the dispatcher sees it.
#[derive(Clone, Copy, Debug, PartialEq, Eq, Structural)]
pub enum Operation {
    ReadProperty(PropertyId),
    WriteProperty(PropertyId),
    GetProductUuid,
}

/// The action whose authorization the operation needs before anything
/// else may happen: none for any read, the property's gating action
/// for a write, and the dedicated action for the product-UUID method.
pub open spec fn required_action_spec(op: Operation) -> Option<ActionId> {
    match op {
        Operation::ReadProperty(_) => None,
        Operation::WriteProperty(p) => write_action_spec(p),
        Operation::GetProductUuid => Some(ActionId::GetProductUuid),
    }
}

pub fn required_action(op: Operation) -> (r: Option<ActionId>)
    ensures
        r == required_action_spec(op),
        op matches Operation::ReadProperty(_) ==> r is None,
{
    match op {
        Operation::ReadProperty(_) => None,
        Operation::WriteProperty(p) => write_action(p),
        Operation::GetProductUuid => Some(ActionId::GetProductUuid),
    }
}

/// Reads never consult the authorization gate: no read operation has a
/// required action.
pub proof fn lemma_reads_never_gated()
    ensures
        forall|p: PropertyId| required_action_spec(Operation::ReadProperty(p)) is None,
{
}

/// What a gated operation comes to once the authority has replied.
pub open spec fn gated_decision_spec(
    op: Operation,
    reply: AuthorityReply,
    interactive: bool,
) -> Result<WriteEffect, Fault> {
    match gate_spec(reply, interactive) {
        Err(e) => Err(fault_of_spec(e)),
        Ok(()) => match op {
            Operation::WriteProperty(p) => match write_effect_spec(p) {
                Some(eff) => Ok(eff),
                None => Err(Fault::NotSupported),
            },
            _ => Err(Fault::NotSupported),
        },
    }
}

/// Decide a gated operation from the authority's reply: a gate refusal
/// is propagated verbatim and nothing else is attempted; a pass yields
/// the write's effect, or `NotSupported` where the operation is
/// deliberately unimplemented (the product-UUID method and every
/// machine-info write).
///
/// The caller must have resolved the operation's required action and
/// put it to the authority first; reads have none and never come here.
pub fn gated_decision(op: Operation, reply: &AuthorityReply, interactive: bool) -> (r: Result<
    WriteEffect,
    Fault,
>)
    requires
        required_action_spec(op) is Some,
    ensures
        r == gated_decision_spec(op, *reply, interactive),
        gate_spec(*reply, interactive) matches Err(e) ==> r == Result::<WriteEffect, Fault>::Err(
            fault_of_spec(e),
        ),
        gate_spec(*reply, interactive) is Ok && (op matches Operation::WriteProperty(p)
            && write_effect_spec(p) is Some) ==> r == Result::<WriteEffect, Fault>::Ok(
            write_effect_spec(op->WriteProperty_0).unwrap(),
        ),
        gate_spec(*reply, interactive) is Ok && (op matches Operation::WriteProperty(p)
            && write_effect_spec(p) is None) ==> r == Result::<WriteEffect, Fault>::Err(
            Fault::NotSupported,
        ),
        gate_spec(*reply, interactive) is Ok && op is GetProductUuid ==> r == Result::<
            WriteEffect,
            Fault,
        >::Err(Fault::NotSupported),
{
    match gate(reply, interactive) {
        Err(e) => Err(fault_of(e)),
        Ok(()) => match op {
            Operation::WriteProperty(p) => match write_effect(p) {
                Some(eff) => Ok(eff),
                None => Err(Fault::NotSupported),
            },
            _ => Err(Fault::NotSupported),
        },
    }
}

/// An authorization failure takes precedence over `NotSupported`: for
/// every gated operation, implemented or not, a gate refusal is what
/// the caller sees, so a caller without permission never learns
/// whether the feature exists; and only a gate pass can surface
/// `NotSupported`.
pub proof fn lemma_authorization_precedes_not_supported(
    op: Operation,
    reply: AuthorityReply,
    interactive: bool,
)
    requires
        required_action_spec(op) is Some,
    ensures
        gate_spec(reply, interactive) matches Err(e) ==> gated_decision_spec(op, reply, interactive)
            == Result::<WriteEffect, Fault>::Err(fault_of_spec(e)),
        gated_decision_spec(op, reply, interactive) == Result::<WriteEffect, Fault>::Err(
            Fault::NotSupported,
        ) ==> gate_spec(reply, interactive) is Ok,
{
}

} // verus!
