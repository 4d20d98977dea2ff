use hostnamed::authz::AuthorityReply;
use hostnamed::registry::{
    gated_decision, required_action, write_action, write_effect, ActionId, Fault, Operation,
    PropertyId, WriteEffect,
};

const ALL_PROPERTIES: [PropertyId; 13] = [
    PropertyId::Hostname,
    PropertyId::StaticHostname,
    PropertyId::PrettyHostname,
    PropertyId::IconName,
    PropertyId::Chassis,
    PropertyId::Deployment,
    PropertyId::Location,
    PropertyId::KernelName,
    PropertyId::KernelRelease,
    PropertyId::KernelVersion,
    PropertyId::OperatingSystemPrettyName,
    PropertyId::OperatingSystemCpeName,
    PropertyId::HomeUrl,
];

/// A gate stub that counts how often the dispatcher would consult the
/// authority: once per resolved required action, never otherwise.
struct CountingGate {
    calls: usize,
}

impl CountingGate {
    fn consult(&mut self) -> AuthorityReply {
        self.calls += 1;
        AuthorityReply::Verdict { authorized: true, challenge: false }
    }

    fn run(&mut self, op: Operation) {
        if let Some(_action) = required_action(op) {
            let reply = self.consult();
            let _ = gated_decision(op, &reply, false);
        }
    }
}

#[test]
fn reads_never_invoke_the_gate() {
    let mut stub = CountingGate { calls: 0 };
    for p in ALL_PROPERTIES {
        stub.run(Operation::ReadProperty(p));
    }
    assert_eq!(stub.calls, 0);
}

#[test]
fn gated_operations_invoke_the_gate_exactly_once_each() {
    let mut stub = CountingGate { calls: 0 };
    stub.run(Operation::WriteProperty(PropertyId::Hostname));
    assert_eq!(stub.calls, 1);
    stub.run(Operation::GetProductUuid);
    assert_eq!(stub.calls, 2);
}

#[test]
fn write_actions_match_the_registry_table() {
    assert_eq!(write_action(PropertyId::Hostname), Some(ActionId::SetHostname));
    assert_eq!(write_action(PropertyId::StaticHostname), Some(ActionId::SetStaticHostname));
    for p in [
        PropertyId::PrettyHostname,
        PropertyId::IconName,
        PropertyId::Chassis,
        PropertyId::Deployment,
        PropertyId::Location,
    ] {
        assert_eq!(write_action(p), Some(ActionId::SetMachineInfo));
    }
    for p in [
        PropertyId::KernelName,
        PropertyId::KernelRelease,
        PropertyId::KernelVersion,
        PropertyId::OperatingSystemPrettyName,
        PropertyId::OperatingSystemCpeName,
        PropertyId::HomeUrl,
    ] {
        assert_eq!(write_action(p), None);
    }
}

#[test]
fn product_uuid_method_is_gated_by_its_own_action() {
    assert_eq!(required_action(Operation::GetProductUuid), Some(ActionId::GetProductUuid));
}

#[test]
fn action_names_are_the_authority_action_ids() {
    assert_eq!(ActionId::SetHostname.name(), "org.freedesktop.hostname1.set-hostname");
    assert_eq!(
        ActionId::SetStaticHostname.name(),
        "org.freedesktop.hostname1.set-static-hostname"
    );
    assert_eq!(ActionId::SetMachineInfo.name(), "org.freedesktop.hostname1.set-machine-info");
    assert_eq!(ActionId::GetProductUuid.name(), "org.freedesktop.hostname1.get-product-uuid");
}

#[test]
fn denied_write_to_unimplemented_property_reports_the_denial() {
    // Authorization failures take precedence over NotSupported: a
    // caller without permission never learns whether a feature exists.
    let denied = AuthorityReply::Verdict { authorized: false, challenge: false };
    let r = gated_decision(Operation::WriteProperty(PropertyId::PrettyHostname), &denied, false);
    assert_eq!(r, Err(Fault::AccessDenied));
}

#[test]
fn authorized_write_to_unimplemented_property_reports_not_supported() {
    let authorized = AuthorityReply::Verdict { authorized: true, challenge: false };
    for p in [
        PropertyId::PrettyHostname,
        PropertyId::IconName,
        PropertyId::Chassis,
        PropertyId::Deployment,
        PropertyId::Location,
    ] {
        let r = gated_decision(Operation::WriteProperty(p), &authorized, false);
        assert_eq!(r, Err(Fault::NotSupported));
    }
}

#[test]
fn authorized_hostname_writes_yield_their_effects() {
    let authorized = AuthorityReply::Verdict { authorized: true, challenge: false };
    assert_eq!(
        gated_decision(Operation::WriteProperty(PropertyId::Hostname), &authorized, false),
        Ok(WriteEffect::SetRunningHostname)
    );
    assert_eq!(
        gated_decision(Operation::WriteProperty(PropertyId::StaticHostname), &authorized, true),
        Ok(WriteEffect::PersistStaticHostname)
    );
    assert_eq!(write_effect(PropertyId::Hostname), Some(WriteEffect::SetRunningHostname));
    assert_eq!(write_effect(PropertyId::PrettyHostname), None);
}

#[test]
fn product_uuid_is_not_supported_once_authorized() {
    let authorized = AuthorityReply::Verdict { authorized: true, challenge: false };
    assert_eq!(gated_decision(Operation::GetProductUuid, &authorized, false), Err(Fault::NotSupported));
}

#[test]
fn challenge_refusals_surface_on_writes_verbatim() {
    let challenge = AuthorityReply::Verdict { authorized: false, challenge: true };
    assert_eq!(
        gated_decision(Operation::WriteProperty(PropertyId::Hostname), &challenge, true),
        Err(Fault::InteractiveAuthorizationRequired)
    );
    assert_eq!(
        gated_decision(Operation::WriteProperty(PropertyId::Hostname), &challenge, false),
        Err(Fault::AccessDenied)
    );
}

#[test]
fn unreachable_authority_surfaces_as_generic_failure() {
    assert_eq!(
        gated_decision(Operation::WriteProperty(PropertyId::Hostname), &AuthorityReply::Unreachable, true),
        Err(Fault::Failed)
    );
}
