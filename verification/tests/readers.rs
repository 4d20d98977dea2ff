use hostnamed::chassis::ChassisCategory;
use hostnamed::host::{read_reply, HostState, KernelInfo, OsReleaseData};
use hostnamed::registry::PropertyId;
use hostnamed::text::{parse_u32, str_eq, trim_end};

fn sample_host() -> HostState {
    HostState {
        hostname: "box".to_owned(),
        static_hostname_file: Some("myhost\n".to_owned()),
        chassis: Some(ChassisCategory::Laptop),
        kernel: KernelInfo {
            sysname: "Linux".to_owned(),
            release: "6.1.0".to_owned(),
            version: "#1 SMP".to_owned(),
        },
        os_release: Some(OsReleaseData {
            pretty_name: "Example OS 1.0".to_owned(),
            home_url: "https://example.invalid/".to_owned(),
            cpe_name: Some("cpe:/o:example:example:1.0".to_owned()),
        }),
    }
}

#[test]
fn hostname_read_is_the_kernel_answer() {
    assert_eq!(read_reply(PropertyId::Hostname, &sample_host()), "box");
}

#[test]
fn static_hostname_read_trims_the_stored_value() {
    assert_eq!(read_reply(PropertyId::StaticHostname, &sample_host()), "myhost");
}

#[test]
fn unreadable_static_hostname_reads_as_unknown() {
    let mut host = sample_host();
    host.static_hostname_file = None;
    assert_eq!(read_reply(PropertyId::StaticHostname, &host), "unknown");
}

#[test]
fn empty_static_hostname_reads_as_empty() {
    let mut host = sample_host();
    host.static_hostname_file = Some("\n".to_owned());
    assert_eq!(read_reply(PropertyId::StaticHostname, &host), "");
}

#[test]
fn icon_name_derives_from_the_chassis() {
    assert_eq!(read_reply(PropertyId::IconName, &sample_host()), "computer-laptop");
}

#[test]
fn icon_name_falls_back_to_the_generic_icon() {
    let mut host = sample_host();
    host.chassis = None;
    assert_eq!(read_reply(PropertyId::IconName, &host), "computer");
}

#[test]
fn chassis_reads_as_its_label_or_empty() {
    assert_eq!(read_reply(PropertyId::Chassis, &sample_host()), "laptop");
    let mut host = sample_host();
    host.chassis = None;
    assert_eq!(read_reply(PropertyId::Chassis, &host), "");
}

#[test]
fn unbacked_machine_info_fields_read_as_empty() {
    let host = sample_host();
    assert_eq!(read_reply(PropertyId::PrettyHostname, &host), "");
    assert_eq!(read_reply(PropertyId::Deployment, &host), "");
    assert_eq!(read_reply(PropertyId::Location, &host), "");
}

#[test]
fn kernel_fields_read_from_the_snapshot() {
    let host = sample_host();
    assert_eq!(read_reply(PropertyId::KernelName, &host), "Linux");
    assert_eq!(read_reply(PropertyId::KernelRelease, &host), "6.1.0");
    assert_eq!(read_reply(PropertyId::KernelVersion, &host), "#1 SMP");
}

#[test]
fn repeated_kernel_reads_are_identical() {
    let host = sample_host();
    for p in [PropertyId::KernelName, PropertyId::KernelRelease, PropertyId::KernelVersion] {
        let first = read_reply(p, &host);
        let second = read_reply(p, &host);
        let third = read_reply(p, &host);
        assert_eq!(first, second);
        assert_eq!(second, third);
    }
}

#[test]
fn os_release_fields_read_from_the_record() {
    let host = sample_host();
    assert_eq!(read_reply(PropertyId::OperatingSystemPrettyName, &host), "Example OS 1.0");
    assert_eq!(
        read_reply(PropertyId::OperatingSystemCpeName, &host),
        "cpe:/o:example:example:1.0"
    );
    assert_eq!(read_reply(PropertyId::HomeUrl, &host), "https://example.invalid/");
}

#[test]
fn missing_os_release_reads_as_unknown() {
    let mut host = sample_host();
    host.os_release = None;
    assert_eq!(read_reply(PropertyId::OperatingSystemPrettyName, &host), "<unknown>");
    assert_eq!(read_reply(PropertyId::OperatingSystemCpeName, &host), "<unknown>");
    assert_eq!(read_reply(PropertyId::HomeUrl, &host), "<unknown>");
}

#[test]
fn missing_cpe_key_reads_as_unknown() {
    let mut host = sample_host();
    if let Some(d) = host.os_release.as_mut() {
        d.cpe_name = None;
    }
    assert_eq!(read_reply(PropertyId::OperatingSystemCpeName, &host), "<unknown>");
}

#[test]
fn trim_end_removes_only_trailing_whitespace() {
    assert_eq!(trim_end("myhost\n"), "myhost");
    assert_eq!(trim_end("  a b \t\r\n"), "  a b");
    assert_eq!(trim_end(""), "");
    assert_eq!(trim_end(" \t\n"), "");
    assert_eq!(trim_end("plain"), "plain");
}

#[test]
fn parse_u32_accepts_exactly_decimal_u32_strings() {
    assert_eq!(parse_u32("0"), Some(0));
    assert_eq!(parse_u32("042"), Some(42));
    assert_eq!(parse_u32("4294967295"), Some(u32::MAX));
    assert_eq!(parse_u32("4294967296"), None);
    assert_eq!(parse_u32("12x"), None);
    assert_eq!(parse_u32(""), None);
}

#[test]
fn str_eq_compares_by_contents() {
    assert!(str_eq("abc", "abc"));
    assert!(!str_eq("abc", "abd"));
    assert!(!str_eq("abc", "ab"));
}
