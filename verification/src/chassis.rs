//! Chassis (form-factor) classification.
//!
//! The classifier turns an ordered list of platform detection sources,
//! each already read into a plain value, into one normalized chassis
//! category, or none when no source yields a recognized code.

use crate::text::{digits_val, is_decimal_u32, parse_u32, str_eq, trim_end, trim_end_spec};
use vstd::prelude::*;

verus! {

/// Normalized machine form factor, physical or virtual.
#[derive(Clone, Copy, Debug, PartialEq, Eq, Structural)]
pub enum ChassisCategory {
    Desktop,
    Laptop,
    Server,
    Tablet,
    Handset,
    Convertible,
    Embedded,
    Container,
    Vm,
}

impl ChassisCategory {
    /// The lower-case label that names this category on the wire.
    pub open spec fn label_spec(self) -> Seq<char> {
        match self {
            ChassisCategory::Desktop => "desktop"@,
            ChassisCategory::Laptop => "laptop"@,
            ChassisCategory::Server => "server"@,
            ChassisCategory::Tablet => "tablet"@,
            ChassisCategory::Handset => "handset"@,
            ChassisCategory::Convertible => "convertible"@,
            ChassisCategory::Embedded => "embedded"@,
            ChassisCategory::Container => "container"@,
            ChassisCategory::Vm => "vm"@,
        }
    }

    pub fn label(self) -> (r: String)
        ensures
            r@ == self.label_spec(),
    {
        match self {
            ChassisCategory::Desktop => "desktop".to_owned(),
            ChassisCategory::Laptop => "laptop".to_owned(),
            ChassisCategory::Server => "server".to_owned(),
            ChassisCategory::Tablet => "tablet".to_owned(),
            ChassisCategory::Handset => "handset".to_owned(),
            ChassisCategory::Convertible => "convertible".to_owned(),
            ChassisCategory::Embedded => "embedded".to_owned(),
            ChassisCategory::Container => "container".to_owned(),
            ChassisCategory::Vm => "vm".to_owned(),
        }
    }
}

/// ACPI preferred-PM-profile codes, per the ACPI specification's
/// fixed-table field of that name.
pub open spec fn acpi_category_spec(code: u32) -> Option<ChassisCategory> {
    if code == 1 || code == 3 || code == 6 {
        Some(ChassisCategory::Desktop)
    } else if code == 2 {
        Some(ChassisCategory::Laptop)
    } else if code == 4 || code == 5 || code == 7 {
        Some(ChassisCategory::Server)
    } else if code == 8 {
        Some(ChassisCategory::Tablet)
    } else {
        None
    }
}

pub fn acpi_category(code: u32) -> (r: Option<ChassisCategory>)
    ensures
        r == acpi_category_spec(code),
{
    match code {
        1 | 3 | 6 => Some(ChassisCategory::Desktop),
        2 => Some(ChassisCategory::Laptop),
        4 | 5 | 7 => Some(ChassisCategory::Server),
        8 => Some(ChassisCategory::Tablet),
        _ => None,
    }
}

/// DMI/SMBIOS chassis-type codes, per the SMBIOS specification's
/// system-enclosure table.
pub open spec fn dmi_category_spec(code: u32) -> Option<ChassisCategory> {
    if code == 0x03 || code == 0x04 || code == 0x06 || code == 0x07 || code == 0x0D || code == 0x23
        || code == 0x24 {
        Some(ChassisCategory::Desktop)
    } else if code == 0x08 || code == 0x09 || code == 0x0A || code == 0x0E {
        Some(ChassisCategory::Laptop)
    } else if code == 0x0B {
        Some(ChassisCategory::Handset)
    } else if code == 0x11 || code == 0x1C || code == 0x1D {
        Some(ChassisCategory::Server)
    } else if code == 0x1E {
        Some(ChassisCategory::Tablet)
    } else if code == 0x1F || code == 0x20 {
        Some(ChassisCategory::Convertible)
    } else if code == 0x21 || code == 0x22 {
        Some(ChassisCategory::Embedded)
    } else {
        None
    }
}

pub fn dmi_category(code: u32) -> (r: Option<ChassisCategory>)
    ensures
        r == dmi_category_spec(code),
{
    match code {
        0x03 | 0x04 | 0x06 | 0x07 | 0x0D | 0x23 | 0x24 => Some(ChassisCategory::Desktop),
        0x08 | 0x09 | 0x0A | 0x0E => Some(ChassisCategory::Laptop),
        0x0B => Some(ChassisCategory::Handset),
        0x11 | 0x1C | 0x1D => Some(ChassisCategory::Server),
        0x1E => Some(ChassisCategory::Tablet),
        0x1F | 0x20 => Some(ChassisCategory::Convertible),
        0x21 | 0x22 => Some(ChassisCategory::Embedded),
        _ => None,
    }
}

/// A device-tree chassis-type string names its category directly, with
/// no normalization: it is recognized exactly when it equals one of the
/// category labels.
pub open spec fn devicetree_category_spec(s: Seq<char>) -> Option<ChassisCategory> {
    if s == "desktop"@ {
        Some(ChassisCategory::Desktop)
    } else if s == "laptop"@ {
        Some(ChassisCategory::Laptop)
    } else if s == "server"@ {
        Some(ChassisCategory::Server)
    } else if s == "tablet"@ {
        Some(ChassisCategory::Tablet)
    } else if s == "handset"@ {
        Some(ChassisCategory::Handset)
    } else if s == "convertible"@ {
        Some(ChassisCategory::Convertible)
    } else if s == "embedded"@ {
        Some(ChassisCategory::Embedded)
    } else if s == "container"@ {
        Some(ChassisCategory::Container)
    } else if s == "vm"@ {
        Some(ChassisCategory::Vm)
    } else {
        None
    }
}

pub fn devicetree_category(s: &str) -> (r: Option<ChassisCategory>)
    ensures
        r == devicetree_category_spec(s@),
{
    if str_eq(s, "desktop") {
        Some(ChassisCategory::Desktop)
    } else if str_eq(s, "laptop") {
        Some(ChassisCategory::Laptop)
    } else if str_eq(s, "server") {
        Some(ChassisCategory::Server)
    } else if str_eq(s, "tablet") {
        Some(ChassisCategory::Tablet)
    } else if str_eq(s, "handset") {
        Some(ChassisCategory::Handset)
    } else if str_eq(s, "convertible") {
        Some(ChassisCategory::Convertible)
    } else if str_eq(s, "embedded") {
        Some(ChassisCategory::Embedded)
    } else if str_eq(s, "container") {
        Some(ChassisCategory::Container)
    } else if str_eq(s, "vm") {
        Some(ChassisCategory::Vm)
    } else {
        None
    }
}

/// Kernel-environment SMBIOS chassis strings, as the BSD-family kernels
/// spell the SMBIOS enclosure names; matching is case-sensitive and
/// exact, and unmatched strings are unrecognized.
pub open spec fn kenv_category_spec(s: Seq<char>) -> Option<ChassisCategory> {
    if s == "Desktop"@ || s == "Low Profile Desktop"@ || s == "Pizza Box"@ || s == "Mini Tower"@
        || s == "Tower"@ || s == "All in One"@ || s == "Sealed-case PC"@ || s == "Mini PC"@ || s
        == "Stick PC"@ {
        Some(ChassisCategory::Desktop)
    } else if s == "Portable"@ || s == "Laptop"@ || s == "Notebook"@ || s == "Sub Notebook"@ {
        Some(ChassisCategory::Laptop)
    } else if s == "Hand Held"@ {
        Some(ChassisCategory::Handset)
    } else if s == "Main Server Chassis"@ || s == "Blade"@ || s == "Blade Enclosure"@ {
        Some(ChassisCategory::Server)
    } else if s == "Tablet"@ {
        Some(ChassisCategory::Tablet)
    } else if s == "Convertible"@ || s == "Detachable"@ {
        Some(ChassisCategory::Convertible)
    } else {
        None
    }
}

pub fn kenv_category(s: &str) -> (r: Option<ChassisCategory>)
    ensures
        r == kenv_category_spec(s@),
{
    if str_eq(s, "Desktop") || str_eq(s, "Low Profile Desktop") || str_eq(s, "Pizza Box") || str_eq(
        s,
        "Mini Tower",
    ) || str_eq(s, "Tower") || str_eq(s, "All in One") || str_eq(s, "Sealed-case PC") || str_eq(
        s,
        "Mini PC",
    ) || str_eq(s, "Stick PC") {
        Some(ChassisCategory::Desktop)
    } else if str_eq(s, "Portable") || str_eq(s, "Laptop") || str_eq(s, "Notebook") || str_eq(
        s,
        "Sub Notebook",
    ) {
        Some(ChassisCategory::Laptop)
    } else if str_eq(s, "Hand Held") {
        Some(ChassisCategory::Handset)
    } else if str_eq(s, "Main Server Chassis") || str_eq(s, "Blade") || str_eq(
        s,
        "Blade Enclosure",
    ) {
        Some(ChassisCategory::Server)
    } else if str_eq(s, "Tablet") {
        Some(ChassisCategory::Tablet)
    } else if str_eq(s, "Convertible") || str_eq(s, "Detachable") {
        Some(ChassisCategory::Convertible)
    } else {
        None
    }
}

/// Turn the raw text of an integer pseudo-file (the ACPI profile and
/// the DMI chassis-type files) into a chassis code: trailing
/// whitespace is removed and the rest read as decimal. Text that does
/// not denote a `u32` yields nothing, which the classifier treats as
/// an unrecognized source, never as a failure.
pub fn parse_chassis_code(raw: &str) -> (r: Option<u32>)
    ensures
        is_decimal_u32(trim_end_spec(raw@)) ==> r == Some(
            (digits_val(trim_end_spec(raw@)) as u32),
        ),
        !is_decimal_u32(trim_end_spec(raw@)) ==> r is None,
{
    let t = trim_end(raw);
    parse_u32(t.as_str())
}

/// One detection source, already read into a plain value: `None` inside
/// a variant stands for a source that was absent or unreadable.
pub enum SourceReading {
    DeviceTree(Option<String>),
    Acpi(Option<u32>),
    Dmi(Option<u32>),
    Kenv(Option<String>),
}

/// What one source reading contributes: a category when its code is
/// present and recognized, nothing otherwise.
pub open spec fn source_category_spec(s: SourceReading) -> Option<ChassisCategory> {
    match s {
        SourceReading::DeviceTree(Some(t)) => devicetree_category_spec(t@),
        SourceReading::DeviceTree(None) => None,
        SourceReading::Acpi(Some(c)) => acpi_category_spec(c),
        SourceReading::Acpi(None) => None,
        SourceReading::Dmi(Some(c)) => dmi_category_spec(c),
        SourceReading::Dmi(None) => None,
        SourceReading::Kenv(Some(t)) => kenv_category_spec(t@),
        SourceReading::Kenv(None) => None,
    }
}

pub fn source_category(s: &SourceReading) -> (r: Option<ChassisCategory>)
    ensures
        r == source_category_spec(*s),
{
    match s {
        SourceReading::DeviceTree(Some(t)) => devicetree_category(t.as_str()),
        SourceReading::DeviceTree(None) => None,
        SourceReading::Acpi(Some(c)) => acpi_category(*c),
        SourceReading::Acpi(None) => None,
        SourceReading::Dmi(Some(c)) => dmi_category(*c),
        SourceReading::Dmi(None) => None,
        SourceReading::Kenv(Some(t)) => kenv_category(t.as_str()),
        SourceReading::Kenv(None) => None,
    }
}

/// The category of the first recognized source, in list order.
pub open spec fn first_recognized(sources: Seq<SourceReading>) -> Option<ChassisCategory>
    decreases sources.len(),
{
    if sources.len() == 0 {
        None
    } else if source_category_spec(sources[0]) is Some {
        source_category_spec(sources[0])
    } else {
        first_recognized(sources.drop_first())
    }
}

/// The whole classification: virtualization and containment checks come
/// first and are never overridden by a physical source; otherwise the
/// first recognized source in priority order decides, and an exhausted
/// list classifies as absent.
pub open spec fn classify_spec(container: bool, vm: bool, sources: Seq<SourceReading>) -> Option<
    ChassisCategory,
> {
    if container {
        Some(ChassisCategory::Container)
    } else if vm {
        Some(ChassisCategory::Vm)
    } else {
        first_recognized(sources)
    }
}

pub fn classify(container: bool, vm: bool, sources: &Vec<SourceReading>) -> (r: Option<
    ChassisCategory,
>)
    ensures
        r == classify_spec(container, vm, sources@),
        container ==> r == Some(ChassisCategory::Container),
        !container && vm ==> r == Some(ChassisCategory::Vm),
{
    if container {
        return Some(ChassisCategory::Container);
    }
    if vm {
        return Some(ChassisCategory::Vm);
    }
    let mut i: usize = 0;
    proof {
        assert(sources@.skip(0) =~= sources@);
    }
    while i < sources.len()
        invariant
            !container,
            !vm,
            i <= sources@.len(),
            first_recognized(sources@) == first_recognized(sources@.skip(i as int)),
        decreases sources@.len() - i,
    {
        let c = source_category(&sources[i]);
        proof {
            assert(sources@.skip(i as int)[0] == sources@[i as int]);
            assert(sources@.skip(i as int).drop_first() =~= sources@.skip(i + 1));
        }
        if c.is_some() {
            return c;
        }
        i = i + 1;
    }
    None
}

/// Containment detection: deliberately always negative, as stated by
/// the service's contract for the detection stubs.
pub fn is_container() -> (r: bool)
    ensures
        r == false,
{
    false
}

/// Virtualization detection: deliberately always negative, as stated by
/// the service's contract for the detection stubs.
pub fn is_vm() -> (r: bool)
    ensures
        r == false,
{
    false
}

/// Classification as the running service performs it: the containment
/// and virtualization stubs feed the classifier, followed by the
/// platform's source readings.
pub fn auto_chassis(sources: &Vec<SourceReading>) -> (r: Option<ChassisCategory>)
    ensures
        r == classify_spec(false, false, sources@),
{
    let container = is_container();
    let vm = is_vm();
    classify(container, vm, sources)
}

/// The first recognized source in priority order wins: whatever stands
/// after position `i` in the list cannot change the result once every
/// source before `i` is unrecognized and the source at `i` is
/// recognized.
pub proof fn lemma_first_recognized_wins(sources: Seq<SourceReading>, i: int)
    requires
        0 <= i < sources.len(),
        forall|j: int| 0 <= j < i ==> source_category_spec(sources[j]) is None,
        source_category_spec(sources[i]) is Some,
    ensures
        first_recognized(sources) == source_category_spec(sources[i]),
    decreases i,
{
    if i > 0 {
        assert(sources.drop_first()[i - 1] == sources[i]);
        assert(forall|j: int|
            0 <= j < i - 1 ==> sources.drop_first()[j] == sources[j + 1]
                && source_category_spec(sources[j + 1]) is None);
        lemma_first_recognized_wins(sources.drop_first(), i - 1);
    }
}

} // verus!
