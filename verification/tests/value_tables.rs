use arm_attr::enums::{
    AbiAlignNeeded, AbiVfpArgs, Compat, CpuArch, CpuArchProfile, CpuName, DivUse, FpArch,
    ThumbIsaUse,
};

#[test]
fn cpu_arch_table_round_trips() {
    assert_eq!(CpuArch::from_value(0), CpuArch::PreV4);
    assert_eq!(CpuArch::from_value(4), CpuArch::V5TE);
    assert_eq!(CpuArch::from_value(22), CpuArch::V9A);
    assert_eq!(CpuArch::V9A.value(), 22);
    assert_eq!(CpuArch::from_value(99), CpuArch::Unknown(99));
    assert_eq!(CpuArch::Unknown(99).value(), 99);
}

#[test]
fn cpu_arch_profile_uses_ascii_values() {
    assert_eq!(CpuArchProfile::from_value(0), CpuArchProfile::NotApplicable);
    assert_eq!(CpuArchProfile::from_value(b'A'), CpuArchProfile::Application);
    assert_eq!(CpuArchProfile::from_value(b'R'), CpuArchProfile::RealTime);
    assert_eq!(CpuArchProfile::from_value(b'M'), CpuArchProfile::Microcontroller);
    assert_eq!(CpuArchProfile::from_value(b'S'), CpuArchProfile::Classic);
    assert_eq!(CpuArchProfile::Application.value(), b'A');
    assert_eq!(CpuArchProfile::from_value(b'Z'), CpuArchProfile::Unknown(b'Z'));
}

#[test]
fn align_needed_keeps_the_power_range() {
    assert_eq!(AbiAlignNeeded::from_value(2), AbiAlignNeeded::Align4);
    assert_eq!(AbiAlignNeeded::from_value(4), AbiAlignNeeded::Align2n(4));
    assert_eq!(AbiAlignNeeded::from_value(12), AbiAlignNeeded::Align2n(12));
    assert_eq!(AbiAlignNeeded::from_value(13), AbiAlignNeeded::Unknown(13));
    assert_eq!(AbiAlignNeeded::Align2n(7).value(), 7);
}

#[test]
fn unrecognized_bytes_keep_their_value() {
    assert_eq!(ThumbIsaUse::from_value(9), ThumbIsaUse::Unknown(9));
    assert_eq!(ThumbIsaUse::Unknown(9).value(), 9);
    assert_eq!(FpArch::from_value(100), FpArch::Unknown(100));
    assert_eq!(DivUse::from_value(3), DivUse::Unknown(3));
    assert_eq!(AbiVfpArgs::from_value(77).value(), 77);
}

#[test]
fn cpu_names_map_through_the_fixed_table() {
    assert_eq!(CpuName::from_name("ARM946E-S"), CpuName::Arm946ES);
    assert_eq!(CpuName::from_name("Cortex-A9"), CpuName::CortexA9);
    assert_eq!(CpuName::from_name("made-up"), CpuName::Other(String::from("made-up")));
}

#[test]
fn compat_constructor_matches_the_flag() {
    assert_eq!(Compat::new(0, String::from("ignored")), Compat::Always);
    assert_eq!(
        Compat::new(1, String::from("XYZ")),
        Compat::ByToolchain(String::from("XYZ"))
    );
    assert_eq!(
        Compat::new(42, String::from("foo")),
        Compat::Private { flag: 42, vendor: String::from("foo") }
    );
    assert_eq!(Compat::Always.value(), 0);
    assert_eq!(Compat::ByToolchain(String::from("XYZ")).value(), 1);
    assert_eq!(Compat::Private { flag: 42, vendor: String::from("foo") }.value(), 42);
}
