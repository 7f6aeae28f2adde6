use arm_attr::enums::{
    AbiAlignNeeded, AbiAlignPreserved, AbiEnumSize, AbiFp16BitFormat, AbiFpDenormal,
    AbiFpExceptions, AbiFpNumberModel, AbiFpOptGoals, AbiFpRounding, AbiFpUserExceptions,
    AbiHardFpUse, AbiOptGoals, AbiPcsGotUse, AbiPcsR9Use, AbiPcsRoData, AbiPcsRwData,
    AbiPcsWcharT, AbiVfpArgs, AbiWmmxArgs, AlsoCompatWith, ArmIsaUse, AsimdArch, BtiExt,
    BtiUse, Compat, CpuArch, CpuArchProfile, CpuName, CpuUnalignedAccess, DivUse, DspExt,
    FpArch, FpHpExt, FramePointerUse, MpExtUse, MveArch, PacExt, PacretUse, PcsConfig,
    T2EeUse, ThumbIsaUse, VirtualUse, WmmxArch,
};
use arm_attr::globals::{
    Tag_ABI_FP_16bit_format, Tag_ABI_FP_denormal, Tag_ABI_FP_exceptions, Tag_ABI_FP_number_model,
    Tag_ABI_FP_optimization_goals, Tag_ABI_FP_rounding, Tag_ABI_FP_user_exceptions,
    Tag_ABI_HardFP_use, Tag_ABI_PCS_GOT_use, Tag_ABI_PCS_R9_use, Tag_ABI_PCS_RO_data,
    Tag_ABI_PCS_RW_data, Tag_ABI_PCS_wchar_t, Tag_ABI_VFP_args, Tag_ABI_WMMX_args,
    Tag_ABI_align_needed, Tag_ABI_align_preserved, Tag_ABI_enum_size, Tag_ABI_optimization_goals,
    Tag_ARM_ISA_use, Tag_Advanced_SIMD_arch, Tag_BTI_extension, Tag_BTI_use, Tag_CPU_arch,
    Tag_CPU_arch_profile, Tag_CPU_name, Tag_CPU_raw_name, Tag_CPU_unaligned_access, Tag_DIV_use,
    Tag_DSP_extension, Tag_FP_HP_extension, Tag_FP_arch, Tag_File, Tag_FramePointer_use,
    Tag_MPextension_use, Tag_MVE_arch, Tag_PACRET_use, Tag_PAC_extension, Tag_PCS_config,
    Tag_THUMB_ISA_use, Tag_T2EE_use, Tag_Virtualization_use, Tag_WMMX_arch,
    Tag_also_compatible_with, Tag_compatibility, Tag_conformance, Tag_nodefaults,
};
use arm_attr::tag::Tag;
use arm_attr::{BuildAttrs, Endian};

#[test]
fn test_tags() {
    let raw = [
        b'A', // version
        0xa0, 0x00, 0x00, 0x00, // size
        b'a', b'e', b'a', b'b', b'i', 0, // "aeabi" subsection
        Tag_File, // file scope
        0x96, 0x00, 0x00, 0x00, // scope size
        Tag_CPU_raw_name, b'V', b'5', b'T', b'E', 0, // "V5TE"
        Tag_CPU_name, b'A', b'R', b'M', b'9', b'4', b'6', b'E', b'-', b'S', 0, // ARM946E-S
        Tag_CPU_arch, 4, // V5TE
        Tag_CPU_arch_profile, 0, // NotApplicable
        Tag_ARM_ISA_use, 1, // Allowed
        Tag_THUMB_ISA_use, 1, // Allowed16Bit
        Tag_FP_arch, 1, // V1
        Tag_WMMX_arch, 2, // V2
        Tag_Advanced_SIMD_arch, 4, // V8_1A
        Tag_PCS_config, 3, // LinuxDso
        Tag_ABI_PCS_R9_use, 1, // Sb
        Tag_ABI_PCS_RW_data, 2, // SbRel
        Tag_ABI_PCS_RO_data, 2, // None
        Tag_ABI_PCS_GOT_use, 1, // Direct
        Tag_ABI_PCS_wchar_t, 4, // Size4
        Tag_ABI_FP_rounding, 0, // Nearest
        Tag_ABI_FP_denormal, 2, // PreserveSign
        Tag_ABI_FP_exceptions, 1, // CheckInexact
        Tag_ABI_FP_user_exceptions, 1, // Enabled
        Tag_ABI_FP_number_model, 2, // InfNaN
        Tag_ABI_align_needed, 2, // Align4
        Tag_ABI_align_needed, 4, // Align2n(4)
        Tag_ABI_align_needed, 12, // Align2n(12)
        Tag_ABI_align_preserved, 1, // Align8
        Tag_ABI_align_preserved, 4, // Align2n(4)
        Tag_ABI_align_preserved, 12, // Align2n(12)
        Tag_ABI_enum_size, 1, // SmallestSize
        Tag_ABI_HardFP_use, 0, // Implied
        Tag_ABI_VFP_args, 2, // Toolchain
        Tag_ABI_WMMX_args, 0, // Base
        Tag_ABI_optimization_goals, 2, // OptimizeSpeed
        Tag_ABI_FP_optimization_goals, 5, // FavorAccuracy
        Tag_compatibility, 0, 0, // Always
        Tag_compatibility, 1, b'X', b'Y', b'Z', 0, // ByToolchain("XYZ")
        Tag_compatibility, 42, b'f', b'o', b'o', 0, // Private { flag: 42, vendor: "foo" }
        Tag_CPU_unaligned_access, 1, // Allowed
        Tag_FP_HP_extension, 0, // IfExists
        Tag_ABI_FP_16bit_format, 2, // Alternative
        Tag_MPextension_use, 1, // Allowed
        Tag_DIV_use, 1, // None
        Tag_DSP_extension, 0, // IfExists
        Tag_MVE_arch, 2, // IntFloat
        Tag_PAC_extension, 1, // OnlyNopSpace
        Tag_BTI_extension, 2, // Allowed
        Tag_nodefaults, 0,
        Tag_also_compatible_with, Tag_CPU_arch, 22, 0, // Arch(CpuArch::V9A)
        Tag_also_compatible_with, Tag_CPU_name, b'A', b'R', b'M', b'7', b'T', b'D', b'M', b'I', 0, // Reserved(Tag::CpuName("ARM7TDMI"))
        Tag_conformance, b'2', b'0', b'2', b'3', b'Q', b'3', 0, // Conform("2023Q3")
        Tag_T2EE_use, 0, // None
        Tag_Virtualization_use, 2, // VExts
        Tag_FramePointer_use, 1, // WithRecords
        Tag_BTI_use, 1, // Enabled
        Tag_PACRET_use, 1, // Enabled
    ];

    let build_attrs = BuildAttrs::new(raw.to_vec(), Endian::Little).unwrap();
    let mut subsections = build_attrs.subsections();
    let subsection = subsections.next().unwrap().unwrap();
    assert!(subsection.is_aeabi());

    let mut attributes = subsection.into_public_attr_iter().unwrap();

    let (off, tag) = attributes.next().unwrap().unwrap();
    assert_eq!(off, 0);
    assert!(matches!(tag, Tag::File { size: 150 }));

    let (off, tag) = attributes.next().unwrap().unwrap();
    assert_eq!(off, 5);
    assert!(matches!(tag, Tag::CpuRawName(ref s) if s == "V5TE"));

    let (off, tag) = attributes.next().unwrap().unwrap();
    assert_eq!(off, 11);
    assert!(matches!(tag, Tag::CpuName(CpuName::Arm946ES)));

    let (off, tag) = attributes.next().unwrap().unwrap();
    assert_eq!(off, 22);
    assert!(matches!(tag, Tag::CpuArch(CpuArch::V5TE)));

    let (off, tag) = attributes.next().unwrap().unwrap();
    assert_eq!(off, 24);
    assert!(matches!(tag, Tag::CpuArchProfile(CpuArchProfile::NotApplicable)));

    let (off, tag) = attributes.next().unwrap().unwrap();
    assert_eq!(off, 26);
    assert!(matches!(tag, Tag::ArmIsaUse(ArmIsaUse::Allowed)));

    let (off, tag) = attributes.next().unwrap().unwrap();
    assert_eq!(off, 28);
    assert!(matches!(tag, Tag::ThumbIsaUse(ThumbIsaUse::Allowed16Bit)));

    let (off, tag) = attributes.next().unwrap().unwrap();
    assert_eq!(off, 30);
    assert!(matches!(tag, Tag::FpArch(FpArch::V1)));

    let (off, tag) = attributes.next().unwrap().unwrap();
    assert_eq!(off, 32);
    assert!(matches!(tag, Tag::WmmxArch(WmmxArch::V2)));

    let (off, tag) = attributes.next().unwrap().unwrap();
    assert_eq!(off, 34);
    assert!(matches!(tag, Tag::AsimdArch(AsimdArch::V8_1A)));

    let (off, tag) = attributes.next().unwrap().unwrap();
    assert_eq!(off, 36);
    assert!(matches!(tag, Tag::PcsConfig(PcsConfig::LinuxDso)));

    let (off, tag) = attributes.next().unwrap().unwrap();
    assert_eq!(off, 38);
    assert!(matches!(tag, Tag::AbiPcsR9Use(AbiPcsR9Use::Sb)));

    let (off, tag) = attributes.next().unwrap().unwrap();
    assert_eq!(off, 40);
    assert!(matches!(tag, Tag::AbiPcsRwData(AbiPcsRwData::SbRel)));

    let (off, tag) = attributes.next().unwrap().unwrap();
    assert_eq!(off, 42);
    assert!(matches!(tag, Tag::AbiPcsRoData(AbiPcsRoData::No)));

    let (off, tag) = attributes.next().unwrap().unwrap();
    assert_eq!(off, 44);
    assert!(matches!(tag, Tag::AbiPcsGotUse(AbiPcsGotUse::Direct)));

    let (off, tag) = attributes.next().unwrap().unwrap();
    assert_eq!(off, 46);
    assert!(matches!(tag, Tag::AbiPcsWcharT(AbiPcsWcharT::Size4)));

    let (off, tag) = attributes.next().unwrap().unwrap();
    assert_eq!(off, 48);
    assert!(matches!(tag, Tag::AbiFpRounding(AbiFpRounding::Nearest)));

    let (off, tag) = attributes.next().unwrap().unwrap();
    assert_eq!(off, 50);
    assert!(matches!(tag, Tag::AbiFpDenormal(AbiFpDenormal::PreserveSign)));

    let (off, tag) = attributes.next().unwrap().unwrap();
    assert_eq!(off, 52);
    assert!(matches!(tag, Tag::AbiFpExceptions(AbiFpExceptions::CheckInexact)));

    let (off, tag) = attributes.next().unwrap().unwrap();
    assert_eq!(off, 54);
    assert!(matches!(tag, Tag::AbiFpUserExceptions(AbiFpUserExceptions::Enabled)));

    let (off, tag) = attributes.next().unwrap().unwrap();
    assert_eq!(off, 56);
    assert!(matches!(tag, Tag::AbiFpNumberModel(AbiFpNumberModel::InfNaN)));

    let (off, tag) = attributes.next().unwrap().unwrap();
    assert_eq!(off, 58);
    assert!(matches!(tag, Tag::AbiAlignNeeded(AbiAlignNeeded::Align4)));

    let (off, tag) = attributes.next().unwrap().unwrap();
    assert_eq!(off, 60);
    assert!(matches!(tag, Tag::AbiAlignNeeded(AbiAlignNeeded::Align2n(4))));

    let (off, tag) = attributes.next().unwrap().unwrap();
    assert_eq!(off, 62);
    assert!(matches!(tag, Tag::AbiAlignNeeded(AbiAlignNeeded::Align2n(12))));

    let (off, tag) = attributes.next().unwrap().unwrap();
    assert_eq!(off, 64);
    assert!(matches!(tag, Tag::AbiAlignPreserved(AbiAlignPreserved::Align8)));

    let (off, tag) = attributes.next().unwrap().unwrap();
    assert_eq!(off, 66);
    assert!(matches!(tag, Tag::AbiAlignPreserved(AbiAlignPreserved::Align2n(4))));

    let (off, tag) = attributes.next().unwrap().unwrap();
    assert_eq!(off, 68);
    assert!(matches!(tag, Tag::AbiAlignPreserved(AbiAlignPreserved::Align2n(12))));

    let (off, tag) = attributes.next().unwrap().unwrap();
    assert_eq!(off, 70);
    assert!(matches!(tag, Tag::AbiEnumSize(AbiEnumSize::SmallestSize)));

    let (off, tag) = attributes.next().unwrap().unwrap();
    assert_eq!(off, 72);
    assert!(matches!(tag, Tag::AbiHardFpUse(AbiHardFpUse::Implied)));

    let (off, tag) = attributes.next().unwrap().unwrap();
    assert_eq!(off, 74);
    assert!(matches!(tag, Tag::AbiVfpArgs(AbiVfpArgs::Toolchain)));

    let (off, tag) = attributes.next().unwrap().unwrap();
    assert_eq!(off, 76);
    assert!(matches!(tag, Tag::AbiWmmxArgs(AbiWmmxArgs::Base)));

    let (off, tag) = attributes.next().unwrap().unwrap();
    assert_eq!(off, 78);
    assert!(matches!(tag, Tag::AbiOptGoals(AbiOptGoals::OptimizeSpeed)));

    let (off, tag) = attributes.next().unwrap().unwrap();
    assert_eq!(off, 80);
    assert!(matches!(tag, Tag::AbiFpOptGoals(AbiFpOptGoals::FavorAccuracy)));

    let (off, tag) = attributes.next().unwrap().unwrap();
    assert_eq!(off, 82);
    assert!(matches!(tag, Tag::Compat(Compat::Always)));

    let (off, tag) = attributes.next().unwrap().unwrap();
    assert_eq!(off, 85);
    assert!(matches!(tag, Tag::Compat(Compat::ByToolchain(ref s)) if s == "XYZ"));

    let (off, tag) = attributes.next().unwrap().unwrap();
    assert_eq!(off, 91);
    assert!(matches!(tag, Tag::Compat(Compat::Private { flag: 42, ref vendor }) if vendor == "foo"));

    let (off, tag) = attributes.next().unwrap().unwrap();
    assert_eq!(off, 97);
    assert!(matches!(tag, Tag::CpuUnalignedAccess(CpuUnalignedAccess::Allowed)));

    let (off, tag) = attributes.next().unwrap().unwrap();
    assert_eq!(off, 99);
    assert!(matches!(tag, Tag::FpHpExt(FpHpExt::IfExists)));

    let (off, tag) = attributes.next().unwrap().unwrap();
    assert_eq!(off, 101);
    assert!(matches!(tag, Tag::AbiFp16BitFormat(AbiFp16BitFormat::Alternative)));

    let (off, tag) = attributes.next().unwrap().unwrap();
    assert_eq!(off, 103);
    assert!(matches!(tag, Tag::MpExtUse(MpExtUse::Allowed)));

    let (off, tag) = attributes.next().unwrap().unwrap();
    assert_eq!(off, 105);
    assert!(matches!(tag, Tag::DivUse(DivUse::No)));

    let (off, tag) = attributes.next().unwrap().unwrap();
    assert_eq!(off, 107);
    assert!(matches!(tag, Tag::DspExt(DspExt::IfExists)));

    let (off, tag) = attributes.next().unwrap().unwrap();
    assert_eq!(off, 109);
    assert!(matches!(tag, Tag::MveArch(MveArch::IntFloat)));

    let (off, tag) = attributes.next().unwrap().unwrap();
    assert_eq!(off, 111);
    assert!(matches!(tag, Tag::PacExt(PacExt::OnlyNopSpace)));

    let (off, tag) = attributes.next().unwrap().unwrap();
    assert_eq!(off, 113);
    assert!(matches!(tag, Tag::BtiExt(BtiExt::Allowed)));

    let (off, tag) = attributes.next().unwrap().unwrap();
    assert_eq!(off, 115);
    assert!(matches!(tag, Tag::NoDefaults));

    let (off, tag) = attributes.next().unwrap().unwrap();
    assert_eq!(off, 117);
    assert!(matches!(tag, Tag::AlsoCompatWith(AlsoCompatWith::Arch(CpuArch::V9A))));

    let (off, tag) = attributes.next().unwrap().unwrap();
    assert_eq!(off, 121);
    assert!(matches!(tag, Tag::AlsoCompatWith(AlsoCompatWith::Reserved(ref b)) if matches!(**b, Tag::CpuName(CpuName::Arm7Tdmi))));

    let (off, tag) = attributes.next().unwrap().unwrap();
    assert_eq!(off, 132);
    assert!(matches!(tag, Tag::Conform(ref c) if c.0 == "2023Q3"));

    let (off, tag) = attributes.next().unwrap().unwrap();
    assert_eq!(off, 140);
    assert!(matches!(tag, Tag::T2EeUse(T2EeUse::No)));

    let (off, tag) = attributes.next().unwrap().unwrap();
    assert_eq!(off, 142);
    assert!(matches!(tag, Tag::VirtualUse(VirtualUse::VExts)));

    let (off, tag) = attributes.next().unwrap().unwrap();
    assert_eq!(off, 144);
    assert!(matches!(tag, Tag::FramePointerUse(FramePointerUse::WithRecords)));

    let (off, tag) = attributes.next().unwrap().unwrap();
    assert_eq!(off, 146);
    assert!(matches!(tag, Tag::BtiUse(BtiUse::Enabled)));

    let (off, tag) = attributes.next().unwrap().unwrap();
    assert_eq!(off, 148);
    assert!(matches!(tag, Tag::PacretUse(PacretUse::Enabled)));

    assert!(attributes.next().is_none());
}
