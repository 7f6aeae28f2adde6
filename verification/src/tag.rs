//! One decoded tag record of the `aeabi` tag stream: scope markers,
//! enumerated byte values, strings, the compound compatibility record,
//! the recursive also-compatible-with record, and the marker that
//! switches further defaults off.

use vstd::prelude::*;

use crate::enums::{
    AbiAlignNeeded, AbiAlignPreserved, AbiEnumSize, AbiFp16BitFormat, AbiFpDenormal,
    AbiFpExceptions, AbiFpNumberModel, AbiFpOptGoals, AbiFpRounding, AbiFpUserExceptions,
    AbiHardFpUse, AbiOptGoals, AbiPcsGotUse, AbiPcsR9Use, AbiPcsRoData, AbiPcsRwData,
    AbiPcsWcharT, AbiVfpArgs, AbiWmmxArgs, AlsoCompatWith, AlsoCompatWithM, ArmIsaUse,
    AsimdArch, BtiExt, BtiUse, Compat, CompatM, Conform, CpuArch, CpuArchProfile, CpuName,
    CpuNameM, CpuUnalignedAccess, DivUse, DspExt, FpArch, FpHpExt, FramePointerUse, MpExtUse,
    MveArch, PacExt, PacretUse, PcsConfig, T2EeUse, ThumbIsaUse, VirtualUse, WmmxArch,
};
use crate::error::TagError;
use crate::globals::{
    Tag_ABI_FP_16bit_format, Tag_ABI_FP_denormal, Tag_ABI_FP_exceptions,
    Tag_ABI_FP_number_model, Tag_ABI_FP_optimization_goals, Tag_ABI_FP_rounding,
    Tag_ABI_FP_user_exceptions, Tag_ABI_HardFP_use, Tag_ABI_PCS_GOT_use, Tag_ABI_PCS_R9_use,
    Tag_ABI_PCS_RO_data, Tag_ABI_PCS_RW_data, Tag_ABI_PCS_wchar_t, Tag_ABI_VFP_args,
    Tag_ABI_WMMX_args, Tag_ABI_align_needed, Tag_ABI_align_preserved, Tag_ABI_enum_size,
    Tag_ABI_optimization_goals, Tag_ARM_ISA_use, Tag_Advanced_SIMD_arch, Tag_BTI_extension,
    Tag_BTI_use, Tag_CPU_arch, Tag_CPU_arch_profile, Tag_CPU_name, Tag_CPU_raw_name,
    Tag_CPU_unaligned_access, Tag_DIV_use, Tag_DSP_extension, Tag_FP_HP_extension, Tag_FP_arch,
    Tag_File, Tag_FramePointer_use, Tag_MPextension_use, Tag_MVE_arch, Tag_PACRET_use,
    Tag_PAC_extension, Tag_PCS_config, Tag_Section, Tag_Symbol, Tag_T2EE_use,
    Tag_THUMB_ISA_use, Tag_Virtualization_use, Tag_WMMX_arch, Tag_also_compatible_with,
    Tag_compatibility, Tag_conformance, Tag_nodefaults,
};
use crate::read::{
    clone_bytes, read_string, read_u32, read_u8, read_uleb128, read_uleb128_list, Endian,
    ReadError, spec_read_string, spec_read_u32, spec_read_u8, spec_read_uleb128,
    spec_read_uleb128_list,
};

verus! {

/// One tag record, keyed by its one-byte tag number.
pub enum Tag {
    /// Tag_File
    File { size: u32 },
    /// Tag_Section
    Section { size: u32, sections: Vec<u8> },
    /// Tag_Symbol
    Symbol { size: u32, symbols: Vec<u8> },
    /// Tag_CPU_raw_name
    CpuRawName(String),
    /// Tag_CPU_name
    CpuName(CpuName),
    /// Tag_CPU_arch
    CpuArch(CpuArch),
    /// Tag_CPU_arch_profile
    CpuArchProfile(CpuArchProfile),
    /// Tag_ARM_ISA_use
    ArmIsaUse(ArmIsaUse),
    /// Tag_THUMB_ISA_use
    ThumbIsaUse(ThumbIsaUse),
    /// Tag_FP_arch
    FpArch(FpArch),
    /// Tag_WMMX_arch
    WmmxArch(WmmxArch),
    /// Tag_Advanced_SIMD_arch
    AsimdArch(AsimdArch),
    /// Tag_PCS_config
    PcsConfig(PcsConfig),
    /// Tag_ABI_PCS_R9_use
    AbiPcsR9Use(AbiPcsR9Use),
    /// Tag_ABI_PCS_RW_data
    AbiPcsRwData(AbiPcsRwData),
    /// Tag_ABI_PCS_RO_data
    AbiPcsRoData(AbiPcsRoData),
    /// Tag_ABI_PCS_GOT_use
    AbiPcsGotUse(AbiPcsGotUse),
    /// Tag_ABI_PCS_wchar_t
    AbiPcsWcharT(AbiPcsWcharT),
    /// Tag_ABI_FP_rounding
    AbiFpRounding(AbiFpRounding),
    /// Tag_ABI_FP_denormal
    AbiFpDenormal(AbiFpDenormal),
    /// Tag_ABI_FP_exceptions
    AbiFpExceptions(AbiFpExceptions),
    /// Tag_ABI_FP_user_exceptions
    AbiFpUserExceptions(AbiFpUserExceptions),
    /// Tag_ABI_FP_number_model
    AbiFpNumberModel(AbiFpNumberModel),
    /// Tag_ABI_align_needed
    AbiAlignNeeded(AbiAlignNeeded),
    /// Tag_ABI_align_preserved
    AbiAlignPreserved(AbiAlignPreserved),
    /// Tag_ABI_enum_size
    AbiEnumSize(AbiEnumSize),
    /// Tag_ABI_HardFP_use
    AbiHardFpUse(AbiHardFpUse),
    /// Tag_ABI_VFP_args
    AbiVfpArgs(AbiVfpArgs),
    /// Tag_ABI_WMMX_args
    AbiWmmxArgs(AbiWmmxArgs),
    /// Tag_ABI_optimization_goals
    AbiOptGoals(AbiOptGoals),
    /// Tag_ABI_FP_optimization_goals
    AbiFpOptGoals(AbiFpOptGoals),
    /// Tag_compatibility
    Compat(Compat),
    /// Tag_CPU_unaligned_access
    CpuUnalignedAccess(CpuUnalignedAccess),
    /// Tag_FP_HP_extension
    FpHpExt(FpHpExt),
    /// Tag_ABI_FP_16bit_format
    AbiFp16BitFormat(AbiFp16BitFormat),
    /// Tag_MPextension_use
    MpExtUse(MpExtUse),
    /// Tag_DIV_use
    DivUse(DivUse),
    /// Tag_DSP_extension
    DspExt(DspExt),
    /// Tag_MVE_arch
    MveArch(MveArch),
    /// Tag_PAC_extension
    PacExt(PacExt),
    /// Tag_BTI_extension
    BtiExt(BtiExt),
    /// Tag_nodefaults
    NoDefaults,
    /// Tag_also_compatible_with
    AlsoCompatWith(AlsoCompatWith),
    /// Tag_conformance
    Conform(Conform),
    /// Tag_T2EE_use
    T2EeUse(T2EeUse),
    /// Tag_Virtualization_use
    VirtualUse(VirtualUse),
    /// Tag_FramePointer_use
    FramePointerUse(FramePointerUse),
    /// Tag_BTI_use
    BtiUse(BtiUse),
    /// Tag_PACRET_use
    PacretUse(PacretUse),
}

/// Mathematical model of a `Tag`: strings are character sequences and
/// index lists are byte sequences.
pub enum TagM {
    File { size: u32 },
    Section { size: u32, sections: Seq<u8> },
    Symbol { size: u32, symbols: Seq<u8> },
    CpuRawName(Seq<char>),
    CpuName(CpuNameM),
    CpuArch(CpuArch),
    CpuArchProfile(CpuArchProfile),
    ArmIsaUse(ArmIsaUse),
    ThumbIsaUse(ThumbIsaUse),
    FpArch(FpArch),
    WmmxArch(WmmxArch),
    AsimdArch(AsimdArch),
    PcsConfig(PcsConfig),
    AbiPcsR9Use(AbiPcsR9Use),
    AbiPcsRwData(AbiPcsRwData),
    AbiPcsRoData(AbiPcsRoData),
    AbiPcsGotUse(AbiPcsGotUse),
    AbiPcsWcharT(AbiPcsWcharT),
    AbiFpRounding(AbiFpRounding),
    AbiFpDenormal(AbiFpDenormal),
    AbiFpExceptions(AbiFpExceptions),
    AbiFpUserExceptions(AbiFpUserExceptions),
    AbiFpNumberModel(AbiFpNumberModel),
    AbiAlignNeeded(AbiAlignNeeded),
    AbiAlignPreserved(AbiAlignPreserved),
    AbiEnumSize(AbiEnumSize),
    AbiHardFpUse(AbiHardFpUse),
    AbiVfpArgs(AbiVfpArgs),
    AbiWmmxArgs(AbiWmmxArgs),
    AbiOptGoals(AbiOptGoals),
    AbiFpOptGoals(AbiFpOptGoals),
    Compat(CompatM),
    CpuUnalignedAccess(CpuUnalignedAccess),
    FpHpExt(FpHpExt),
    AbiFp16BitFormat(AbiFp16BitFormat),
    MpExtUse(MpExtUse),
    DivUse(DivUse),
    DspExt(DspExt),
    MveArch(MveArch),
    PacExt(PacExt),
    BtiExt(BtiExt),
    NoDefaults,
    AlsoCompatWith(AlsoCompatWithM),
    Conform(Seq<char>),
    T2EeUse(T2EeUse),
    VirtualUse(VirtualUse),
    FramePointerUse(FramePointerUse),
    BtiUse(BtiUse),
    PacretUse(PacretUse),
}

/// The model of one tag record. It is mutually recursive with the
/// model of the also-compatible-with record, which wraps one tag.
pub open spec fn spec_tag_view(t: Tag) -> TagM
    decreases t,
{
    match t {
            Tag::File { size } => TagM::File { size: size },
            Tag::Section { size, sections } => TagM::Section { size: size, sections: sections@ },
            Tag::Symbol { size, symbols } => TagM::Symbol { size: size, symbols: symbols@ },
            Tag::CpuRawName(x) => TagM::CpuRawName(x@),
            Tag::CpuName(x) => TagM::CpuName(x@),
            Tag::CpuArch(x) => TagM::CpuArch(x),
            Tag::CpuArchProfile(x) => TagM::CpuArchProfile(x),
            Tag::ArmIsaUse(x) => TagM::ArmIsaUse(x),
            Tag::ThumbIsaUse(x) => TagM::ThumbIsaUse(x),
            Tag::FpArch(x) => TagM::FpArch(x),
            Tag::WmmxArch(x) => TagM::WmmxArch(x),
            Tag::AsimdArch(x) => TagM::AsimdArch(x),
            Tag::PcsConfig(x) => TagM::PcsConfig(x),
            Tag::AbiPcsR9Use(x) => TagM::AbiPcsR9Use(x),
            Tag::AbiPcsRwData(x) => TagM::AbiPcsRwData(x),
            Tag::AbiPcsRoData(x) => TagM::AbiPcsRoData(x),
            Tag::AbiPcsGotUse(x) => TagM::AbiPcsGotUse(x),
            Tag::AbiPcsWcharT(x) => TagM::AbiPcsWcharT(x),
            Tag::AbiFpRounding(x) => TagM::AbiFpRounding(x),
            Tag::AbiFpDenormal(x) => TagM::AbiFpDenormal(x),
            Tag::AbiFpExceptions(x) => TagM::AbiFpExceptions(x),
            Tag::AbiFpUserExceptions(x) => TagM::AbiFpUserExceptions(x),
            Tag::AbiFpNumberModel(x) => TagM::AbiFpNumberModel(x),
            Tag::AbiAlignNeeded(x) => TagM::AbiAlignNeeded(x),
            Tag::AbiAlignPreserved(x) => TagM::AbiAlignPreserved(x),
            Tag::AbiEnumSize(x) => TagM::AbiEnumSize(x),
            Tag::AbiHardFpUse(x) => TagM::AbiHardFpUse(x),
            Tag::AbiVfpArgs(x) => TagM::AbiVfpArgs(x),
            Tag::AbiWmmxArgs(x) => TagM::AbiWmmxArgs(x),
            Tag::AbiOptGoals(x) => TagM::AbiOptGoals(x),
            Tag::AbiFpOptGoals(x) => TagM::AbiFpOptGoals(x),
            Tag::Compat(x) => TagM::Compat(x@),
            Tag::CpuUnalignedAccess(x) => TagM::CpuUnalignedAccess(x),
            Tag::FpHpExt(x) => TagM::FpHpExt(x),
            Tag::AbiFp16BitFormat(x) => TagM::AbiFp16BitFormat(x),
            Tag::MpExtUse(x) => TagM::MpExtUse(x),
            Tag::DivUse(x) => TagM::DivUse(x),
            Tag::DspExt(x) => TagM::DspExt(x),
            Tag::MveArch(x) => TagM::MveArch(x),
            Tag::PacExt(x) => TagM::PacExt(x),
            Tag::BtiExt(x) => TagM::BtiExt(x),
            Tag::NoDefaults => TagM::NoDefaults,
            Tag::AlsoCompatWith(x) => TagM::AlsoCompatWith(spec_also_compat_view(x)),
            Tag::Conform(x) => TagM::Conform(x@),
            Tag::T2EeUse(x) => TagM::T2EeUse(x),
            Tag::VirtualUse(x) => TagM::VirtualUse(x),
            Tag::FramePointerUse(x) => TagM::FramePointerUse(x),
            Tag::BtiUse(x) => TagM::BtiUse(x),
            Tag::PacretUse(x) => TagM::PacretUse(x),
    }
}

/// The model of one also-compatible-with record.
pub open spec fn spec_also_compat_view(a: AlsoCompatWith) -> AlsoCompatWithM
    decreases a,
{
    match a {
        AlsoCompatWith::Arch(c) => AlsoCompatWithM::Arch(c),
        AlsoCompatWith::Reserved(t) => AlsoCompatWithM::Reserved(Box::new(spec_tag_view(*t))),
    }
}

impl View for Tag {
    type V = TagM;

    open spec fn view(&self) -> TagM {
        spec_tag_view(*self)
    }
}

impl TagM {
    /// Whether this tag's payload is of the single-byte kind, so that a
    /// nested occurrence inside an also-compatible-with record must be
    /// followed by a NUL terminator.
    pub open spec fn spec_is_uleb128(self) -> bool {
        match self {
            TagM::File { .. } => false,
            TagM::Section { .. } => false,
            TagM::Symbol { .. } => false,
            TagM::CpuRawName(_) => false,
            TagM::CpuName(_) => false,
            TagM::Compat(_) => false,
            TagM::AlsoCompatWith(_) => false,
            TagM::Conform(_) => false,
            _ => true,
        }
    }

    /// Whether this tag is a scope marker.
    pub open spec fn spec_is_scope(self) -> bool {
        self is File || self is Section || self is Symbol
    }

    /// The tag number this record is keyed by.
    pub open spec fn spec_raw_tag(self) -> u8 {
        match self {
            TagM::File { .. } => Tag_File,
            TagM::Section { .. } => Tag_Section,
            TagM::Symbol { .. } => Tag_Symbol,
            TagM::CpuRawName(_) => Tag_CPU_raw_name,
            TagM::CpuName(_) => Tag_CPU_name,
            TagM::CpuArch(_) => Tag_CPU_arch,
            TagM::CpuArchProfile(_) => Tag_CPU_arch_profile,
            TagM::ArmIsaUse(_) => Tag_ARM_ISA_use,
            TagM::ThumbIsaUse(_) => Tag_THUMB_ISA_use,
            TagM::FpArch(_) => Tag_FP_arch,
            TagM::WmmxArch(_) => Tag_WMMX_arch,
            TagM::AsimdArch(_) => Tag_Advanced_SIMD_arch,
            TagM::PcsConfig(_) => Tag_PCS_config,
            TagM::AbiPcsR9Use(_) => Tag_ABI_PCS_R9_use,
            TagM::AbiPcsRwData(_) => Tag_ABI_PCS_RW_data,
            TagM::AbiPcsRoData(_) => Tag_ABI_PCS_RO_data,
            TagM::AbiPcsGotUse(_) => Tag_ABI_PCS_GOT_use,
            TagM::AbiPcsWcharT(_) => Tag_ABI_PCS_wchar_t,
            TagM::AbiFpRounding(_) => Tag_ABI_FP_rounding,
            TagM::AbiFpDenormal(_) => Tag_ABI_FP_denormal,
            TagM::AbiFpExceptions(_) => Tag_ABI_FP_exceptions,
            TagM::AbiFpUserExceptions(_) => Tag_ABI_FP_user_exceptions,
            TagM::AbiFpNumberModel(_) => Tag_ABI_FP_number_model,
            TagM::AbiAlignNeeded(_) => Tag_ABI_align_needed,
            TagM::AbiAlignPreserved(_) => Tag_ABI_align_preserved,
            TagM::AbiEnumSize(_) => Tag_ABI_enum_size,
            TagM::AbiHardFpUse(_) => Tag_ABI_HardFP_use,
            TagM::AbiVfpArgs(_) => Tag_ABI_VFP_args,
            TagM::AbiWmmxArgs(_) => Tag_ABI_WMMX_args,
            TagM::AbiOptGoals(_) => Tag_ABI_optimization_goals,
            TagM::AbiFpOptGoals(_) => Tag_ABI_FP_optimization_goals,
            TagM::Compat(_) => Tag_compatibility,
            TagM::CpuUnalignedAccess(_) => Tag_CPU_unaligned_access,
            TagM::FpHpExt(_) => Tag_FP_HP_extension,
            TagM::AbiFp16BitFormat(_) => Tag_ABI_FP_16bit_format,
            TagM::MpExtUse(_) => Tag_MPextension_use,
            TagM::DivUse(_) => Tag_DIV_use,
            TagM::DspExt(_) => Tag_DSP_extension,
            TagM::MveArch(_) => Tag_MVE_arch,
            TagM::PacExt(_) => Tag_PAC_extension,
            TagM::BtiExt(_) => Tag_BTI_extension,
            TagM::NoDefaults => Tag_nodefaults,
            TagM::AlsoCompatWith(_) => Tag_also_compatible_with,
            TagM::Conform(_) => Tag_conformance,
            TagM::T2EeUse(_) => Tag_T2EE_use,
            TagM::VirtualUse(_) => Tag_Virtualization_use,
            TagM::FramePointerUse(_) => Tag_FramePointer_use,
            TagM::BtiUse(_) => Tag_BTI_use,
            TagM::PacretUse(_) => Tag_PACRET_use,
        }
    }
}

impl Tag {
    /// Whether this tag's payload is of the single-byte kind.
    pub fn is_uleb128(&self) -> (r: bool)
        ensures
            r == self@.spec_is_uleb128(),
    {
        !matches!(
            self,
            Tag::File { size: _ }
                | Tag::Section { size: _, sections: _ }
                | Tag::Symbol { size: _, symbols: _ }
                | Tag::CpuRawName(_)
                | Tag::CpuName(_)
                | Tag::Compat(_)
                | Tag::AlsoCompatWith(_)
                | Tag::Conform(_)
        )
    }

    /// The tag number this record is keyed by.
    pub fn raw_tag(&self) -> (r: u8)
        ensures
            r == self@.spec_raw_tag(),
    {
        match self {
            Tag::File { .. } => Tag_File,
            Tag::Section { .. } => Tag_Section,
            Tag::Symbol { .. } => Tag_Symbol,
            Tag::CpuRawName(_) => Tag_CPU_raw_name,
            Tag::CpuName(_) => Tag_CPU_name,
            Tag::CpuArch(_) => Tag_CPU_arch,
            Tag::CpuArchProfile(_) => Tag_CPU_arch_profile,
            Tag::ArmIsaUse(_) => Tag_ARM_ISA_use,
            Tag::ThumbIsaUse(_) => Tag_THUMB_ISA_use,
            Tag::FpArch(_) => Tag_FP_arch,
            Tag::WmmxArch(_) => Tag_WMMX_arch,
            Tag::AsimdArch(_) => Tag_Advanced_SIMD_arch,
            Tag::PcsConfig(_) => Tag_PCS_config,
            Tag::AbiPcsR9Use(_) => Tag_ABI_PCS_R9_use,
            Tag::AbiPcsRwData(_) => Tag_ABI_PCS_RW_data,
            Tag::AbiPcsRoData(_) => Tag_ABI_PCS_RO_data,
            Tag::AbiPcsGotUse(_) => Tag_ABI_PCS_GOT_use,
            Tag::AbiPcsWcharT(_) => Tag_ABI_PCS_wchar_t,
            Tag::AbiFpRounding(_) => Tag_ABI_FP_rounding,
            Tag::AbiFpDenormal(_) => Tag_ABI_FP_denormal,
            Tag::AbiFpExceptions(_) => Tag_ABI_FP_exceptions,
            Tag::AbiFpUserExceptions(_) => Tag_ABI_FP_user_exceptions,
            Tag::AbiFpNumberModel(_) => Tag_ABI_FP_number_model,
            Tag::AbiAlignNeeded(_) => Tag_ABI_align_needed,
            Tag::AbiAlignPreserved(_) => Tag_ABI_align_preserved,
            Tag::AbiEnumSize(_) => Tag_ABI_enum_size,
            Tag::AbiHardFpUse(_) => Tag_ABI_HardFP_use,
            Tag::AbiVfpArgs(_) => Tag_ABI_VFP_args,
            Tag::AbiWmmxArgs(_) => Tag_ABI_WMMX_args,
            Tag::AbiOptGoals(_) => Tag_ABI_optimization_goals,
            Tag::AbiFpOptGoals(_) => Tag_ABI_FP_optimization_goals,
            Tag::Compat(_) => Tag_compatibility,
            Tag::CpuUnalignedAccess(_) => Tag_CPU_unaligned_access,
            Tag::FpHpExt(_) => Tag_FP_HP_extension,
            Tag::AbiFp16BitFormat(_) => Tag_ABI_FP_16bit_format,
            Tag::MpExtUse(_) => Tag_MPextension_use,
            Tag::DivUse(_) => Tag_DIV_use,
            Tag::DspExt(_) => Tag_DSP_extension,
            Tag::MveArch(_) => Tag_MVE_arch,
            Tag::PacExt(_) => Tag_PAC_extension,
            Tag::BtiExt(_) => Tag_BTI_extension,
            Tag::NoDefaults => Tag_nodefaults,
            Tag::AlsoCompatWith(_) => Tag_also_compatible_with,
            Tag::Conform(_) => Tag_conformance,
            Tag::T2EeUse(_) => Tag_T2EE_use,
            Tag::VirtualUse(_) => Tag_Virtualization_use,
            Tag::FramePointerUse(_) => Tag_FramePointer_use,
            Tag::BtiUse(_) => Tag_BTI_use,
            Tag::PacretUse(_) => Tag_PACRET_use,
        }
    }
}

impl Tag {
    /// A deep copy whose model is the same.
    pub fn duplicate(&self) -> (r: Tag)
        ensures
            r@ == self@,
        decreases self,
    {
        match self {
                Tag::File { size } => Tag::File { size: *size },
                Tag::Section { size, sections } => Tag::Section { size: *size, sections: clone_bytes(sections) },
                Tag::Symbol { size, symbols } => Tag::Symbol { size: *size, symbols: clone_bytes(symbols) },
                Tag::CpuRawName(x) => Tag::CpuRawName(x.clone()),
                Tag::CpuName(x) => Tag::CpuName(x.duplicate()),
                Tag::CpuArch(x) => Tag::CpuArch(*x),
                Tag::CpuArchProfile(x) => Tag::CpuArchProfile(*x),
                Tag::ArmIsaUse(x) => Tag::ArmIsaUse(*x),
                Tag::ThumbIsaUse(x) => Tag::ThumbIsaUse(*x),
                Tag::FpArch(x) => Tag::FpArch(*x),
                Tag::WmmxArch(x) => Tag::WmmxArch(*x),
                Tag::AsimdArch(x) => Tag::AsimdArch(*x),
                Tag::PcsConfig(x) => Tag::PcsConfig(*x),
                Tag::AbiPcsR9Use(x) => Tag::AbiPcsR9Use(*x),
                Tag::AbiPcsRwData(x) => Tag::AbiPcsRwData(*x),
                Tag::AbiPcsRoData(x) => Tag::AbiPcsRoData(*x),
                Tag::AbiPcsGotUse(x) => Tag::AbiPcsGotUse(*x),
                Tag::AbiPcsWcharT(x) => Tag::AbiPcsWcharT(*x),
                Tag::AbiFpRounding(x) => Tag::AbiFpRounding(*x),
                Tag::AbiFpDenormal(x) => Tag::AbiFpDenormal(*x),
                Tag::AbiFpExceptions(x) => Tag::AbiFpExceptions(*x),
                Tag::AbiFpUserExceptions(x) => Tag::AbiFpUserExceptions(*x),
                Tag::AbiFpNumberModel(x) => Tag::AbiFpNumberModel(*x),
                Tag::AbiAlignNeeded(x) => Tag::AbiAlignNeeded(*x),
                Tag::AbiAlignPreserved(x) => Tag::AbiAlignPreserved(*x),
                Tag::AbiEnumSize(x) => Tag::AbiEnumSize(*x),
                Tag::AbiHardFpUse(x) => Tag::AbiHardFpUse(*x),
                Tag::AbiVfpArgs(x) => Tag::AbiVfpArgs(*x),
                Tag::AbiWmmxArgs(x) => Tag::AbiWmmxArgs(*x),
                Tag::AbiOptGoals(x) => Tag::AbiOptGoals(*x),
                Tag::AbiFpOptGoals(x) => Tag::AbiFpOptGoals(*x),
                Tag::Compat(x) => Tag::Compat(x.duplicate()),
                Tag::CpuUnalignedAccess(x) => Tag::CpuUnalignedAccess(*x),
                Tag::FpHpExt(x) => Tag::FpHpExt(*x),
                Tag::AbiFp16BitFormat(x) => Tag::AbiFp16BitFormat(*x),
                Tag::MpExtUse(x) => Tag::MpExtUse(*x),
                Tag::DivUse(x) => Tag::DivUse(*x),
                Tag::DspExt(x) => Tag::DspExt(*x),
                Tag::MveArch(x) => Tag::MveArch(*x),
                Tag::PacExt(x) => Tag::PacExt(*x),
                Tag::BtiExt(x) => Tag::BtiExt(*x),
                Tag::NoDefaults => Tag::NoDefaults,
                Tag::AlsoCompatWith(x) => Tag::AlsoCompatWith(x.duplicate()),
                Tag::Conform(x) => Tag::Conform(x.duplicate()),
                Tag::T2EeUse(x) => Tag::T2EeUse(*x),
                Tag::VirtualUse(x) => Tag::VirtualUse(*x),
                Tag::FramePointerUse(x) => Tag::FramePointerUse(*x),
                Tag::BtiUse(x) => Tag::BtiUse(*x),
                Tag::PacretUse(x) => Tag::PacretUse(*x),
        }
    }
}

/// The tag record that decoding one tag at `pos` yields, with the
/// position just past it, or the error that stops the decode. The tag
/// number is dispatched through the fixed table; an unrecognized
/// number is always a hard error, since the grammar has no generic
/// length field that would let a decoder skip it.
pub open spec fn spec_read_tag(data: Seq<u8>, pos: int, e: Endian) -> Result<
    (TagM, int),
    TagError,
>
    decreases data.len() - pos, 0int,
{
    match spec_read_uleb128(data, pos) {
        None => Err(TagError::Read(ReadError::Eof)),
        Some((t, p1)) => spec_read_tag_payload(t, data, p1, e),
    }
}

/// The payload of a tag with number `t`, decoded at `p1`.
pub open spec fn spec_read_tag_payload(t: u8, data: Seq<u8>, p1: int, e: Endian) -> Result<
    (TagM, int),
    TagError,
>
    decreases data.len() - p1, 1int,
{
    if t == Tag_File {
        match spec_read_u32(data, p1, e) {
            Some((size, p2)) => Ok((TagM::File { size }, p2)),
            None => Err(TagError::Read(ReadError::Eof)),
        }
    } else if t == Tag_Section {
        match spec_read_u32(data, p1, e) {
            Some((size, p2)) => match spec_read_uleb128_list(data, p2) {
                Ok((sections, p3)) => Ok((TagM::Section { size, sections }, p3)),
                Err(err) => Err(TagError::Read(err)),
            },
            None => Err(TagError::Read(ReadError::Eof)),
        }
    } else if t == Tag_Symbol {
        match spec_read_u32(data, p1, e) {
            Some((size, p2)) => match spec_read_uleb128_list(data, p2) {
                Ok((symbols, p3)) => Ok((TagM::Symbol { size, symbols }, p3)),
                Err(err) => Err(TagError::Read(err)),
            },
            None => Err(TagError::Read(ReadError::Eof)),
        }
    } else if t == Tag_CPU_raw_name {
        match spec_read_string(data, p1) {
            Ok((s, p2)) => Ok((TagM::CpuRawName(s), p2)),
            Err(err) => Err(TagError::Read(err)),
        }
    } else if t == Tag_CPU_name {
        match spec_read_string(data, p1) {
            Ok((s, p2)) => Ok((TagM::CpuName(CpuName::spec_from_name(s)), p2)),
            Err(err) => Err(TagError::Read(err)),
        }
    } else if t == Tag_compatibility {
        match spec_read_uleb128(data, p1) {
            Some((flag, p2)) => match spec_read_string(data, p2) {
                Ok((vendor, p3)) => Ok((TagM::Compat(Compat::spec_new(flag, vendor)), p3)),
                Err(err) => Err(TagError::Read(err)),
            },
            None => Err(TagError::Read(ReadError::Eof)),
        }
    } else if t == Tag_nodefaults {
        match spec_read_u8(data, p1) {
            Some((b, p2)) => if b != 0 {
                Err(TagError::ExpectedNull)
            } else {
                Ok((TagM::NoDefaults, p2))
            },
            None => Err(TagError::Read(ReadError::Eof)),
        }
    } else if t == Tag_also_compatible_with {
        match spec_read_tag(data, p1, e) {
            Err(err) => Err(err),
            Ok((sub, p2)) => if sub.spec_is_scope() {
                Err(TagError::NestedScopeTag)
            } else if sub.spec_is_uleb128() {
                match spec_read_u8(data, p2) {
                    Some((b, p3)) => if b != 0 {
                        Err(TagError::ExpectedNull)
                    } else {
                        Ok((TagM::AlsoCompatWith(AlsoCompatWith::spec_new(sub)), p3))
                    },
                    None => Err(TagError::Read(ReadError::Eof)),
                }
            } else {
                Ok((TagM::AlsoCompatWith(AlsoCompatWith::spec_new(sub)), p2))
            },
        }
    } else if t == Tag_conformance {
        match spec_read_string(data, p1) {
            Ok((s, p2)) => Ok((TagM::Conform(s), p2)),
            Err(err) => Err(TagError::Read(err)),
        }
    }
     else if t == Tag_CPU_arch {
        match spec_read_uleb128(data, p1) {
            Some((b, p2)) => Ok((TagM::CpuArch(CpuArch::spec_from_value(b)), p2)),
            None => Err(TagError::Read(ReadError::Eof)),
        }
    }
     else if t == Tag_CPU_arch_profile {
        match spec_read_uleb128(data, p1) {
            Some((b, p2)) => Ok((TagM::CpuArchProfile(CpuArchProfile::spec_from_value(b)), p2)),
            None => Err(TagError::Read(ReadError::Eof)),
        }
    }
     else if t == Tag_ARM_ISA_use {
        match spec_read_uleb128(data, p1) {
            Some((b, p2)) => Ok((TagM::ArmIsaUse(ArmIsaUse::spec_from_value(b)), p2)),
            None => Err(TagError::Read(ReadError::Eof)),
        }
    }
     else if t == Tag_THUMB_ISA_use {
        match spec_read_uleb128(data, p1) {
            Some((b, p2)) => Ok((TagM::ThumbIsaUse(ThumbIsaUse::spec_from_value(b)), p2)),
            None => Err(TagError::Read(ReadError::Eof)),
        }
    }
     else if t == Tag_FP_arch {
        match spec_read_uleb128(data, p1) {
            Some((b, p2)) => Ok((TagM::FpArch(FpArch::spec_from_value(b)), p2)),
            None => Err(TagError::Read(ReadError::Eof)),
        }
    }
     else if t == Tag_WMMX_arch {
        match spec_read_uleb128(data, p1) {
            Some((b, p2)) => Ok((TagM::WmmxArch(WmmxArch::spec_from_value(b)), p2)),
            None => Err(TagError::Read(ReadError::Eof)),
        }
    }
     else if t == Tag_Advanced_SIMD_arch {
        match spec_read_uleb128(data, p1) {
            Some((b, p2)) => Ok((TagM::AsimdArch(AsimdArch::spec_from_value(b)), p2)),
            None => Err(TagError::Read(ReadError::Eof)),
        }
    }
     else if t == Tag_PCS_config {
        match spec_read_uleb128(data, p1) {
            Some((b, p2)) => Ok((TagM::PcsConfig(PcsConfig::spec_from_value(b)), p2)),
            None => Err(TagError::Read(ReadError::Eof)),
        }
    }
     else if t == Tag_ABI_PCS_R9_use {
        match spec_read_uleb128(data, p1) {
            Some((b, p2)) => Ok((TagM::AbiPcsR9Use(AbiPcsR9Use::spec_from_value(b)), p2)),
            None => Err(TagError::Read(ReadError::Eof)),
        }
    }
     else if t == Tag_ABI_PCS_RW_data {
        match spec_read_uleb128(data, p1) {
            Some((b, p2)) => Ok((TagM::AbiPcsRwData(AbiPcsRwData::spec_from_value(b)), p2)),
            None => Err(TagError::Read(ReadError::Eof)),
        }
    }
     else if t == Tag_ABI_PCS_RO_data {
        match spec_read_uleb128(data, p1) {
            Some((b, p2)) => Ok((TagM::AbiPcsRoData(AbiPcsRoData::spec_from_value(b)), p2)),
            None => Err(TagError::Read(ReadError::Eof)),
        }
    }
     else if t == Tag_ABI_PCS_GOT_use {
        match spec_read_uleb128(data, p1) {
            Some((b, p2)) => Ok((TagM::AbiPcsGotUse(AbiPcsGotUse::spec_from_value(b)), p2)),
            None => Err(TagError::Read(ReadError::Eof)),
        }
    }
     else if t == Tag_ABI_PCS_wchar_t {
        match spec_read_uleb128(data, p1) {
            Some((b, p2)) => Ok((TagM::AbiPcsWcharT(AbiPcsWcharT::spec_from_value(b)), p2)),
            None => Err(TagError::Read(ReadError::Eof)),
        }
    }
     else if t == Tag_ABI_FP_rounding {
        match spec_read_uleb128(data, p1) {
            Some((b, p2)) => Ok((TagM::AbiFpRounding(AbiFpRounding::spec_from_value(b)), p2)),
            None => Err(TagError::Read(ReadError::Eof)),
        }
    }
     else if t == Tag_ABI_FP_denormal {
        match spec_read_uleb128(data, p1) {
            Some((b, p2)) => Ok((TagM::AbiFpDenormal(AbiFpDenormal::spec_from_value(b)), p2)),
            None => Err(TagError::Read(ReadError::Eof)),
        }
    }
     else if t == Tag_ABI_FP_exceptions {
        match spec_read_uleb128(data, p1) {
            Some((b, p2)) => Ok((TagM::AbiFpExceptions(AbiFpExceptions::spec_from_value(b)), p2)),
            None => Err(TagError::Read(ReadError::Eof)),
        }
    }
     else if t == Tag_ABI_FP_user_exceptions {
        match spec_read_uleb128(data, p1) {
            Some((b, p2)) => Ok((TagM::AbiFpUserExceptions(AbiFpUserExceptions::spec_from_value(b)), p2)),
            None => Err(TagError::Read(ReadError::Eof)),
        }
    }
     else if t == Tag_ABI_FP_number_model {
        match spec_read_uleb128(data, p1) {
            Some((b, p2)) => Ok((TagM::AbiFpNumberModel(AbiFpNumberModel::spec_from_value(b)), p2)),
            None => Err(TagError::Read(ReadError::Eof)),
        }
    }
     else if t == Tag_ABI_align_needed {
        match spec_read_uleb128(data, p1) {
            Some((b, p2)) => Ok((TagM::AbiAlignNeeded(AbiAlignNeeded::spec_from_value(b)), p2)),
            None => Err(TagError::Read(ReadError::Eof)),
        }
    }
     else if t == Tag_ABI_align_preserved {
        match spec_read_uleb128(data, p1) {
            Some((b, p2)) => Ok((TagM::AbiAlignPreserved(AbiAlignPreserved::spec_from_value(b)), p2)),
            None => Err(TagError::Read(ReadError::Eof)),
        }
    }
     else if t == Tag_ABI_enum_size {
        match spec_read_uleb128(data, p1) {
            Some((b, p2)) => Ok((TagM::AbiEnumSize(AbiEnumSize::spec_from_value(b)), p2)),
            None => Err(TagError::Read(ReadError::Eof)),
        }
    }
     else if t == Tag_ABI_HardFP_use {
        match spec_read_uleb128(data, p1) {
            Some((b, p2)) => Ok((TagM::AbiHardFpUse(AbiHardFpUse::spec_from_value(b)), p2)),
            None => Err(TagError::Read(ReadError::Eof)),
        }
    }
     else if t == Tag_ABI_VFP_args {
        match spec_read_uleb128(data, p1) {
            Some((b, p2)) => Ok((TagM::AbiVfpArgs(AbiVfpArgs::spec_from_value(b)), p2)),
            None => Err(TagError::Read(ReadError::Eof)),
        }
    }
     else if t == Tag_ABI_WMMX_args {
        match spec_read_uleb128(data, p1) {
            Some((b, p2)) => Ok((TagM::AbiWmmxArgs(AbiWmmxArgs::spec_from_value(b)), p2)),
            None => Err(TagError::Read(ReadError::Eof)),
        }
    }
     else if t == Tag_ABI_optimization_goals {
        match spec_read_uleb128(data, p1) {
            Some((b, p2)) => Ok((TagM::AbiOptGoals(AbiOptGoals::spec_from_value(b)), p2)),
            None => Err(TagError::Read(ReadError::Eof)),
        }
    }
     else if t == Tag_ABI_FP_optimization_goals {
        match spec_read_uleb128(data, p1) {
            Some((b, p2)) => Ok((TagM::AbiFpOptGoals(AbiFpOptGoals::spec_from_value(b)), p2)),
            None => Err(TagError::Read(ReadError::Eof)),
        }
    }
     else if t == Tag_CPU_unaligned_access {
        match spec_read_uleb128(data, p1) {
            Some((b, p2)) => Ok((TagM::CpuUnalignedAccess(CpuUnalignedAccess::spec_from_value(b)), p2)),
            None => Err(TagError::Read(ReadError::Eof)),
        }
    }
     else if t == Tag_FP_HP_extension {
        match spec_read_uleb128(data, p1) {
            Some((b, p2)) => Ok((TagM::FpHpExt(FpHpExt::spec_from_value(b)), p2)),
            None => Err(TagError::Read(ReadError::Eof)),
        }
    }
     else if t == Tag_ABI_FP_16bit_format {
        match spec_read_uleb128(data, p1) {
            Some((b, p2)) => Ok((TagM::AbiFp16BitFormat(AbiFp16BitFormat::spec_from_value(b)), p2)),
            None => Err(TagError::Read(ReadError::Eof)),
        }
    }
     else if t == Tag_MPextension_use {
        match spec_read_uleb128(data, p1) {
            Some((b, p2)) => Ok((TagM::MpExtUse(MpExtUse::spec_from_value(b)), p2)),
            None => Err(TagError::Read(ReadError::Eof)),
        }
    }
     else if t == Tag_DIV_use {
        match spec_read_uleb128(data, p1) {
            Some((b, p2)) => Ok((TagM::DivUse(DivUse::spec_from_value(b)), p2)),
            None => Err(TagError::Read(ReadError::Eof)),
        }
    }
     else if t == Tag_DSP_extension {
        match spec_read_uleb128(data, p1) {
            Some((b, p2)) => Ok((TagM::DspExt(DspExt::spec_from_value(b)), p2)),
            None => Err(TagError::Read(ReadError::Eof)),
        }
    }
     else if t == Tag_MVE_arch {
        match spec_read_uleb128(data, p1) {
            Some((b, p2)) => Ok((TagM::MveArch(MveArch::spec_from_value(b)), p2)),
            None => Err(TagError::Read(ReadError::Eof)),
        }
    }
     else if t == Tag_PAC_extension {
        match spec_read_uleb128(data, p1) {
            Some((b, p2)) => Ok((TagM::PacExt(PacExt::spec_from_value(b)), p2)),
            None => Err(TagError::Read(ReadError::Eof)),
        }
    }
     else if t == Tag_BTI_extension {
        match spec_read_uleb128(data, p1) {
            Some((b, p2)) => Ok((TagM::BtiExt(BtiExt::spec_from_value(b)), p2)),
            None => Err(TagError::Read(ReadError::Eof)),
        }
    }
     else if t == Tag_T2EE_use {
        match spec_read_uleb128(data, p1) {
            Some((b, p2)) => Ok((TagM::T2EeUse(T2EeUse::spec_from_value(b)), p2)),
            None => Err(TagError::Read(ReadError::Eof)),
        }
    }
     else if t == Tag_Virtualization_use {
        match spec_read_uleb128(data, p1) {
            Some((b, p2)) => Ok((TagM::VirtualUse(VirtualUse::spec_from_value(b)), p2)),
            None => Err(TagError::Read(ReadError::Eof)),
        }
    }
     else if t == Tag_FramePointer_use {
        match spec_read_uleb128(data, p1) {
            Some((b, p2)) => Ok((TagM::FramePointerUse(FramePointerUse::spec_from_value(b)), p2)),
            None => Err(TagError::Read(ReadError::Eof)),
        }
    }
     else if t == Tag_BTI_use {
        match spec_read_uleb128(data, p1) {
            Some((b, p2)) => Ok((TagM::BtiUse(BtiUse::spec_from_value(b)), p2)),
            None => Err(TagError::Read(ReadError::Eof)),
        }
    }
     else if t == Tag_PACRET_use {
        match spec_read_uleb128(data, p1) {
            Some((b, p2)) => Ok((TagM::PacretUse(PacretUse::spec_from_value(b)), p2)),
            None => Err(TagError::Read(ReadError::Eof)),
        }
    }
 else {
        Err(TagError::IncompatibleTagValue(t))
    }
}

impl Tag {
    /// Decode the tag record that starts at `pos`.
    pub(crate) fn read(data: &[u8], pos: usize, e: Endian) -> (r: Result<(Tag, usize), TagError>)
        requires
            pos <= data@.len(),
        ensures
            match r {
                Ok((t, p2)) => spec_read_tag(data@, pos as int, e) == Ok::<(TagM, int), TagError>(
                    (t@, p2 as int),
                ) && pos < p2 <= data@.len(),
                Err(err) => spec_read_tag(data@, pos as int, e) == Err::<(TagM, int), TagError>(
                    err,
                ),
            },
        decreases data@.len() - pos, 0int,
    {
        match read_uleb128(data, pos) {
            Err(err) => Err(TagError::Read(err)),
            Ok((t, p1)) => Tag::read_payload(t, data, p1, e),
        }
    }

    /// Decode the payload of a tag with number `t`, starting at `p1`.
    #[verifier::rlimit(100)]
    fn read_payload(t: u8, data: &[u8], p1: usize, e: Endian) -> (r: Result<
        (Tag, usize),
        TagError,
    >)
        requires
            p1 <= data@.len(),
        ensures
            match r {
                Ok((tag, p2)) => spec_read_tag_payload(t, data@, p1 as int, e) == Ok::<
                    (TagM, int),
                    TagError,
                >((tag@, p2 as int)) && p1 <= p2 <= data@.len(),
                Err(err) => spec_read_tag_payload(t, data@, p1 as int, e) == Err::<
                    (TagM, int),
                    TagError,
                >(err),
            },
        decreases data@.len() - p1, 1int,
    {
        if t == Tag_File {
            match read_u32(data, p1, e) {
                Ok((size, p2)) => Ok((Tag::File { size }, p2)),
                Err(err) => Err(TagError::Read(err)),
            }
        } else if t == Tag_Section {
            match read_u32(data, p1, e) {
                Ok((size, p2)) => match read_uleb128_list(data, p2) {
                    Ok((sections, p3)) => Ok((Tag::Section { size, sections }, p3)),
                    Err(err) => Err(TagError::Read(err)),
                },
                Err(err) => Err(TagError::Read(err)),
            }
        } else if t == Tag_Symbol {
            match read_u32(data, p1, e) {
                Ok((size, p2)) => match read_uleb128_list(data, p2) {
                    Ok((symbols, p3)) => Ok((Tag::Symbol { size, symbols }, p3)),
                    Err(err) => Err(TagError::Read(err)),
                },
                Err(err) => Err(TagError::Read(err)),
            }
        } else if t == Tag_CPU_raw_name {
            match read_string(data, p1) {
                Ok((s, p2)) => Ok((Tag::CpuRawName(s), p2)),
                Err(err) => Err(TagError::Read(err)),
            }
        } else if t == Tag_CPU_name {
            match read_string(data, p1) {
                Ok((s, p2)) => Ok((Tag::CpuName(CpuName::from_name(s.as_str())), p2)),
                Err(err) => Err(TagError::Read(err)),
            }
        } else if t == Tag_compatibility {
            match read_uleb128(data, p1) {
                Ok((flag, p2)) => match read_string(data, p2) {
                    Ok((vendor, p3)) => Ok((Tag::Compat(Compat::new(flag, vendor)), p3)),
                    Err(err) => Err(TagError::Read(err)),
                },
                Err(err) => Err(TagError::Read(err)),
            }
        } else if t == Tag_nodefaults {
            match read_u8(data, p1) {
                Ok((b, p2)) => if b != 0 {
                    Err(TagError::ExpectedNull)
                } else {
                    Ok((Tag::NoDefaults, p2))
                },
                Err(err) => Err(TagError::Read(err)),
            }
        } else if t == Tag_also_compatible_with {
            match Tag::read(data, p1, e) {
                Err(err) => Err(err),
                Ok((sub, p2)) => {
                    let is_scope = matches!(
                        sub,
                        Tag::File { size: _ }
                            | Tag::Section { size: _, sections: _ }
                            | Tag::Symbol { size: _, symbols: _ }
                    );
                    if is_scope {
                        Err(TagError::NestedScopeTag)
                    } else if sub.is_uleb128() {
                        match read_u8(data, p2) {
                            Ok((b, p3)) => if b != 0 {
                                Err(TagError::ExpectedNull)
                            } else {
                                Ok((Tag::AlsoCompatWith(AlsoCompatWith::new(sub)), p3))
                            },
                            Err(err) => Err(TagError::Read(err)),
                        }
                    } else {
                        Ok((Tag::AlsoCompatWith(AlsoCompatWith::new(sub)), p2))
                    }
                },
            }
        } else if t == Tag_conformance {
            match read_string(data, p1) {
                Ok((s, p2)) => Ok((Tag::Conform(Conform(s)), p2)),
                Err(err) => Err(TagError::Read(err)),
            }
        }
         else if t == Tag_CPU_arch {
            match read_uleb128(data, p1) {
                Ok((b, p2)) => Ok((Tag::CpuArch(CpuArch::from_value(b)), p2)),
                Err(err) => Err(TagError::Read(err)),
            }
        }
         else if t == Tag_CPU_arch_profile {
            match read_uleb128(data, p1) {
                Ok((b, p2)) => Ok((Tag::CpuArchProfile(CpuArchProfile::from_value(b)), p2)),
                Err(err) => Err(TagError::Read(err)),
            }
        }
         else if t == Tag_ARM_ISA_use {
            match read_uleb128(data, p1) {
                Ok((b, p2)) => Ok((Tag::ArmIsaUse(ArmIsaUse::from_value(b)), p2)),
                Err(err) => Err(TagError::Read(err)),
            }
        }
         else if t == Tag_THUMB_ISA_use {
            match read_uleb128(data, p1) {
                Ok((b, p2)) => Ok((Tag::ThumbIsaUse(ThumbIsaUse::from_value(b)), p2)),
                Err(err) => Err(TagError::Read(err)),
            }
        }
         else if t == Tag_FP_arch {
            match read_uleb128(data, p1) {
                Ok((b, p2)) => Ok((Tag::FpArch(FpArch::from_value(b)), p2)),
                Err(err) => Err(TagError::Read(err)),
            }
        }
         else if t == Tag_WMMX_arch {
            match read_uleb128(data, p1) {
                Ok((b, p2)) => Ok((Tag::WmmxArch(WmmxArch::from_value(b)), p2)),
                Err(err) => Err(TagError::Read(err)),
            }
        }
         else if t == Tag_Advanced_SIMD_arch {
            match read_uleb128(data, p1) {
                Ok((b, p2)) => Ok((Tag::AsimdArch(AsimdArch::from_value(b)), p2)),
                Err(err) => Err(TagError::Read(err)),
            }
        }
         else if t == Tag_PCS_config {
            match read_uleb128(data, p1) {
                Ok((b, p2)) => Ok((Tag::PcsConfig(PcsConfig::from_value(b)), p2)),
                Err(err) => Err(TagError::Read(err)),
            }
        }
         else if t == Tag_ABI_PCS_R9_use {
            match read_uleb128(data, p1) {
                Ok((b, p2)) => Ok((Tag::AbiPcsR9Use(AbiPcsR9Use::from_value(b)), p2)),
                Err(err) => Err(TagError::Read(err)),
            }
        }
         else if t == Tag_ABI_PCS_RW_data {
            match read_uleb128(data, p1) {
                Ok((b, p2)) => Ok((Tag::AbiPcsRwData(AbiPcsRwData::from_value(b)), p2)),
                Err(err) => Err(TagError::Read(err)),
            }
        }
         else if t == Tag_ABI_PCS_RO_data {
            match read_uleb128(data, p1) {
                Ok((b, p2)) => Ok((Tag::AbiPcsRoData(AbiPcsRoData::from_value(b)), p2)),
                Err(err) => Err(TagError::Read(err)),
            }
        }
         else if t == Tag_ABI_PCS_GOT_use {
            match read_uleb128(data, p1) {
                Ok((b, p2)) => Ok((Tag::AbiPcsGotUse(AbiPcsGotUse::from_value(b)), p2)),
                Err(err) => Err(TagError::Read(err)),
            }
        }
         else if t == Tag_ABI_PCS_wchar_t {
            match read_uleb128(data, p1) {
                Ok((b, p2)) => Ok((Tag::AbiPcsWcharT(AbiPcsWcharT::from_value(b)), p2)),
                Err(err) => Err(TagError::Read(err)),
            }
        }
         else if t == Tag_ABI_FP_rounding {
            match read_uleb128(data, p1) {
                Ok((b, p2)) => Ok((Tag::AbiFpRounding(AbiFpRounding::from_value(b)), p2)),
                Err(err) => Err(TagError::Read(err)),
            }
        }
         else if t == Tag_ABI_FP_denormal {
            match read_uleb128(data, p1) {
                Ok((b, p2)) => Ok((Tag::AbiFpDenormal(AbiFpDenormal::from_value(b)), p2)),
                Err(err) => Err(TagError::Read(err)),
            }
        }
         else if t == Tag_ABI_FP_exceptions {
            match read_uleb128(data, p1) {
                Ok((b, p2)) => Ok((Tag::AbiFpExceptions(AbiFpExceptions::from_value(b)), p2)),
                Err(err) => Err(TagError::Read(err)),
            }
        }
         else if t == Tag_ABI_FP_user_exceptions {
            match read_uleb128(data, p1) {
                Ok((b, p2)) => Ok((Tag::AbiFpUserExceptions(AbiFpUserExceptions::from_value(b)), p2)),
                Err(err) => Err(TagError::Read(err)),
            }
        }
         else if t == Tag_ABI_FP_number_model {
            match read_uleb128(data, p1) {
                Ok((b, p2)) => Ok((Tag::AbiFpNumberModel(AbiFpNumberModel::from_value(b)), p2)),
                Err(err) => Err(TagError::Read(err)),
            }
        }
         else if t == Tag_ABI_align_needed {
            match read_uleb128(data, p1) {
                Ok((b, p2)) => Ok((Tag::AbiAlignNeeded(AbiAlignNeeded::from_value(b)), p2)),
                Err(err) => Err(TagError::Read(err)),
            }
        }
         else if t == Tag_ABI_align_preserved {
            match read_uleb128(data, p1) {
                Ok((b, p2)) => Ok((Tag::AbiAlignPreserved(AbiAlignPreserved::from_value(b)), p2)),
                Err(err) => Err(TagError::Read(err)),
            }
        }
         else if t == Tag_ABI_enum_size {
            match read_uleb128(data, p1) {
                Ok((b, p2)) => Ok((Tag::AbiEnumSize(AbiEnumSize::from_value(b)), p2)),
                Err(err) => Err(TagError::Read(err)),
            }
        }
         else if t == Tag_ABI_HardFP_use {
            match read_uleb128(data, p1) {
                Ok((b, p2)) => Ok((Tag::AbiHardFpUse(AbiHardFpUse::from_value(b)), p2)),
                Err(err) => Err(TagError::Read(err)),
            }
        }
         else if t == Tag_ABI_VFP_args {
            match read_uleb128(data, p1) {
                Ok((b, p2)) => Ok((Tag::AbiVfpArgs(AbiVfpArgs::from_value(b)), p2)),
                Err(err) => Err(TagError::Read(err)),
            }
        }
         else if t == Tag_ABI_WMMX_args {
            match read_uleb128(data, p1) {
                Ok((b, p2)) => Ok((Tag::AbiWmmxArgs(AbiWmmxArgs::from_value(b)), p2)),
                Err(err) => Err(TagError::Read(err)),
            }
        }
         else if t == Tag_ABI_optimization_goals {
            match read_uleb128(data, p1) {
                Ok((b, p2)) => Ok((Tag::AbiOptGoals(AbiOptGoals::from_value(b)), p2)),
                Err(err) => Err(TagError::Read(err)),
            }
        }
         else if t == Tag_ABI_FP_optimization_goals {
            match read_uleb128(data, p1) {
                Ok((b, p2)) => Ok((Tag::AbiFpOptGoals(AbiFpOptGoals::from_value(b)), p2)),
                Err(err) => Err(TagError::Read(err)),
            }
        }
         else if t == Tag_CPU_unaligned_access {
            match read_uleb128(data, p1) {
                Ok((b, p2)) => Ok((Tag::CpuUnalignedAccess(CpuUnalignedAccess::from_value(b)), p2)),
                Err(err) => Err(TagError::Read(err)),
            }
        }
         else if t == Tag_FP_HP_extension {
            match read_uleb128(data, p1) {
                Ok((b, p2)) => Ok((Tag::FpHpExt(FpHpExt::from_value(b)), p2)),
                Err(err) => Err(TagError::Read(err)),
            }
        }
         else if t == Tag_ABI_FP_16bit_format {
            match read_uleb128(data, p1) {
                Ok((b, p2)) => Ok((Tag::AbiFp16BitFormat(AbiFp16BitFormat::from_value(b)), p2)),
                Err(err) => Err(TagError::Read(err)),
            }
        }
         else if t == Tag_MPextension_use {
            match read_uleb128(data, p1) {
                Ok((b, p2)) => Ok((Tag::MpExtUse(MpExtUse::from_value(b)), p2)),
                Err(err) => Err(TagError::Read(err)),
            }
        }
         else if t == Tag_DIV_use {
            match read_uleb128(data, p1) {
                Ok((b, p2)) => Ok((Tag::DivUse(DivUse::from_value(b)), p2)),
                Err(err) => Err(TagError::Read(err)),
            }
        }
         else if t == Tag_DSP_extension {
            match read_uleb128(data, p1) {
                Ok((b, p2)) => Ok((Tag::DspExt(DspExt::from_value(b)), p2)),
                Err(err) => Err(TagError::Read(err)),
            }
        }
         else if t == Tag_MVE_arch {
            match read_uleb128(data, p1) {
                Ok((b, p2)) => Ok((Tag::MveArch(MveArch::from_value(b)), p2)),
                Err(err) => Err(TagError::Read(err)),
            }
        }
         else if t == Tag_PAC_extension {
            match read_uleb128(data, p1) {
                Ok((b, p2)) => Ok((Tag::PacExt(PacExt::from_value(b)), p2)),
                Err(err) => Err(TagError::Read(err)),
            }
        }
         else if t == Tag_BTI_extension {
            match read_uleb128(data, p1) {
                Ok((b, p2)) => Ok((Tag::BtiExt(BtiExt::from_value(b)), p2)),
                Err(err) => Err(TagError::Read(err)),
            }
        }
         else if t == Tag_T2EE_use {
            match read_uleb128(data, p1) {
                Ok((b, p2)) => Ok((Tag::T2EeUse(T2EeUse::from_value(b)), p2)),
                Err(err) => Err(TagError::Read(err)),
            }
        }
         else if t == Tag_Virtualization_use {
            match read_uleb128(data, p1) {
                Ok((b, p2)) => Ok((Tag::VirtualUse(VirtualUse::from_value(b)), p2)),
                Err(err) => Err(TagError::Read(err)),
            }
        }
         else if t == Tag_FramePointer_use {
            match read_uleb128(data, p1) {
                Ok((b, p2)) => Ok((Tag::FramePointerUse(FramePointerUse::from_value(b)), p2)),
                Err(err) => Err(TagError::Read(err)),
            }
        }
         else if t == Tag_BTI_use {
            match read_uleb128(data, p1) {
                Ok((b, p2)) => Ok((Tag::BtiUse(BtiUse::from_value(b)), p2)),
                Err(err) => Err(TagError::Read(err)),
            }
        }
         else if t == Tag_PACRET_use {
            match read_uleb128(data, p1) {
                Ok((b, p2)) => Ok((Tag::PacretUse(PacretUse::from_value(b)), p2)),
                Err(err) => Err(TagError::Read(err)),
            }
        }
         else {
            Err(TagError::IncompatibleTagValue(t))
        }
    }
}

} // verus!
