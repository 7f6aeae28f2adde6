//! The per-scope attribute set: one optional field per known attribute
//! tag, plus the flag that switches default propagation into child
//! scopes off, and the rules by which a tag sets a field and an empty
//! child set inherits its parent's resolved values.

use vstd::prelude::*;

use crate::enums::{
    AbiAlignNeeded, AbiAlignPreserved, AbiEnumSize, AbiFp16BitFormat, AbiFpDenormal,
    AbiFpExceptions, AbiFpNumberModel, AbiFpOptGoals, AbiFpRounding, AbiFpUserExceptions,
    AbiHardFpUse, AbiOptGoals, AbiPcsGotUse, AbiPcsR9Use, AbiPcsRoData, AbiPcsRwData,
    AbiPcsWcharT, AbiVfpArgs, AbiWmmxArgs, AlsoCompatWith, AlsoCompatWithM, ArmIsaUse,
    AsimdArch, BtiExt, BtiUse, Compat, CompatM, Conform, CpuArch, CpuArchProfile, CpuName,
    CpuNameM, CpuUnalignedAccess, DivUse, DspExt, FpArch, FpHpExt, FramePointerUse, MpExtUse,
    MveArch, PacExt, PacretUse, PcsConfig, T2EeUse, ThumbIsaUse, VirtualUse, WmmxArch,
};
use crate::tag::{Tag, TagM};

verus! {

/// One scope's attribute set: each field is unset until a tag of the
/// matching number sets it; a repeated tag within the same scope
/// overwrites the earlier value.
pub struct Attributes {
    // Target-related attributes
    pub cpu_raw_name: Option<String>,
    pub cpu_name: Option<CpuName>,
    pub cpu_arch: Option<CpuArch>,
    pub cpu_arch_profile: Option<CpuArchProfile>,
    pub arm_isa_use: Option<ArmIsaUse>,
    pub thumb_isa_use: Option<ThumbIsaUse>,
    pub fp_arch: Option<FpArch>,
    pub wmmx_arch: Option<WmmxArch>,
    pub asimd_arch: Option<AsimdArch>,
    pub mve_arch: Option<MveArch>,
    pub fp_hp_ext: Option<FpHpExt>,
    pub cpu_unaligned_access: Option<CpuUnalignedAccess>,
    pub t2ee_use: Option<T2EeUse>,
    pub virtual_use: Option<VirtualUse>,
    pub mp_ext_use: Option<MpExtUse>,
    pub div_use: Option<DivUse>,
    pub dsp_ext: Option<DspExt>,
    pub pac_ext: Option<PacExt>,
    pub bti_ext: Option<BtiExt>,
    // Procedure call-related attributes
    pub pcs_config: Option<PcsConfig>,
    pub abi_pcs_r9_use: Option<AbiPcsR9Use>,
    pub abi_pcs_rw_data: Option<AbiPcsRwData>,
    pub abi_pcs_ro_data: Option<AbiPcsRoData>,
    pub abi_pcs_got_use: Option<AbiPcsGotUse>,
    pub abi_pcs_wchar_t: Option<AbiPcsWcharT>,
    pub abi_enum_size: Option<AbiEnumSize>,
    pub abi_align_needed: Option<AbiAlignNeeded>,
    pub abi_align_preserved: Option<AbiAlignPreserved>,
    pub abi_fp_rounding: Option<AbiFpRounding>,
    pub abi_fp_denormal: Option<AbiFpDenormal>,
    pub abi_fp_exceptions: Option<AbiFpExceptions>,
    pub abi_fp_user_exceptions: Option<AbiFpUserExceptions>,
    pub abi_fp_number_model: Option<AbiFpNumberModel>,
    pub abi_fp_16bit_format: Option<AbiFp16BitFormat>,
    pub abi_hardfp_use: Option<AbiHardFpUse>,
    pub abi_vfp_args: Option<AbiVfpArgs>,
    pub abi_wmmx_args: Option<AbiWmmxArgs>,
    pub frame_pointer_use: Option<FramePointerUse>,
    pub bti_use: Option<BtiUse>,
    // Miscellaneous attributes
    pub pacret_use: Option<PacretUse>,
    pub abi_opt_goals: Option<AbiOptGoals>,
    pub abi_fp_opt_goals: Option<AbiFpOptGoals>,
    pub compat: Option<Compat>,
    pub also_compat_with: Option<AlsoCompatWith>,
    pub conform: Option<Conform>,
    /// Whether a no-further-defaults marker was set in this scope, which
    /// stops default propagation into this scope's children.
    pub no_defaults: bool,
}

/// Mathematical model of an attribute set: strings are character
/// sequences.
#[verifier::ext_equal]
pub struct AttrsM {
    pub cpu_raw_name: Option<Seq<char>>,
    pub cpu_name: Option<CpuNameM>,
    pub cpu_arch: Option<CpuArch>,
    pub cpu_arch_profile: Option<CpuArchProfile>,
    pub arm_isa_use: Option<ArmIsaUse>,
    pub thumb_isa_use: Option<ThumbIsaUse>,
    pub fp_arch: Option<FpArch>,
    pub wmmx_arch: Option<WmmxArch>,
    pub asimd_arch: Option<AsimdArch>,
    pub mve_arch: Option<MveArch>,
    pub fp_hp_ext: Option<FpHpExt>,
    pub cpu_unaligned_access: Option<CpuUnalignedAccess>,
    pub t2ee_use: Option<T2EeUse>,
    pub virtual_use: Option<VirtualUse>,
    pub mp_ext_use: Option<MpExtUse>,
    pub div_use: Option<DivUse>,
    pub dsp_ext: Option<DspExt>,
    pub pac_ext: Option<PacExt>,
    pub bti_ext: Option<BtiExt>,
    pub pcs_config: Option<PcsConfig>,
    pub abi_pcs_r9_use: Option<AbiPcsR9Use>,
    pub abi_pcs_rw_data: Option<AbiPcsRwData>,
    pub abi_pcs_ro_data: Option<AbiPcsRoData>,
    pub abi_pcs_got_use: Option<AbiPcsGotUse>,
    pub abi_pcs_wchar_t: Option<AbiPcsWcharT>,
    pub abi_enum_size: Option<AbiEnumSize>,
    pub abi_align_needed: Option<AbiAlignNeeded>,
    pub abi_align_preserved: Option<AbiAlignPreserved>,
    pub abi_fp_rounding: Option<AbiFpRounding>,
    pub abi_fp_denormal: Option<AbiFpDenormal>,
    pub abi_fp_exceptions: Option<AbiFpExceptions>,
    pub abi_fp_user_exceptions: Option<AbiFpUserExceptions>,
    pub abi_fp_number_model: Option<AbiFpNumberModel>,
    pub abi_fp_16bit_format: Option<AbiFp16BitFormat>,
    pub abi_hardfp_use: Option<AbiHardFpUse>,
    pub abi_vfp_args: Option<AbiVfpArgs>,
    pub abi_wmmx_args: Option<AbiWmmxArgs>,
    pub frame_pointer_use: Option<FramePointerUse>,
    pub bti_use: Option<BtiUse>,
    pub pacret_use: Option<PacretUse>,
    pub abi_opt_goals: Option<AbiOptGoals>,
    pub abi_fp_opt_goals: Option<AbiFpOptGoals>,
    pub compat: Option<CompatM>,
    pub also_compat_with: Option<AlsoCompatWithM>,
    pub conform: Option<Seq<char>>,
    pub no_defaults: bool,
}

impl View for Attributes {
    type V = AttrsM;

    open spec fn view(&self) -> AttrsM {
        AttrsM {
            cpu_raw_name: match self.cpu_raw_name {
                Some(ref x) => Some(x@),
                None => None,
            },
            cpu_name: match self.cpu_name {
                Some(ref x) => Some(x@),
                None => None,
            },
            cpu_arch: self.cpu_arch,
            cpu_arch_profile: self.cpu_arch_profile,
            arm_isa_use: self.arm_isa_use,
            thumb_isa_use: self.thumb_isa_use,
            fp_arch: self.fp_arch,
            wmmx_arch: self.wmmx_arch,
            asimd_arch: self.asimd_arch,
            mve_arch: self.mve_arch,
            fp_hp_ext: self.fp_hp_ext,
            cpu_unaligned_access: self.cpu_unaligned_access,
            t2ee_use: self.t2ee_use,
            virtual_use: self.virtual_use,
            mp_ext_use: self.mp_ext_use,
            div_use: self.div_use,
            dsp_ext: self.dsp_ext,
            pac_ext: self.pac_ext,
            bti_ext: self.bti_ext,
            pcs_config: self.pcs_config,
            abi_pcs_r9_use: self.abi_pcs_r9_use,
            abi_pcs_rw_data: self.abi_pcs_rw_data,
            abi_pcs_ro_data: self.abi_pcs_ro_data,
            abi_pcs_got_use: self.abi_pcs_got_use,
            abi_pcs_wchar_t: self.abi_pcs_wchar_t,
            abi_enum_size: self.abi_enum_size,
            abi_align_needed: self.abi_align_needed,
            abi_align_preserved: self.abi_align_preserved,
            abi_fp_rounding: self.abi_fp_rounding,
            abi_fp_denormal: self.abi_fp_denormal,
            abi_fp_exceptions: self.abi_fp_exceptions,
            abi_fp_user_exceptions: self.abi_fp_user_exceptions,
            abi_fp_number_model: self.abi_fp_number_model,
            abi_fp_16bit_format: self.abi_fp_16bit_format,
            abi_hardfp_use: self.abi_hardfp_use,
            abi_vfp_args: self.abi_vfp_args,
            abi_wmmx_args: self.abi_wmmx_args,
            frame_pointer_use: self.frame_pointer_use,
            bti_use: self.bti_use,
            pacret_use: self.pacret_use,
            abi_opt_goals: self.abi_opt_goals,
            abi_fp_opt_goals: self.abi_fp_opt_goals,
            compat: match self.compat {
                Some(ref x) => Some(x@),
                None => None,
            },
            also_compat_with: match self.also_compat_with {
                Some(ref x) => Some(x@),
                None => None,
            },
            conform: match self.conform {
                Some(ref x) => Some(x@),
                None => None,
            },
            no_defaults: self.no_defaults,
        }
    }
}

impl AttrsM {
    /// The attribute set with every field unset.
    pub open spec fn spec_unset() -> AttrsM {
        AttrsM {
            cpu_raw_name: None,
            cpu_name: None,
            cpu_arch: None,
            cpu_arch_profile: None,
            arm_isa_use: None,
            thumb_isa_use: None,
            fp_arch: None,
            wmmx_arch: None,
            asimd_arch: None,
            mve_arch: None,
            fp_hp_ext: None,
            cpu_unaligned_access: None,
            t2ee_use: None,
            virtual_use: None,
            mp_ext_use: None,
            div_use: None,
            dsp_ext: None,
            pac_ext: None,
            bti_ext: None,
            pcs_config: None,
            abi_pcs_r9_use: None,
            abi_pcs_rw_data: None,
            abi_pcs_ro_data: None,
            abi_pcs_got_use: None,
            abi_pcs_wchar_t: None,
            abi_enum_size: None,
            abi_align_needed: None,
            abi_align_preserved: None,
            abi_fp_rounding: None,
            abi_fp_denormal: None,
            abi_fp_exceptions: None,
            abi_fp_user_exceptions: None,
            abi_fp_number_model: None,
            abi_fp_16bit_format: None,
            abi_hardfp_use: None,
            abi_vfp_args: None,
            abi_wmmx_args: None,
            frame_pointer_use: None,
            bti_use: None,
            pacret_use: None,
            abi_opt_goals: None,
            abi_fp_opt_goals: None,
            compat: None,
            also_compat_with: None,
            conform: None,
            no_defaults: false,
        }
    }

    /// Whether every attribute field is unset. The no-further-defaults
    /// flag is not an attribute and does not count.
    pub open spec fn spec_is_empty(self) -> bool {
        &&& self.cpu_raw_name is None
        &&& self.cpu_name is None
        &&& self.cpu_arch is None
        &&& self.cpu_arch_profile is None
        &&& self.arm_isa_use is None
        &&& self.thumb_isa_use is None
        &&& self.fp_arch is None
        &&& self.wmmx_arch is None
        &&& self.asimd_arch is None
        &&& self.mve_arch is None
        &&& self.fp_hp_ext is None
        &&& self.cpu_unaligned_access is None
        &&& self.t2ee_use is None
        &&& self.virtual_use is None
        &&& self.mp_ext_use is None
        &&& self.div_use is None
        &&& self.dsp_ext is None
        &&& self.pac_ext is None
        &&& self.bti_ext is None
        &&& self.pcs_config is None
        &&& self.abi_pcs_r9_use is None
        &&& self.abi_pcs_rw_data is None
        &&& self.abi_pcs_ro_data is None
        &&& self.abi_pcs_got_use is None
        &&& self.abi_pcs_wchar_t is None
        &&& self.abi_enum_size is None
        &&& self.abi_align_needed is None
        &&& self.abi_align_preserved is None
        &&& self.abi_fp_rounding is None
        &&& self.abi_fp_denormal is None
        &&& self.abi_fp_exceptions is None
        &&& self.abi_fp_user_exceptions is None
        &&& self.abi_fp_number_model is None
        &&& self.abi_fp_16bit_format is None
        &&& self.abi_hardfp_use is None
        &&& self.abi_vfp_args is None
        &&& self.abi_wmmx_args is None
        &&& self.frame_pointer_use is None
        &&& self.bti_use is None
        &&& self.pacret_use is None
        &&& self.abi_opt_goals is None
        &&& self.abi_fp_opt_goals is None
        &&& self.compat is None
        &&& self.also_compat_with is None
        &&& self.conform is None
    }

    /// The field that a non-scope tag sets; a scope marker sets none.
    pub open spec fn spec_apply_tag(self, t: TagM) -> AttrsM {
        match t {
            TagM::CpuRawName(x) => AttrsM { cpu_raw_name: Some(x), ..self },
            TagM::CpuName(x) => AttrsM { cpu_name: Some(x), ..self },
            TagM::CpuArch(x) => AttrsM { cpu_arch: Some(x), ..self },
            TagM::CpuArchProfile(x) => AttrsM { cpu_arch_profile: Some(x), ..self },
            TagM::ArmIsaUse(x) => AttrsM { arm_isa_use: Some(x), ..self },
            TagM::ThumbIsaUse(x) => AttrsM { thumb_isa_use: Some(x), ..self },
            TagM::FpArch(x) => AttrsM { fp_arch: Some(x), ..self },
            TagM::WmmxArch(x) => AttrsM { wmmx_arch: Some(x), ..self },
            TagM::AsimdArch(x) => AttrsM { asimd_arch: Some(x), ..self },
            TagM::PcsConfig(x) => AttrsM { pcs_config: Some(x), ..self },
            TagM::AbiPcsR9Use(x) => AttrsM { abi_pcs_r9_use: Some(x), ..self },
            TagM::AbiPcsRwData(x) => AttrsM { abi_pcs_rw_data: Some(x), ..self },
            TagM::AbiPcsRoData(x) => AttrsM { abi_pcs_ro_data: Some(x), ..self },
            TagM::AbiPcsGotUse(x) => AttrsM { abi_pcs_got_use: Some(x), ..self },
            TagM::AbiPcsWcharT(x) => AttrsM { abi_pcs_wchar_t: Some(x), ..self },
            TagM::AbiFpRounding(x) => AttrsM { abi_fp_rounding: Some(x), ..self },
            TagM::AbiFpDenormal(x) => AttrsM { abi_fp_denormal: Some(x), ..self },
            TagM::AbiFpExceptions(x) => AttrsM { abi_fp_exceptions: Some(x), ..self },
            TagM::AbiFpUserExceptions(x) => AttrsM { abi_fp_user_exceptions: Some(x), ..self },
            TagM::AbiFpNumberModel(x) => AttrsM { abi_fp_number_model: Some(x), ..self },
            TagM::AbiAlignNeeded(x) => AttrsM { abi_align_needed: Some(x), ..self },
            TagM::AbiAlignPreserved(x) => AttrsM { abi_align_preserved: Some(x), ..self },
            TagM::AbiEnumSize(x) => AttrsM { abi_enum_size: Some(x), ..self },
            TagM::AbiHardFpUse(x) => AttrsM { abi_hardfp_use: Some(x), ..self },
            TagM::AbiVfpArgs(x) => AttrsM { abi_vfp_args: Some(x), ..self },
            TagM::AbiWmmxArgs(x) => AttrsM { abi_wmmx_args: Some(x), ..self },
            TagM::AbiOptGoals(x) => AttrsM { abi_opt_goals: Some(x), ..self },
            TagM::AbiFpOptGoals(x) => AttrsM { abi_fp_opt_goals: Some(x), ..self },
            TagM::Compat(x) => AttrsM { compat: Some(x), ..self },
            TagM::CpuUnalignedAccess(x) => AttrsM { cpu_unaligned_access: Some(x), ..self },
            TagM::FpHpExt(x) => AttrsM { fp_hp_ext: Some(x), ..self },
            TagM::AbiFp16BitFormat(x) => AttrsM { abi_fp_16bit_format: Some(x), ..self },
            TagM::MpExtUse(x) => AttrsM { mp_ext_use: Some(x), ..self },
            TagM::DivUse(x) => AttrsM { div_use: Some(x), ..self },
            TagM::DspExt(x) => AttrsM { dsp_ext: Some(x), ..self },
            TagM::MveArch(x) => AttrsM { mve_arch: Some(x), ..self },
            TagM::PacExt(x) => AttrsM { pac_ext: Some(x), ..self },
            TagM::BtiExt(x) => AttrsM { bti_ext: Some(x), ..self },
            TagM::AlsoCompatWith(x) => AttrsM { also_compat_with: Some(x), ..self },
            TagM::Conform(x) => AttrsM { conform: Some(x), ..self },
            TagM::T2EeUse(x) => AttrsM { t2ee_use: Some(x), ..self },
            TagM::VirtualUse(x) => AttrsM { virtual_use: Some(x), ..self },
            TagM::FramePointerUse(x) => AttrsM { frame_pointer_use: Some(x), ..self },
            TagM::BtiUse(x) => AttrsM { bti_use: Some(x), ..self },
            TagM::PacretUse(x) => AttrsM { pacret_use: Some(x), ..self },
            TagM::NoDefaults => AttrsM { no_defaults: true, ..self },
            _ => self,
        }
    }

    /// The set an empty child scope resolves to under a parent: every
    /// unset field is taken from the parent; the child keeps its own
    /// no-further-defaults flag.
    pub open spec fn spec_inherit(self, parent: AttrsM) -> AttrsM {
        AttrsM {
            cpu_raw_name: if self.cpu_raw_name is Some {
                self.cpu_raw_name
            } else {
                parent.cpu_raw_name
            },
            cpu_name: if self.cpu_name is Some {
                self.cpu_name
            } else {
                parent.cpu_name
            },
            cpu_arch: if self.cpu_arch is Some {
                self.cpu_arch
            } else {
                parent.cpu_arch
            },
            cpu_arch_profile: if self.cpu_arch_profile is Some {
                self.cpu_arch_profile
            } else {
                parent.cpu_arch_profile
            },
            arm_isa_use: if self.arm_isa_use is Some {
                self.arm_isa_use
            } else {
                parent.arm_isa_use
            },
            thumb_isa_use: if self.thumb_isa_use is Some {
                self.thumb_isa_use
            } else {
                parent.thumb_isa_use
            },
            fp_arch: if self.fp_arch is Some {
                self.fp_arch
            } else {
                parent.fp_arch
            },
            wmmx_arch: if self.wmmx_arch is Some {
                self.wmmx_arch
            } else {
                parent.wmmx_arch
            },
            asimd_arch: if self.asimd_arch is Some {
                self.asimd_arch
            } else {
                parent.asimd_arch
            },
            mve_arch: if self.mve_arch is Some {
                self.mve_arch
            } else {
                parent.mve_arch
            },
            fp_hp_ext: if self.fp_hp_ext is Some {
                self.fp_hp_ext
            } else {
                parent.fp_hp_ext
            },
            cpu_unaligned_access: if self.cpu_unaligned_access is Some {
                self.cpu_unaligned_access
            } else {
                parent.cpu_unaligned_access
            },
            t2ee_use: if self.t2ee_use is Some {
                self.t2ee_use
            } else {
                parent.t2ee_use
            },
            virtual_use: if self.virtual_use is Some {
                self.virtual_use
            } else {
                parent.virtual_use
            },
            mp_ext_use: if self.mp_ext_use is Some {
                self.mp_ext_use
            } else {
                parent.mp_ext_use
            },
            div_use: if self.div_use is Some {
                self.div_use
            } else {
                parent.div_use
            },
            dsp_ext: if self.dsp_ext is Some {
                self.dsp_ext
            } else {
                parent.dsp_ext
            },
            pac_ext: if self.pac_ext is Some {
                self.pac_ext
            } else {
                parent.pac_ext
            },
            bti_ext: if self.bti_ext is Some {
                self.bti_ext
            } else {
                parent.bti_ext
            },
            pcs_config: if self.pcs_config is Some {
                self.pcs_config
            } else {
                parent.pcs_config
            },
            abi_pcs_r9_use: if self.abi_pcs_r9_use is Some {
                self.abi_pcs_r9_use
            } else {
                parent.abi_pcs_r9_use
            },
            abi_pcs_rw_data: if self.abi_pcs_rw_data is Some {
                self.abi_pcs_rw_data
            } else {
                parent.abi_pcs_rw_data
            },
            abi_pcs_ro_data: if self.abi_pcs_ro_data is Some {
                self.abi_pcs_ro_data
            } else {
                parent.abi_pcs_ro_data
            },
            abi_pcs_got_use: if self.abi_pcs_got_use is Some {
                self.abi_pcs_got_use
            } else {
                parent.abi_pcs_got_use
            },
            abi_pcs_wchar_t: if self.abi_pcs_wchar_t is Some {
                self.abi_pcs_wchar_t
            } else {
                parent.abi_pcs_wchar_t
            },
            abi_enum_size: if self.abi_enum_size is Some {
                self.abi_enum_size
            } else {
                parent.abi_enum_size
            },
            abi_align_needed: if self.abi_align_needed is Some {
                self.abi_align_needed
            } else {
                parent.abi_align_needed
            },
            abi_align_preserved: if self.abi_align_preserved is Some {
                self.abi_align_preserved
            } else {
                parent.abi_align_preserved
            },
            abi_fp_rounding: if self.abi_fp_rounding is Some {
                self.abi_fp_rounding
            } else {
                parent.abi_fp_rounding
            },
            abi_fp_denormal: if self.abi_fp_denormal is Some {
                self.abi_fp_denormal
            } else {
                parent.abi_fp_denormal
            },
            abi_fp_exceptions: if self.abi_fp_exceptions is Some {
                self.abi_fp_exceptions
            } else {
                parent.abi_fp_exceptions
            },
            abi_fp_user_exceptions: if self.abi_fp_user_exceptions is Some {
                self.abi_fp_user_exceptions
            } else {
                parent.abi_fp_user_exceptions
            },
            abi_fp_number_model: if self.abi_fp_number_model is Some {
                self.abi_fp_number_model
            } else {
                parent.abi_fp_number_model
            },
            abi_fp_16bit_format: if self.abi_fp_16bit_format is Some {
                self.abi_fp_16bit_format
            } else {
                parent.abi_fp_16bit_format
            },
            abi_hardfp_use: if self.abi_hardfp_use is Some {
                self.abi_hardfp_use
            } else {
                parent.abi_hardfp_use
            },
            abi_vfp_args: if self.abi_vfp_args is Some {
                self.abi_vfp_args
            } else {
                parent.abi_vfp_args
            },
            abi_wmmx_args: if self.abi_wmmx_args is Some {
                self.abi_wmmx_args
            } else {
                parent.abi_wmmx_args
            },
            frame_pointer_use: if self.frame_pointer_use is Some {
                self.frame_pointer_use
            } else {
                parent.frame_pointer_use
            },
            bti_use: if self.bti_use is Some {
                self.bti_use
            } else {
                parent.bti_use
            },
            pacret_use: if self.pacret_use is Some {
                self.pacret_use
            } else {
                parent.pacret_use
            },
            abi_opt_goals: if self.abi_opt_goals is Some {
                self.abi_opt_goals
            } else {
                parent.abi_opt_goals
            },
            abi_fp_opt_goals: if self.abi_fp_opt_goals is Some {
                self.abi_fp_opt_goals
            } else {
                parent.abi_fp_opt_goals
            },
            compat: if self.compat is Some {
                self.compat
            } else {
                parent.compat
            },
            also_compat_with: if self.also_compat_with is Some {
                self.also_compat_with
            } else {
                parent.also_compat_with
            },
            conform: if self.conform is Some {
                self.conform
            } else {
                parent.conform
            },
            no_defaults: self.no_defaults,
        }
    }
}

impl Attributes {
    /// The attribute set with every field unset.
    pub fn new() -> (r: Attributes)
        ensures
            r@ == AttrsM::spec_unset(),
    {
        Attributes {
            cpu_raw_name: None,
            cpu_name: None,
            cpu_arch: None,
            cpu_arch_profile: None,
            arm_isa_use: None,
            thumb_isa_use: None,
            fp_arch: None,
            wmmx_arch: None,
            asimd_arch: None,
            mve_arch: None,
            fp_hp_ext: None,
            cpu_unaligned_access: None,
            t2ee_use: None,
            virtual_use: None,
            mp_ext_use: None,
            div_use: None,
            dsp_ext: None,
            pac_ext: None,
            bti_ext: None,
            pcs_config: None,
            abi_pcs_r9_use: None,
            abi_pcs_rw_data: None,
            abi_pcs_ro_data: None,
            abi_pcs_got_use: None,
            abi_pcs_wchar_t: None,
            abi_enum_size: None,
            abi_align_needed: None,
            abi_align_preserved: None,
            abi_fp_rounding: None,
            abi_fp_denormal: None,
            abi_fp_exceptions: None,
            abi_fp_user_exceptions: None,
            abi_fp_number_model: None,
            abi_fp_16bit_format: None,
            abi_hardfp_use: None,
            abi_vfp_args: None,
            abi_wmmx_args: None,
            frame_pointer_use: None,
            bti_use: None,
            pacret_use: None,
            abi_opt_goals: None,
            abi_fp_opt_goals: None,
            compat: None,
            also_compat_with: None,
            conform: None,
            no_defaults: false,
        }
    }

    /// Whether every attribute field is unset. The no-further-defaults
    /// flag is not an attribute and does not count.
    pub fn empty(&self) -> (r: bool)
        ensures
            r == self@.spec_is_empty(),
    {
        self.cpu_raw_name.is_none()
            && self.cpu_name.is_none()
            && self.cpu_arch.is_none()
            && self.cpu_arch_profile.is_none()
            && self.arm_isa_use.is_none()
            && self.thumb_isa_use.is_none()
            && self.fp_arch.is_none()
            && self.wmmx_arch.is_none()
            && self.asimd_arch.is_none()
            && self.mve_arch.is_none()
            && self.fp_hp_ext.is_none()
            && self.cpu_unaligned_access.is_none()
            && self.t2ee_use.is_none()
            && self.virtual_use.is_none()
            && self.mp_ext_use.is_none()
            && self.div_use.is_none()
            && self.dsp_ext.is_none()
            && self.pac_ext.is_none()
            && self.bti_ext.is_none()
            && self.pcs_config.is_none()
            && self.abi_pcs_r9_use.is_none()
            && self.abi_pcs_rw_data.is_none()
            && self.abi_pcs_ro_data.is_none()
            && self.abi_pcs_got_use.is_none()
            && self.abi_pcs_wchar_t.is_none()
            && self.abi_enum_size.is_none()
            && self.abi_align_needed.is_none()
            && self.abi_align_preserved.is_none()
            && self.abi_fp_rounding.is_none()
            && self.abi_fp_denormal.is_none()
            && self.abi_fp_exceptions.is_none()
            && self.abi_fp_user_exceptions.is_none()
            && self.abi_fp_number_model.is_none()
            && self.abi_fp_16bit_format.is_none()
            && self.abi_hardfp_use.is_none()
            && self.abi_vfp_args.is_none()
            && self.abi_wmmx_args.is_none()
            && self.frame_pointer_use.is_none()
            && self.bti_use.is_none()
            && self.pacret_use.is_none()
            && self.abi_opt_goals.is_none()
            && self.abi_fp_opt_goals.is_none()
            && self.compat.is_none()
            && self.also_compat_with.is_none()
            && self.conform.is_none()
    }

    /// Set the field that a non-scope tag carries; a scope marker sets
    /// none.
    pub(crate) fn apply_tag(&mut self, t: Tag)
        ensures
            final(self)@ == old(self)@.spec_apply_tag(t@),
    {
        match t {
            Tag::CpuRawName(x) => self.cpu_raw_name = Some(x),
            Tag::CpuName(x) => self.cpu_name = Some(x),
            Tag::CpuArch(x) => self.cpu_arch = Some(x),
            Tag::CpuArchProfile(x) => self.cpu_arch_profile = Some(x),
            Tag::ArmIsaUse(x) => self.arm_isa_use = Some(x),
            Tag::ThumbIsaUse(x) => self.thumb_isa_use = Some(x),
            Tag::FpArch(x) => self.fp_arch = Some(x),
            Tag::WmmxArch(x) => self.wmmx_arch = Some(x),
            Tag::AsimdArch(x) => self.asimd_arch = Some(x),
            Tag::PcsConfig(x) => self.pcs_config = Some(x),
            Tag::AbiPcsR9Use(x) => self.abi_pcs_r9_use = Some(x),
            Tag::AbiPcsRwData(x) => self.abi_pcs_rw_data = Some(x),
            Tag::AbiPcsRoData(x) => self.abi_pcs_ro_data = Some(x),
            Tag::AbiPcsGotUse(x) => self.abi_pcs_got_use = Some(x),
            Tag::AbiPcsWcharT(x) => self.abi_pcs_wchar_t = Some(x),
            Tag::AbiFpRounding(x) => self.abi_fp_rounding = Some(x),
            Tag::AbiFpDenormal(x) => self.abi_fp_denormal = Some(x),
            Tag::AbiFpExceptions(x) => self.abi_fp_exceptions = Some(x),
            Tag::AbiFpUserExceptions(x) => self.abi_fp_user_exceptions = Some(x),
            Tag::AbiFpNumberModel(x) => self.abi_fp_number_model = Some(x),
            Tag::AbiAlignNeeded(x) => self.abi_align_needed = Some(x),
            Tag::AbiAlignPreserved(x) => self.abi_align_preserved = Some(x),
            Tag::AbiEnumSize(x) => self.abi_enum_size = Some(x),
            Tag::AbiHardFpUse(x) => self.abi_hardfp_use = Some(x),
            Tag::AbiVfpArgs(x) => self.abi_vfp_args = Some(x),
            Tag::AbiWmmxArgs(x) => self.abi_wmmx_args = Some(x),
            Tag::AbiOptGoals(x) => self.abi_opt_goals = Some(x),
            Tag::AbiFpOptGoals(x) => self.abi_fp_opt_goals = Some(x),
            Tag::Compat(x) => self.compat = Some(x),
            Tag::CpuUnalignedAccess(x) => self.cpu_unaligned_access = Some(x),
            Tag::FpHpExt(x) => self.fp_hp_ext = Some(x),
            Tag::AbiFp16BitFormat(x) => self.abi_fp_16bit_format = Some(x),
            Tag::MpExtUse(x) => self.mp_ext_use = Some(x),
            Tag::DivUse(x) => self.div_use = Some(x),
            Tag::DspExt(x) => self.dsp_ext = Some(x),
            Tag::MveArch(x) => self.mve_arch = Some(x),
            Tag::PacExt(x) => self.pac_ext = Some(x),
            Tag::BtiExt(x) => self.bti_ext = Some(x),
            Tag::AlsoCompatWith(x) => self.also_compat_with = Some(x),
            Tag::Conform(x) => self.conform = Some(x),
            Tag::T2EeUse(x) => self.t2ee_use = Some(x),
            Tag::VirtualUse(x) => self.virtual_use = Some(x),
            Tag::FramePointerUse(x) => self.frame_pointer_use = Some(x),
            Tag::BtiUse(x) => self.bti_use = Some(x),
            Tag::PacretUse(x) => self.pacret_use = Some(x),
            Tag::NoDefaults => self.no_defaults = true,
            _ => (),
        }
    }

    /// A deep copy whose model is the same.
    pub fn duplicate(&self) -> (r: Attributes)
        ensures
            r@ == self@,
    {
        Attributes {
            cpu_raw_name: match &self.cpu_raw_name {
                Some(s) => Some(s.clone()),
                None => None,
            },
            cpu_name: match &self.cpu_name {
                Some(s) => Some(s.duplicate()),
                None => None,
            },
            cpu_arch: self.cpu_arch,
            cpu_arch_profile: self.cpu_arch_profile,
            arm_isa_use: self.arm_isa_use,
            thumb_isa_use: self.thumb_isa_use,
            fp_arch: self.fp_arch,
            wmmx_arch: self.wmmx_arch,
            asimd_arch: self.asimd_arch,
            mve_arch: self.mve_arch,
            fp_hp_ext: self.fp_hp_ext,
            cpu_unaligned_access: self.cpu_unaligned_access,
            t2ee_use: self.t2ee_use,
            virtual_use: self.virtual_use,
            mp_ext_use: self.mp_ext_use,
            div_use: self.div_use,
            dsp_ext: self.dsp_ext,
            pac_ext: self.pac_ext,
            bti_ext: self.bti_ext,
            pcs_config: self.pcs_config,
            abi_pcs_r9_use: self.abi_pcs_r9_use,
            abi_pcs_rw_data: self.abi_pcs_rw_data,
            abi_pcs_ro_data: self.abi_pcs_ro_data,
            abi_pcs_got_use: self.abi_pcs_got_use,
            abi_pcs_wchar_t: self.abi_pcs_wchar_t,
            abi_enum_size: self.abi_enum_size,
            abi_align_needed: self.abi_align_needed,
            abi_align_preserved: self.abi_align_preserved,
            abi_fp_rounding: self.abi_fp_rounding,
            abi_fp_denormal: self.abi_fp_denormal,
            abi_fp_exceptions: self.abi_fp_exceptions,
            abi_fp_user_exceptions: self.abi_fp_user_exceptions,
            abi_fp_number_model: self.abi_fp_number_model,
            abi_fp_16bit_format: self.abi_fp_16bit_format,
            abi_hardfp_use: self.abi_hardfp_use,
            abi_vfp_args: self.abi_vfp_args,
            abi_wmmx_args: self.abi_wmmx_args,
            frame_pointer_use: self.frame_pointer_use,
            bti_use: self.bti_use,
            pacret_use: self.pacret_use,
            abi_opt_goals: self.abi_opt_goals,
            abi_fp_opt_goals: self.abi_fp_opt_goals,
            compat: match &self.compat {
                Some(s) => Some(s.duplicate()),
                None => None,
            },
            also_compat_with: match &self.also_compat_with {
                Some(s) => Some(s.duplicate()),
                None => None,
            },
            conform: match &self.conform {
                Some(s) => Some(s.duplicate()),
                None => None,
            },
            no_defaults: self.no_defaults,
        }
    }

    /// Fill this entirely empty set from the parent's resolved set; the
    /// no-further-defaults flag stays this scope's own.
    pub(crate) fn inherit(&mut self, parent: &Attributes)
        requires
            old(self)@.spec_is_empty(),
        ensures
            final(self)@ == old(self)@.spec_inherit(parent@),
    {
        let no_defaults = self.no_defaults;
        let mut r = parent.duplicate();
        r.no_defaults = no_defaults;
        proof {
            lemma_inherit_of_empty(self@, parent@);
        }
        *self = r;
    }
}


/// On an entirely empty child set, inheritance is a wholesale copy of
/// the parent's fields under the child's own no-further-defaults flag.
pub proof fn lemma_inherit_of_empty(child: AttrsM, parent: AttrsM)
    requires
        child.spec_is_empty(),
    ensures
        child.spec_inherit(parent) == (AttrsM { no_defaults: child.no_defaults, ..parent }),
{
}

} // verus!
