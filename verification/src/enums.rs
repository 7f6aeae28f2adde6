//! The closed catalog of ARM build-attribute values: one enumeration
//! per attribute tag, each a fixed table from raw bytes to meanings,
//! with an explicit unrecognized arm that keeps the raw byte.

use vstd::prelude::*;

use crate::read::str_eq;
use crate::tag::{Tag, TagM};

verus! {

#[derive(Clone, Copy, PartialEq, Eq, Debug, Hash, Structural)]
pub enum CpuArch {
    /// Pre-ARMv4
    PreV4,
    /// ARMv4
    V4,
    /// ARMv4T
    V4T,
    /// ARMv5T
    V5T,
    /// ARMv5TE
    V5TE,
    /// ARMv5TEJ
    V5TEJ,
    /// ARMv6
    V6,
    /// ARMv6KZ
    V6KZ,
    /// ARMv6T2
    V6T2,
    /// ARMv6K
    V6K,
    /// ARMv7
    V7,
    /// ARMv6-M
    V6M,
    /// ARMv6S-M
    V6SM,
    /// ARMv7E-M
    V7EM,
    /// ARMv8-A
    V8A,
    /// ARMv8-R
    V8R,
    /// ARMv8M.baseline
    V8MBaseline,
    /// ARMv8M.mainline
    V8MMainline,
    /// ARMv8.1-A
    V8_1A,
    /// ARMv8.2-A
    V8_2A,
    /// ARMv8.3-A
    V8_3A,
    /// ARMv8.1-M.mainline
    V8_1MMainline,
    /// ARMv9A
    V9A,
    Unknown(u8),
}

impl CpuArch {
    /// The raw attribute byte this value encodes.
    pub open spec fn spec_value(self) -> u8 {
        match self {
            Self::PreV4 => 0,
            Self::V4 => 1,
            Self::V4T => 2,
            Self::V5T => 3,
            Self::V5TE => 4,
            Self::V5TEJ => 5,
            Self::V6 => 6,
            Self::V6KZ => 7,
            Self::V6T2 => 8,
            Self::V6K => 9,
            Self::V7 => 10,
            Self::V6M => 11,
            Self::V6SM => 12,
            Self::V7EM => 13,
            Self::V8A => 14,
            Self::V8R => 15,
            Self::V8MBaseline => 16,
            Self::V8MMainline => 17,
            Self::V8_1A => 18,
            Self::V8_2A => 19,
            Self::V8_3A => 20,
            Self::V8_1MMainline => 21,
            Self::V9A => 22,
            Self::Unknown(value) => value,
        }
    }

    pub fn value(self) -> (r: u8)
        ensures
            r == self.spec_value(),
    {
        match self {
            Self::PreV4 => 0,
            Self::V4 => 1,
            Self::V4T => 2,
            Self::V5T => 3,
            Self::V5TE => 4,
            Self::V5TEJ => 5,
            Self::V6 => 6,
            Self::V6KZ => 7,
            Self::V6T2 => 8,
            Self::V6K => 9,
            Self::V7 => 10,
            Self::V6M => 11,
            Self::V6SM => 12,
            Self::V7EM => 13,
            Self::V8A => 14,
            Self::V8R => 15,
            Self::V8MBaseline => 16,
            Self::V8MMainline => 17,
            Self::V8_1A => 18,
            Self::V8_2A => 19,
            Self::V8_3A => 20,
            Self::V8_1MMainline => 21,
            Self::V9A => 22,
            Self::Unknown(value) => value,
        }
    }

    /// The value a raw attribute byte decodes to; a byte outside the
    /// table keeps the raw byte under the unrecognized arm.
    pub open spec fn spec_from_value(value: u8) -> CpuArch {
        if value == 0 {
            Self::PreV4
        } else if value == 1 {
            Self::V4
        } else if value == 2 {
            Self::V4T
        } else if value == 3 {
            Self::V5T
        } else if value == 4 {
            Self::V5TE
        } else if value == 5 {
            Self::V5TEJ
        } else if value == 6 {
            Self::V6
        } else if value == 7 {
            Self::V6KZ
        } else if value == 8 {
            Self::V6T2
        } else if value == 9 {
            Self::V6K
        } else if value == 10 {
            Self::V7
        } else if value == 11 {
            Self::V6M
        } else if value == 12 {
            Self::V6SM
        } else if value == 13 {
            Self::V7EM
        } else if value == 14 {
            Self::V8A
        } else if value == 15 {
            Self::V8R
        } else if value == 16 {
            Self::V8MBaseline
        } else if value == 17 {
            Self::V8MMainline
        } else if value == 18 {
            Self::V8_1A
        } else if value == 19 {
            Self::V8_2A
        } else if value == 20 {
            Self::V8_3A
        } else if value == 21 {
            Self::V8_1MMainline
        } else if value == 22 {
            Self::V9A
        } else {
            Self::Unknown(value)
        }
    }

    pub fn from_value(value: u8) -> (r: CpuArch)
        ensures
            r == Self::spec_from_value(value),
    {
        if value == 0 {
            Self::PreV4
        } else if value == 1 {
            Self::V4
        } else if value == 2 {
            Self::V4T
        } else if value == 3 {
            Self::V5T
        } else if value == 4 {
            Self::V5TE
        } else if value == 5 {
            Self::V5TEJ
        } else if value == 6 {
            Self::V6
        } else if value == 7 {
            Self::V6KZ
        } else if value == 8 {
            Self::V6T2
        } else if value == 9 {
            Self::V6K
        } else if value == 10 {
            Self::V7
        } else if value == 11 {
            Self::V6M
        } else if value == 12 {
            Self::V6SM
        } else if value == 13 {
            Self::V7EM
        } else if value == 14 {
            Self::V8A
        } else if value == 15 {
            Self::V8R
        } else if value == 16 {
            Self::V8MBaseline
        } else if value == 17 {
            Self::V8MMainline
        } else if value == 18 {
            Self::V8_1A
        } else if value == 19 {
            Self::V8_2A
        } else if value == 20 {
            Self::V8_3A
        } else if value == 21 {
            Self::V8_1MMainline
        } else if value == 22 {
            Self::V9A
        } else {
            Self::Unknown(value)
        }
    }
}

#[derive(Clone, Copy, PartialEq, Eq, Debug, Hash, Structural)]
pub enum CpuArchProfile {
    /// Architecture profile not applicable
    NotApplicable,
    /// Application profile (A)
    Application,
    /// Real-time profile (R)
    RealTime,
    /// Microcontroller profile (M)
    Microcontroller,
    /// Application or real-time profile (S)
    Classic,
    Unknown(u8),
}

impl CpuArchProfile {
    /// The raw attribute byte this value encodes.
    pub open spec fn spec_value(self) -> u8 {
        match self {
            Self::NotApplicable => 0,
            Self::Application => 65,
            Self::RealTime => 82,
            Self::Microcontroller => 77,
            Self::Classic => 83,
            Self::Unknown(value) => value,
        }
    }

    pub fn value(self) -> (r: u8)
        ensures
            r == self.spec_value(),
    {
        match self {
            Self::NotApplicable => 0,
            Self::Application => 65,
            Self::RealTime => 82,
            Self::Microcontroller => 77,
            Self::Classic => 83,
            Self::Unknown(value) => value,
        }
    }

    /// The value a raw attribute byte decodes to; a byte outside the
    /// table keeps the raw byte under the unrecognized arm.
    pub open spec fn spec_from_value(value: u8) -> CpuArchProfile {
        if value == 0 {
            Self::NotApplicable
        } else if value == 65 {
            Self::Application
        } else if value == 82 {
            Self::RealTime
        } else if value == 77 {
            Self::Microcontroller
        } else if value == 83 {
            Self::Classic
        } else {
            Self::Unknown(value)
        }
    }

    pub fn from_value(value: u8) -> (r: CpuArchProfile)
        ensures
            r == Self::spec_from_value(value),
    {
        if value == 0 {
            Self::NotApplicable
        } else if value == 65 {
            Self::Application
        } else if value == 82 {
            Self::RealTime
        } else if value == 77 {
            Self::Microcontroller
        } else if value == 83 {
            Self::Classic
        } else {
            Self::Unknown(value)
        }
    }
}

#[derive(Clone, Copy, PartialEq, Eq, Debug, Hash, Structural)]
pub enum ArmIsaUse {
    /// ARM code is not allowed.
    No,
    /// ARM code is allowed.
    Allowed,
    Unknown(u8),
}

impl ArmIsaUse {
    /// The raw attribute byte this value encodes.
    pub open spec fn spec_value(self) -> u8 {
        match self {
            Self::No => 0,
            Self::Allowed => 1,
            Self::Unknown(value) => value,
        }
    }

    pub fn value(self) -> (r: u8)
        ensures
            r == self.spec_value(),
    {
        match self {
            Self::No => 0,
            Self::Allowed => 1,
            Self::Unknown(value) => value,
        }
    }

    /// The value a raw attribute byte decodes to; a byte outside the
    /// table keeps the raw byte under the unrecognized arm.
    pub open spec fn spec_from_value(value: u8) -> ArmIsaUse {
        if value == 0 {
            Self::No
        } else if value == 1 {
            Self::Allowed
        } else {
            Self::Unknown(value)
        }
    }

    pub fn from_value(value: u8) -> (r: ArmIsaUse)
        ensures
            r == Self::spec_from_value(value),
    {
        if value == 0 {
            Self::No
        } else if value == 1 {
            Self::Allowed
        } else {
            Self::Unknown(value)
        }
    }
}

#[derive(Clone, Copy, PartialEq, Eq, Debug, Hash, Structural)]
pub enum ThumbIsaUse {
    /// Thumb code is not allowed.
    No,
    /// Deprecated since ARMv8-M.baseline, use Allowed instead.
    ///
    /// 16-bit Thumb instructions are allowed, including 32-bit BL.
    Allowed16Bit,
    /// Deprecated since ARMv8-M.baseline, use Allowed instead.
    ///
    /// 32-bit and 16-bit Thumb instructions are allowed.
    Allowed32Bit,
    /// Thumb code is allowed. The set of permitted instructions can be inferred from CPU arch and CPU arch profile.
    Allowed,
    Unknown(u8),
}

impl ThumbIsaUse {
    /// The raw attribute byte this value encodes.
    pub open spec fn spec_value(self) -> u8 {
        match self {
            Self::No => 0,
            Self::Allowed16Bit => 1,
            Self::Allowed32Bit => 2,
            Self::Allowed => 3,
            Self::Unknown(value) => value,
        }
    }

    pub fn value(self) -> (r: u8)
        ensures
            r == self.spec_value(),
    {
        match self {
            Self::No => 0,
            Self::Allowed16Bit => 1,
            Self::Allowed32Bit => 2,
            Self::Allowed => 3,
            Self::Unknown(value) => value,
        }
    }

    /// The value a raw attribute byte decodes to; a byte outside the
    /// table keeps the raw byte under the unrecognized arm.
    pub open spec fn spec_from_value(value: u8) -> ThumbIsaUse {
        if value == 0 {
            Self::No
        } else if value == 1 {
            Self::Allowed16Bit
        } else if value == 2 {
            Self::Allowed32Bit
        } else if value == 3 {
            Self::Allowed
        } else {
            Self::Unknown(value)
        }
    }

    pub fn from_value(value: u8) -> (r: ThumbIsaUse)
        ensures
            r == Self::spec_from_value(value),
    {
        if value == 0 {
            Self::No
        } else if value == 1 {
            Self::Allowed16Bit
        } else if value == 2 {
            Self::Allowed32Bit
        } else if value == 3 {
            Self::Allowed
        } else {
            Self::Unknown(value)
        }
    }
}

#[derive(Clone, Copy, PartialEq, Eq, Debug, Hash, Structural)]
pub enum FpArch {
    /// No instructions requiring FP hardware.
    No,
    /// v1 FP ISA is allowed.
    V1,
    /// v2 FP ISA is allowed. Implies use of v1.
    V2,
    /// v3 FP ISA is allowed. Implies use of v2.
    V3,
    /// v3 FP ISA is allowed, but only registers D0-D15 and S0-S31
    V3Light,
    /// v4 FP ISA is allowed. Implies use of v3.
    V4,
    /// v4 FP ISA is allowed, but only registers D0-D15 and S0-S31
    V4Light,
    /// ARMv8-A FP ISA is allowed.
    V8A,
    /// ARMv8-A FP ISA is allowed, but only registers D0-D15 and S0-S31
    V8ALight,
    Unknown(u8),
}

impl FpArch {
    /// The raw attribute byte this value encodes.
    pub open spec fn spec_value(self) -> u8 {
        match self {
            Self::No => 0,
            Self::V1 => 1,
            Self::V2 => 2,
            Self::V3 => 3,
            Self::V3Light => 4,
            Self::V4 => 5,
            Self::V4Light => 6,
            Self::V8A => 7,
            Self::V8ALight => 8,
            Self::Unknown(value) => value,
        }
    }

    pub fn value(self) -> (r: u8)
        ensures
            r == self.spec_value(),
    {
        match self {
            Self::No => 0,
            Self::V1 => 1,
            Self::V2 => 2,
            Self::V3 => 3,
            Self::V3Light => 4,
            Self::V4 => 5,
            Self::V4Light => 6,
            Self::V8A => 7,
            Self::V8ALight => 8,
            Self::Unknown(value) => value,
        }
    }

    /// The value a raw attribute byte decodes to; a byte outside the
    /// table keeps the raw byte under the unrecognized arm.
    pub open spec fn spec_from_value(value: u8) -> FpArch {
        if value == 0 {
            Self::No
        } else if value == 1 {
            Self::V1
        } else if value == 2 {
            Self::V2
        } else if value == 3 {
            Self::V3
        } else if value == 4 {
            Self::V3Light
        } else if value == 5 {
            Self::V4
        } else if value == 6 {
            Self::V4Light
        } else if value == 7 {
            Self::V8A
        } else if value == 8 {
            Self::V8ALight
        } else {
            Self::Unknown(value)
        }
    }

    pub fn from_value(value: u8) -> (r: FpArch)
        ensures
            r == Self::spec_from_value(value),
    {
        if value == 0 {
            Self::No
        } else if value == 1 {
            Self::V1
        } else if value == 2 {
            Self::V2
        } else if value == 3 {
            Self::V3
        } else if value == 4 {
            Self::V3Light
        } else if value == 5 {
            Self::V4
        } else if value == 6 {
            Self::V4Light
        } else if value == 7 {
            Self::V8A
        } else if value == 8 {
            Self::V8ALight
        } else {
            Self::Unknown(value)
        }
    }
}

#[derive(Clone, Copy, PartialEq, Eq, Debug, Hash, Structural)]
pub enum WmmxArch {
    /// Not allowed.
    No,
    /// WMMX v1 allowed.
    V1,
    /// WMMX v2 allowed.
    V2,
    Unknown(u8),
}

impl WmmxArch {
    /// The raw attribute byte this value encodes.
    pub open spec fn spec_value(self) -> u8 {
        match self {
            Self::No => 0,
            Self::V1 => 1,
            Self::V2 => 2,
            Self::Unknown(value) => value,
        }
    }

    pub fn value(self) -> (r: u8)
        ensures
            r == self.spec_value(),
    {
        match self {
            Self::No => 0,
            Self::V1 => 1,
            Self::V2 => 2,
            Self::Unknown(value) => value,
        }
    }

    /// The value a raw attribute byte decodes to; a byte outside the
    /// table keeps the raw byte under the unrecognized arm.
    pub open spec fn spec_from_value(value: u8) -> WmmxArch {
        if value == 0 {
            Self::No
        } else if value == 1 {
            Self::V1
        } else if value == 2 {
            Self::V2
        } else {
            Self::Unknown(value)
        }
    }

    pub fn from_value(value: u8) -> (r: WmmxArch)
        ensures
            r == Self::spec_from_value(value),
    {
        if value == 0 {
            Self::No
        } else if value == 1 {
            Self::V1
        } else if value == 2 {
            Self::V2
        } else {
            Self::Unknown(value)
        }
    }
}

#[derive(Clone, Copy, PartialEq, Eq, Debug, Hash, Structural)]
pub enum AsimdArch {
    /// Not allowed.
    No,
    /// Advanced SIMDv1 (Neon) allowed.
    V1,
    /// Advanced SIMDv2 (Neon) allowed.
    V2,
    /// ARMv8-A Advanced SIMD (Neon) allowed.
    V8A,
    /// ARMv8.1-A Advanced SIMD (Neon) allowed.
    V8_1A,
    Unknown(u8),
}

impl AsimdArch {
    /// The raw attribute byte this value encodes.
    pub open spec fn spec_value(self) -> u8 {
        match self {
            Self::No => 0,
            Self::V1 => 1,
            Self::V2 => 2,
            Self::V8A => 3,
            Self::V8_1A => 4,
            Self::Unknown(value) => value,
        }
    }

    pub fn value(self) -> (r: u8)
        ensures
            r == self.spec_value(),
    {
        match self {
            Self::No => 0,
            Self::V1 => 1,
            Self::V2 => 2,
            Self::V8A => 3,
            Self::V8_1A => 4,
            Self::Unknown(value) => value,
        }
    }

    /// The value a raw attribute byte decodes to; a byte outside the
    /// table keeps the raw byte under the unrecognized arm.
    pub open spec fn spec_from_value(value: u8) -> AsimdArch {
        if value == 0 {
            Self::No
        } else if value == 1 {
            Self::V1
        } else if value == 2 {
            Self::V2
        } else if value == 3 {
            Self::V8A
        } else if value == 4 {
            Self::V8_1A
        } else {
            Self::Unknown(value)
        }
    }

    pub fn from_value(value: u8) -> (r: AsimdArch)
        ensures
            r == Self::spec_from_value(value),
    {
        if value == 0 {
            Self::No
        } else if value == 1 {
            Self::V1
        } else if value == 2 {
            Self::V2
        } else if value == 3 {
            Self::V8A
        } else if value == 4 {
            Self::V8_1A
        } else {
            Self::Unknown(value)
        }
    }
}

#[derive(Clone, Copy, PartialEq, Eq, Debug, Hash, Structural)]
pub enum MveArch {
    /// Not allowed.
    No,
    /// Integer M-profile Vector Extension allowed.
    Int,
    /// Integer and Floating Point M-profile Vector Extension allowed.
    IntFloat,
    Unknown(u8),
}

impl MveArch {
    /// The raw attribute byte this value encodes.
    pub open spec fn spec_value(self) -> u8 {
        match self {
            Self::No => 0,
            Self::Int => 1,
            Self::IntFloat => 2,
            Self::Unknown(value) => value,
        }
    }

    pub fn value(self) -> (r: u8)
        ensures
            r == self.spec_value(),
    {
        match self {
            Self::No => 0,
            Self::Int => 1,
            Self::IntFloat => 2,
            Self::Unknown(value) => value,
        }
    }

    /// The value a raw attribute byte decodes to; a byte outside the
    /// table keeps the raw byte under the unrecognized arm.
    pub open spec fn spec_from_value(value: u8) -> MveArch {
        if value == 0 {
            Self::No
        } else if value == 1 {
            Self::Int
        } else if value == 2 {
            Self::IntFloat
        } else {
            Self::Unknown(value)
        }
    }

    pub fn from_value(value: u8) -> (r: MveArch)
        ensures
            r == Self::spec_from_value(value),
    {
        if value == 0 {
            Self::No
        } else if value == 1 {
            Self::Int
        } else if value == 2 {
            Self::IntFloat
        } else {
            Self::Unknown(value)
        }
    }
}

#[derive(Clone, Copy, PartialEq, Eq, Debug, Hash, Structural)]
pub enum FpHpExt {
    /// Half-precision allowed if they exist in the instructions sets indicated by `FpArch` and `AsimdArch`.
    IfExists,
    /// Half-precision allowed as an extension to VFPv3 and ASIMDv1, in addition to those indicated by `FpArch` and
    /// `AsimdArch`.
    VfpV3,
    /// Half-precision allowed as an extension to ARMv8.2-A and ASIMD, in addition to those indicated by `FpArch` and
    /// `AsimdArch`.
    ArmV8_2A,
    Unknown(u8),
}

impl FpHpExt {
    /// The raw attribute byte this value encodes.
    pub open spec fn spec_value(self) -> u8 {
        match self {
            Self::IfExists => 0,
            Self::VfpV3 => 1,
            Self::ArmV8_2A => 2,
            Self::Unknown(value) => value,
        }
    }

    pub fn value(self) -> (r: u8)
        ensures
            r == self.spec_value(),
    {
        match self {
            Self::IfExists => 0,
            Self::VfpV3 => 1,
            Self::ArmV8_2A => 2,
            Self::Unknown(value) => value,
        }
    }

    /// The value a raw attribute byte decodes to; a byte outside the
    /// table keeps the raw byte under the unrecognized arm.
    pub open spec fn spec_from_value(value: u8) -> FpHpExt {
        if value == 0 {
            Self::IfExists
        } else if value == 1 {
            Self::VfpV3
        } else if value == 2 {
            Self::ArmV8_2A
        } else {
            Self::Unknown(value)
        }
    }

    pub fn from_value(value: u8) -> (r: FpHpExt)
        ensures
            r == Self::spec_from_value(value),
    {
        if value == 0 {
            Self::IfExists
        } else if value == 1 {
            Self::VfpV3
        } else if value == 2 {
            Self::ArmV8_2A
        } else {
            Self::Unknown(value)
        }
    }
}

#[derive(Clone, Copy, PartialEq, Eq, Debug, Hash, Structural)]
pub enum CpuUnalignedAccess {
    /// Not allowed.
    No,
    /// v6-style unaligned data accesses allowed.
    Allowed,
    Unknown(u8),
}

impl CpuUnalignedAccess {
    /// The raw attribute byte this value encodes.
    pub open spec fn spec_value(self) -> u8 {
        match self {
            Self::No => 0,
            Self::Allowed => 1,
            Self::Unknown(value) => value,
        }
    }

    pub fn value(self) -> (r: u8)
        ensures
            r == self.spec_value(),
    {
        match self {
            Self::No => 0,
            Self::Allowed => 1,
            Self::Unknown(value) => value,
        }
    }

    /// The value a raw attribute byte decodes to; a byte outside the
    /// table keeps the raw byte under the unrecognized arm.
    pub open spec fn spec_from_value(value: u8) -> CpuUnalignedAccess {
        if value == 0 {
            Self::No
        } else if value == 1 {
            Self::Allowed
        } else {
            Self::Unknown(value)
        }
    }

    pub fn from_value(value: u8) -> (r: CpuUnalignedAccess)
        ensures
            r == Self::spec_from_value(value),
    {
        if value == 0 {
            Self::No
        } else if value == 1 {
            Self::Allowed
        } else {
            Self::Unknown(value)
        }
    }
}

#[derive(Clone, Copy, PartialEq, Eq, Debug, Hash, Structural)]
pub enum T2EeUse {
    /// Not allowed.
    No,
    /// The T2EE extension is allowed.
    Allowed,
    Unknown(u8),
}

impl T2EeUse {
    /// The raw attribute byte this value encodes.
    pub open spec fn spec_value(self) -> u8 {
        match self {
            Self::No => 0,
            Self::Allowed => 1,
            Self::Unknown(value) => value,
        }
    }

    pub fn value(self) -> (r: u8)
        ensures
            r == self.spec_value(),
    {
        match self {
            Self::No => 0,
            Self::Allowed => 1,
            Self::Unknown(value) => value,
        }
    }

    /// The value a raw attribute byte decodes to; a byte outside the
    /// table keeps the raw byte under the unrecognized arm.
    pub open spec fn spec_from_value(value: u8) -> T2EeUse {
        if value == 0 {
            Self::No
        } else if value == 1 {
            Self::Allowed
        } else {
            Self::Unknown(value)
        }
    }

    pub fn from_value(value: u8) -> (r: T2EeUse)
        ensures
            r == Self::spec_from_value(value),
    {
        if value == 0 {
            Self::No
        } else if value == 1 {
            Self::Allowed
        } else {
            Self::Unknown(value)
        }
    }
}

#[derive(Clone, Copy, PartialEq, Eq, Debug, Hash, Structural)]
pub enum VirtualUse {
    /// Not allowed.
    No,
    /// The TrustZone extension is allowed.
    TrustZone,
    /// Virtualization extensions (HVC, ERET) are allowed.
    VExts,
    /// The TrustZone and virtualization extensions are allowed.
    TrustZoneVExts,
    Unknown(u8),
}

impl VirtualUse {
    /// The raw attribute byte this value encodes.
    pub open spec fn spec_value(self) -> u8 {
        match self {
            Self::No => 0,
            Self::TrustZone => 1,
            Self::VExts => 2,
            Self::TrustZoneVExts => 3,
            Self::Unknown(value) => value,
        }
    }

    pub fn value(self) -> (r: u8)
        ensures
            r == self.spec_value(),
    {
        match self {
            Self::No => 0,
            Self::TrustZone => 1,
            Self::VExts => 2,
            Self::TrustZoneVExts => 3,
            Self::Unknown(value) => value,
        }
    }

    /// The value a raw attribute byte decodes to; a byte outside the
    /// table keeps the raw byte under the unrecognized arm.
    pub open spec fn spec_from_value(value: u8) -> VirtualUse {
        if value == 0 {
            Self::No
        } else if value == 1 {
            Self::TrustZone
        } else if value == 2 {
            Self::VExts
        } else if value == 3 {
            Self::TrustZoneVExts
        } else {
            Self::Unknown(value)
        }
    }

    pub fn from_value(value: u8) -> (r: VirtualUse)
        ensures
            r == Self::spec_from_value(value),
    {
        if value == 0 {
            Self::No
        } else if value == 1 {
            Self::TrustZone
        } else if value == 2 {
            Self::VExts
        } else if value == 3 {
            Self::TrustZoneVExts
        } else {
            Self::Unknown(value)
        }
    }
}

#[derive(Clone, Copy, PartialEq, Eq, Debug, Hash, Structural)]
pub enum MpExtUse {
    // Not allowed.
    No,
    // Use of the ARMv7 MP extension is allowed.
    Allowed,
    Unknown(u8),
}

impl MpExtUse {
    /// The raw attribute byte this value encodes.
    pub open spec fn spec_value(self) -> u8 {
        match self {
            Self::No => 0,
            Self::Allowed => 1,
            Self::Unknown(value) => value,
        }
    }

    pub fn value(self) -> (r: u8)
        ensures
            r == self.spec_value(),
    {
        match self {
            Self::No => 0,
            Self::Allowed => 1,
            Self::Unknown(value) => value,
        }
    }

    /// The value a raw attribute byte decodes to; a byte outside the
    /// table keeps the raw byte under the unrecognized arm.
    pub open spec fn spec_from_value(value: u8) -> MpExtUse {
        if value == 0 {
            Self::No
        } else if value == 1 {
            Self::Allowed
        } else {
            Self::Unknown(value)
        }
    }

    pub fn from_value(value: u8) -> (r: MpExtUse)
        ensures
            r == Self::spec_from_value(value),
    {
        if value == 0 {
            Self::No
        } else if value == 1 {
            Self::Allowed
        } else {
            Self::Unknown(value)
        }
    }
}

#[derive(Clone, Copy, PartialEq, Eq, Debug, Hash, Structural)]
pub enum DivUse {
    /// Divide instructions may be used if they exist in the architecture, as indicated by `CpuArch` and `CpuArchProfile`.
    IfExists,
    /// Not allowed.
    No,
    /// Allowed.
    Allowed,
    Unknown(u8),
}

impl DivUse {
    /// The raw attribute byte this value encodes.
    pub open spec fn spec_value(self) -> u8 {
        match self {
            Self::IfExists => 0,
            Self::No => 1,
            Self::Allowed => 2,
            Self::Unknown(value) => value,
        }
    }

    pub fn value(self) -> (r: u8)
        ensures
            r == self.spec_value(),
    {
        match self {
            Self::IfExists => 0,
            Self::No => 1,
            Self::Allowed => 2,
            Self::Unknown(value) => value,
        }
    }

    /// The value a raw attribute byte decodes to; a byte outside the
    /// table keeps the raw byte under the unrecognized arm.
    pub open spec fn spec_from_value(value: u8) -> DivUse {
        if value == 0 {
            Self::IfExists
        } else if value == 1 {
            Self::No
        } else if value == 2 {
            Self::Allowed
        } else {
            Self::Unknown(value)
        }
    }

    pub fn from_value(value: u8) -> (r: DivUse)
        ensures
            r == Self::spec_from_value(value),
    {
        if value == 0 {
            Self::IfExists
        } else if value == 1 {
            Self::No
        } else if value == 2 {
            Self::Allowed
        } else {
            Self::Unknown(value)
        }
    }
}

#[derive(Clone, Copy, PartialEq, Eq, Debug, Hash, Structural)]
pub enum DspExt {
    /// DSP instructions may be used if they exist in the architecture, as indicated by `CpuArch`.
    IfExists,
    /// DSP instructions are allowed.
    Allowed,
    Unknown(u8),
}

impl DspExt {
    /// The raw attribute byte this value encodes.
    pub open spec fn spec_value(self) -> u8 {
        match self {
            Self::IfExists => 0,
            Self::Allowed => 1,
            Self::Unknown(value) => value,
        }
    }

    pub fn value(self) -> (r: u8)
        ensures
            r == self.spec_value(),
    {
        match self {
            Self::IfExists => 0,
            Self::Allowed => 1,
            Self::Unknown(value) => value,
        }
    }

    /// The value a raw attribute byte decodes to; a byte outside the
    /// table keeps the raw byte under the unrecognized arm.
    pub open spec fn spec_from_value(value: u8) -> DspExt {
        if value == 0 {
            Self::IfExists
        } else if value == 1 {
            Self::Allowed
        } else {
            Self::Unknown(value)
        }
    }

    pub fn from_value(value: u8) -> (r: DspExt)
        ensures
            r == Self::spec_from_value(value),
    {
        if value == 0 {
            Self::IfExists
        } else if value == 1 {
            Self::Allowed
        } else {
            Self::Unknown(value)
        }
    }
}

#[derive(Clone, Copy, PartialEq, Eq, Debug, Hash, Structural)]
pub enum PacExt {
    /// Not allowed.
    No,
    /// PAC/AUT instructions are allowed in the NOP space.
    OnlyNopSpace,
    /// PAC/AUT instructions are allowed.
    Allowed,
    Unknown(u8),
}

impl PacExt {
    /// The raw attribute byte this value encodes.
    pub open spec fn spec_value(self) -> u8 {
        match self {
            Self::No => 0,
            Self::OnlyNopSpace => 1,
            Self::Allowed => 2,
            Self::Unknown(value) => value,
        }
    }

    pub fn value(self) -> (r: u8)
        ensures
            r == self.spec_value(),
    {
        match self {
            Self::No => 0,
            Self::OnlyNopSpace => 1,
            Self::Allowed => 2,
            Self::Unknown(value) => value,
        }
    }

    /// The value a raw attribute byte decodes to; a byte outside the
    /// table keeps the raw byte under the unrecognized arm.
    pub open spec fn spec_from_value(value: u8) -> PacExt {
        if value == 0 {
            Self::No
        } else if value == 1 {
            Self::OnlyNopSpace
        } else if value == 2 {
            Self::Allowed
        } else {
            Self::Unknown(value)
        }
    }

    pub fn from_value(value: u8) -> (r: PacExt)
        ensures
            r == Self::spec_from_value(value),
    {
        if value == 0 {
            Self::No
        } else if value == 1 {
            Self::OnlyNopSpace
        } else if value == 2 {
            Self::Allowed
        } else {
            Self::Unknown(value)
        }
    }
}

#[derive(Clone, Copy, PartialEq, Eq, Debug, Hash, Structural)]
pub enum BtiExt {
    /// Not allowed.
    No,
    /// BTI instructions are allowed in the NOP space.
    OnlyNopSpace,
    /// BTI instructions are allowed.
    Allowed,
    Unknown(u8),
}

impl BtiExt {
    /// The raw attribute byte this value encodes.
    pub open spec fn spec_value(self) -> u8 {
        match self {
            Self::No => 0,
            Self::OnlyNopSpace => 1,
            Self::Allowed => 2,
            Self::Unknown(value) => value,
        }
    }

    pub fn value(self) -> (r: u8)
        ensures
            r == self.spec_value(),
    {
        match self {
            Self::No => 0,
            Self::OnlyNopSpace => 1,
            Self::Allowed => 2,
            Self::Unknown(value) => value,
        }
    }

    /// The value a raw attribute byte decodes to; a byte outside the
    /// table keeps the raw byte under the unrecognized arm.
    pub open spec fn spec_from_value(value: u8) -> BtiExt {
        if value == 0 {
            Self::No
        } else if value == 1 {
            Self::OnlyNopSpace
        } else if value == 2 {
            Self::Allowed
        } else {
            Self::Unknown(value)
        }
    }

    pub fn from_value(value: u8) -> (r: BtiExt)
        ensures
            r == Self::spec_from_value(value),
    {
        if value == 0 {
            Self::No
        } else if value == 1 {
            Self::OnlyNopSpace
        } else if value == 2 {
            Self::Allowed
        } else {
            Self::Unknown(value)
        }
    }
}

#[derive(Clone, Copy, PartialEq, Eq, Debug, Hash, Structural)]
pub enum PcsConfig {
    /// No standard configuration used.
    No,
    BarePlatform,
    LinuxApplication,
    LinuxDso,
    PalmOs2004,
    /// Reserved for future Palm OS configuration.
    PalmOsFuture,
    SymbianOs2004,
    /// Reserved for future Symbian OS configuration.
    SymbianOsFuture,
    Unknown(u8),
}

impl PcsConfig {
    /// The raw attribute byte this value encodes.
    pub open spec fn spec_value(self) -> u8 {
        match self {
            Self::No => 0,
            Self::BarePlatform => 1,
            Self::LinuxApplication => 2,
            Self::LinuxDso => 3,
            Self::PalmOs2004 => 4,
            Self::PalmOsFuture => 5,
            Self::SymbianOs2004 => 6,
            Self::SymbianOsFuture => 7,
            Self::Unknown(value) => value,
        }
    }

    pub fn value(self) -> (r: u8)
        ensures
            r == self.spec_value(),
    {
        match self {
            Self::No => 0,
            Self::BarePlatform => 1,
            Self::LinuxApplication => 2,
            Self::LinuxDso => 3,
            Self::PalmOs2004 => 4,
            Self::PalmOsFuture => 5,
            Self::SymbianOs2004 => 6,
            Self::SymbianOsFuture => 7,
            Self::Unknown(value) => value,
        }
    }

    /// The value a raw attribute byte decodes to; a byte outside the
    /// table keeps the raw byte under the unrecognized arm.
    pub open spec fn spec_from_value(value: u8) -> PcsConfig {
        if value == 0 {
            Self::No
        } else if value == 1 {
            Self::BarePlatform
        } else if value == 2 {
            Self::LinuxApplication
        } else if value == 3 {
            Self::LinuxDso
        } else if value == 4 {
            Self::PalmOs2004
        } else if value == 5 {
            Self::PalmOsFuture
        } else if value == 6 {
            Self::SymbianOs2004
        } else if value == 7 {
            Self::SymbianOsFuture
        } else {
            Self::Unknown(value)
        }
    }

    pub fn from_value(value: u8) -> (r: PcsConfig)
        ensures
            r == Self::spec_from_value(value),
    {
        if value == 0 {
            Self::No
        } else if value == 1 {
            Self::BarePlatform
        } else if value == 2 {
            Self::LinuxApplication
        } else if value == 3 {
            Self::LinuxDso
        } else if value == 4 {
            Self::PalmOs2004
        } else if value == 5 {
            Self::PalmOsFuture
        } else if value == 6 {
            Self::SymbianOs2004
        } else if value == 7 {
            Self::SymbianOsFuture
        } else {
            Self::Unknown(value)
        }
    }
}

#[derive(Clone, Copy, PartialEq, Eq, Debug, Hash, Structural)]
pub enum AbiPcsR9Use {
    /// R9 used as V6, a callee-saved register.
    V6,
    /// R9 used as SB, a global Static Base register.
    Sb,
    /// R9 used as a Thread Local Storage (TLS) pointer.
    TlsPointer,
    /// R9 not used.
    No,
    Unknown(u8),
}

impl AbiPcsR9Use {
    /// The raw attribute byte this value encodes.
    pub open spec fn spec_value(self) -> u8 {
        match self {
            Self::V6 => 0,
            Self::Sb => 1,
            Self::TlsPointer => 2,
            Self::No => 3,
            Self::Unknown(value) => value,
        }
    }

    pub fn value(self) -> (r: u8)
        ensures
            r == self.spec_value(),
    {
        match self {
            Self::V6 => 0,
            Self::Sb => 1,
            Self::TlsPointer => 2,
            Self::No => 3,
            Self::Unknown(value) => value,
        }
    }

    /// The value a raw attribute byte decodes to; a byte outside the
    /// table keeps the raw byte under the unrecognized arm.
    pub open spec fn spec_from_value(value: u8) -> AbiPcsR9Use {
        if value == 0 {
            Self::V6
        } else if value == 1 {
            Self::Sb
        } else if value == 2 {
            Self::TlsPointer
        } else if value == 3 {
            Self::No
        } else {
            Self::Unknown(value)
        }
    }

    pub fn from_value(value: u8) -> (r: AbiPcsR9Use)
        ensures
            r == Self::spec_from_value(value),
    {
        if value == 0 {
            Self::V6
        } else if value == 1 {
            Self::Sb
        } else if value == 2 {
            Self::TlsPointer
        } else if value == 3 {
            Self::No
        } else {
            Self::Unknown(value)
        }
    }
}

#[derive(Clone, Copy, PartialEq, Eq, Debug, Hash, Structural)]
pub enum AbiPcsRwData {
    /// RW static data is allowed to be addressed absolutely.
    Abs,
    /// RW static data is allowed to be addressed PC-relative.
    PcRel,
    /// RW static data is allowed to be addressed SB-relative.
    SbRel,
    /// Not allowed.
    No,
    Unknown(u8),
}

impl AbiPcsRwData {
    /// The raw attribute byte this value encodes.
    pub open spec fn spec_value(self) -> u8 {
        match self {
            Self::Abs => 0,
            Self::PcRel => 1,
            Self::SbRel => 2,
            Self::No => 3,
            Self::Unknown(value) => value,
        }
    }

    pub fn value(self) -> (r: u8)
        ensures
            r == self.spec_value(),
    {
        match self {
            Self::Abs => 0,
            Self::PcRel => 1,
            Self::SbRel => 2,
            Self::No => 3,
            Self::Unknown(value) => value,
        }
    }

    /// The value a raw attribute byte decodes to; a byte outside the
    /// table keeps the raw byte under the unrecognized arm.
    pub open spec fn spec_from_value(value: u8) -> AbiPcsRwData {
        if value == 0 {
            Self::Abs
        } else if value == 1 {
            Self::PcRel
        } else if value == 2 {
            Self::SbRel
        } else if value == 3 {
            Self::No
        } else {
            Self::Unknown(value)
        }
    }

    pub fn from_value(value: u8) -> (r: AbiPcsRwData)
        ensures
            r == Self::spec_from_value(value),
    {
        if value == 0 {
            Self::Abs
        } else if value == 1 {
            Self::PcRel
        } else if value == 2 {
            Self::SbRel
        } else if value == 3 {
            Self::No
        } else {
            Self::Unknown(value)
        }
    }
}

#[derive(Clone, Copy, PartialEq, Eq, Debug, Hash, Structural)]
pub enum AbiPcsRoData {
    /// RO static data is allowed to be addressed absolutely.
    Abs,
    /// RO static data is allowed to be addressed PC-relative.
    PcRel,
    /// Not allowed.
    No,
    Unknown(u8),
}

impl AbiPcsRoData {
    /// The raw attribute byte this value encodes.
    pub open spec fn spec_value(self) -> u8 {
        match self {
            Self::Abs => 0,
            Self::PcRel => 1,
            Self::No => 2,
            Self::Unknown(value) => value,
        }
    }

    pub fn value(self) -> (r: u8)
        ensures
            r == self.spec_value(),
    {
        match self {
            Self::Abs => 0,
            Self::PcRel => 1,
            Self::No => 2,
            Self::Unknown(value) => value,
        }
    }

    /// The value a raw attribute byte decodes to; a byte outside the
    /// table keeps the raw byte under the unrecognized arm.
    pub open spec fn spec_from_value(value: u8) -> AbiPcsRoData {
        if value == 0 {
            Self::Abs
        } else if value == 1 {
            Self::PcRel
        } else if value == 2 {
            Self::No
        } else {
            Self::Unknown(value)
        }
    }

    pub fn from_value(value: u8) -> (r: AbiPcsRoData)
        ensures
            r == Self::spec_from_value(value),
    {
        if value == 0 {
            Self::Abs
        } else if value == 1 {
            Self::PcRel
        } else if value == 2 {
            Self::No
        } else {
            Self::Unknown(value)
        }
    }
}

#[derive(Clone, Copy, PartialEq, Eq, Debug, Hash, Structural)]
pub enum AbiPcsGotUse {
    /// Not allowed.
    No,
    /// Imported data is allowed to be addressed directly.
    Direct,
    /// Imported data is allowed to be addressed indirectly.
    Indirect,
    Unknown(u8),
}

impl AbiPcsGotUse {
    /// The raw attribute byte this value encodes.
    pub open spec fn spec_value(self) -> u8 {
        match self {
            Self::No => 0,
            Self::Direct => 1,
            Self::Indirect => 2,
            Self::Unknown(value) => value,
        }
    }

    pub fn value(self) -> (r: u8)
        ensures
            r == self.spec_value(),
    {
        match self {
            Self::No => 0,
            Self::Direct => 1,
            Self::Indirect => 2,
            Self::Unknown(value) => value,
        }
    }

    /// The value a raw attribute byte decodes to; a byte outside the
    /// table keeps the raw byte under the unrecognized arm.
    pub open spec fn spec_from_value(value: u8) -> AbiPcsGotUse {
        if value == 0 {
            Self::No
        } else if value == 1 {
            Self::Direct
        } else if value == 2 {
            Self::Indirect
        } else {
            Self::Unknown(value)
        }
    }

    pub fn from_value(value: u8) -> (r: AbiPcsGotUse)
        ensures
            r == Self::spec_from_value(value),
    {
        if value == 0 {
            Self::No
        } else if value == 1 {
            Self::Direct
        } else if value == 2 {
            Self::Indirect
        } else {
            Self::Unknown(value)
        }
    }
}

#[derive(Clone, Copy, PartialEq, Eq, Debug, Hash, Structural)]
pub enum AbiPcsWcharT {
    /// Not allowed.
    No,
    /// wchar_t of size 2 allowed.
    Size2,
    /// wchar_T of size 4 allowed.
    Size4,
    Unknown(u8),
}

impl AbiPcsWcharT {
    /// The raw attribute byte this value encodes.
    pub open spec fn spec_value(self) -> u8 {
        match self {
            Self::No => 0,
            Self::Size2 => 2,
            Self::Size4 => 4,
            Self::Unknown(value) => value,
        }
    }

    pub fn value(self) -> (r: u8)
        ensures
            r == self.spec_value(),
    {
        match self {
            Self::No => 0,
            Self::Size2 => 2,
            Self::Size4 => 4,
            Self::Unknown(value) => value,
        }
    }

    /// The value a raw attribute byte decodes to; a byte outside the
    /// table keeps the raw byte under the unrecognized arm.
    pub open spec fn spec_from_value(value: u8) -> AbiPcsWcharT {
        if value == 0 {
            Self::No
        } else if value == 2 {
            Self::Size2
        } else if value == 4 {
            Self::Size4
        } else {
            Self::Unknown(value)
        }
    }

    pub fn from_value(value: u8) -> (r: AbiPcsWcharT)
        ensures
            r == Self::spec_from_value(value),
    {
        if value == 0 {
            Self::No
        } else if value == 2 {
            Self::Size2
        } else if value == 4 {
            Self::Size4
        } else {
            Self::Unknown(value)
        }
    }
}

#[derive(Clone, Copy, PartialEq, Eq, Debug, Hash, Structural)]
pub enum AbiEnumSize {
    /// Not allowed.
    No,
    /// Enums are as small as possible while big enough to contain all values.
    SmallestSize,
    /// Enums are always 32-bits.
    Always32,
    /// Enums visible across an ABI-complying interface are 32-bits.
    Visible32,
    Unknown(u8),
}

impl AbiEnumSize {
    /// The raw attribute byte this value encodes.
    pub open spec fn spec_value(self) -> u8 {
        match self {
            Self::No => 0,
            Self::SmallestSize => 1,
            Self::Always32 => 2,
            Self::Visible32 => 3,
            Self::Unknown(value) => value,
        }
    }

    pub fn value(self) -> (r: u8)
        ensures
            r == self.spec_value(),
    {
        match self {
            Self::No => 0,
            Self::SmallestSize => 1,
            Self::Always32 => 2,
            Self::Visible32 => 3,
            Self::Unknown(value) => value,
        }
    }

    /// The value a raw attribute byte decodes to; a byte outside the
    /// table keeps the raw byte under the unrecognized arm.
    pub open spec fn spec_from_value(value: u8) -> AbiEnumSize {
        if value == 0 {
            Self::No
        } else if value == 1 {
            Self::SmallestSize
        } else if value == 2 {
            Self::Always32
        } else if value == 3 {
            Self::Visible32
        } else {
            Self::Unknown(value)
        }
    }

    pub fn from_value(value: u8) -> (r: AbiEnumSize)
        ensures
            r == Self::spec_from_value(value),
    {
        if value == 0 {
            Self::No
        } else if value == 1 {
            Self::SmallestSize
        } else if value == 2 {
            Self::Always32
        } else if value == 3 {
            Self::Visible32
        } else {
            Self::Unknown(value)
        }
    }
}

#[derive(Clone, Copy, PartialEq, Eq, Debug, Hash, Structural)]
pub enum AbiAlignNeeded {
    /// Code does not depend on alignment of 8-byte data or data with extended alignment (> 8-byte).
    No,
    /// Code depends on 8-byte alignment of 8-byte data.
    Align8,
    /// Code depends on 4-byte alignment of 8-byte data.
    Align4,
    /// Reserved.
    Reserved,
    /// Code depends on 8-byte alignment of 8-byte data and alignment of data having up to 2n-byte extended alignment, where n
    /// is in \[4..12\].
    Align2n(u8),
    Unknown(u8),
}

impl AbiAlignNeeded {
    /// The raw attribute byte this value encodes.
    pub open spec fn spec_value(self) -> u8 {
        match self {
            Self::No => 0,
            Self::Align8 => 1,
            Self::Align4 => 2,
            Self::Reserved => 3,
            Self::Align2n(value) => value,
            Self::Unknown(value) => value,
        }
    }

    pub fn value(self) -> (r: u8)
        ensures
            r == self.spec_value(),
    {
        match self {
            Self::No => 0,
            Self::Align8 => 1,
            Self::Align4 => 2,
            Self::Reserved => 3,
            Self::Align2n(value) => value,
            Self::Unknown(value) => value,
        }
    }

    /// The value a raw attribute byte decodes to; a byte outside the
    /// table keeps the raw byte under the unrecognized arm.
    pub open spec fn spec_from_value(value: u8) -> AbiAlignNeeded {
        if value == 0 {
            Self::No
        } else if value == 1 {
            Self::Align8
        } else if value == 2 {
            Self::Align4
        } else if value == 3 {
            Self::Reserved
        } else if 4 <= value && value <= 12 {
            Self::Align2n(value)
        } else {
            Self::Unknown(value)
        }
    }

    pub fn from_value(value: u8) -> (r: AbiAlignNeeded)
        ensures
            r == Self::spec_from_value(value),
    {
        if value == 0 {
            Self::No
        } else if value == 1 {
            Self::Align8
        } else if value == 2 {
            Self::Align4
        } else if value == 3 {
            Self::Reserved
        } else if 4 <= value && value <= 12 {
            Self::Align2n(value)
        } else {
            Self::Unknown(value)
        }
    }
}

#[derive(Clone, Copy, PartialEq, Eq, Debug, Hash, Structural)]
pub enum AbiAlignPreserved {
    /// Code does not preserve alignment of 8-byte data or data with extended alignment (> 8-byte).
    No,
    /// Code preserves 8-byte alignment of 8-byte data.
    Align8,
    /// Code preserves 4-byte alignment of 8-byte data.
    Align4,
    /// Reserved.
    Reserved,
    /// Code preserves 8-byte alignment of 8-byte data and alignmentt of data having up to 2n-byte extended alignment, where n
    /// is in \[4..12\].
    Align2n(u8),
    Unknown(u8),
}

impl AbiAlignPreserved {
    /// The raw attribute byte this value encodes.
    pub open spec fn spec_value(self) -> u8 {
        match self {
            Self::No => 0,
            Self::Align8 => 1,
            Self::Align4 => 2,
            Self::Reserved => 3,
            Self::Align2n(value) => value,
            Self::Unknown(value) => value,
        }
    }

    pub fn value(self) -> (r: u8)
        ensures
            r == self.spec_value(),
    {
        match self {
            Self::No => 0,
            Self::Align8 => 1,
            Self::Align4 => 2,
            Self::Reserved => 3,
            Self::Align2n(value) => value,
            Self::Unknown(value) => value,
        }
    }

    /// The value a raw attribute byte decodes to; a byte outside the
    /// table keeps the raw byte under the unrecognized arm.
    pub open spec fn spec_from_value(value: u8) -> AbiAlignPreserved {
        if value == 0 {
            Self::No
        } else if value == 1 {
            Self::Align8
        } else if value == 2 {
            Self::Align4
        } else if value == 3 {
            Self::Reserved
        } else if 4 <= value && value <= 12 {
            Self::Align2n(value)
        } else {
            Self::Unknown(value)
        }
    }

    pub fn from_value(value: u8) -> (r: AbiAlignPreserved)
        ensures
            r == Self::spec_from_value(value),
    {
        if value == 0 {
            Self::No
        } else if value == 1 {
            Self::Align8
        } else if value == 2 {
            Self::Align4
        } else if value == 3 {
            Self::Reserved
        } else if 4 <= value && value <= 12 {
            Self::Align2n(value)
        } else {
            Self::Unknown(value)
        }
    }
}

#[derive(Clone, Copy, PartialEq, Eq, Debug, Hash, Structural)]
pub enum AbiFpRounding {
    /// The code uses IEEE-754 round-to-nearest rounding mode.
    Nearest,
    /// The code decides IEEE-754 rounding modea at run-time.
    RunTime,
    Unknown(u8),
}

impl AbiFpRounding {
    /// The raw attribute byte this value encodes.
    pub open spec fn spec_value(self) -> u8 {
        match self {
            Self::Nearest => 0,
            Self::RunTime => 1,
            Self::Unknown(value) => value,
        }
    }

    pub fn value(self) -> (r: u8)
        ensures
            r == self.spec_value(),
    {
        match self {
            Self::Nearest => 0,
            Self::RunTime => 1,
            Self::Unknown(value) => value,
        }
    }

    /// The value a raw attribute byte decodes to; a byte outside the
    /// table keeps the raw byte under the unrecognized arm.
    pub open spec fn spec_from_value(value: u8) -> AbiFpRounding {
        if value == 0 {
            Self::Nearest
        } else if value == 1 {
            Self::RunTime
        } else {
            Self::Unknown(value)
        }
    }

    pub fn from_value(value: u8) -> (r: AbiFpRounding)
        ensures
            r == Self::spec_from_value(value),
    {
        if value == 0 {
            Self::Nearest
        } else if value == 1 {
            Self::RunTime
        } else {
            Self::Unknown(value)
        }
    }
}

#[derive(Clone, Copy, PartialEq, Eq, Debug, Hash, Structural)]
pub enum AbiFpDenormal {
    /// Denormal numbers might be flushed to (+) zero.
    DontCare,
    /// The code depends on IEEE-754 denormal numbers.
    Ieee754,
    /// The code depends on the sign being preserved when flushed to zero.
    PreserveSign,
    Unknown(u8),
}

impl AbiFpDenormal {
    /// The raw attribute byte this value encodes.
    pub open spec fn spec_value(self) -> u8 {
        match self {
            Self::DontCare => 0,
            Self::Ieee754 => 1,
            Self::PreserveSign => 2,
            Self::Unknown(value) => value,
        }
    }

    pub fn value(self) -> (r: u8)
        ensures
            r == self.spec_value(),
    {
        match self {
            Self::DontCare => 0,
            Self::Ieee754 => 1,
            Self::PreserveSign => 2,
            Self::Unknown(value) => value,
        }
    }

    /// The value a raw attribute byte decodes to; a byte outside the
    /// table keeps the raw byte under the unrecognized arm.
    pub open spec fn spec_from_value(value: u8) -> AbiFpDenormal {
        if value == 0 {
            Self::DontCare
        } else if value == 1 {
            Self::Ieee754
        } else if value == 2 {
            Self::PreserveSign
        } else {
            Self::Unknown(value)
        }
    }

    pub fn from_value(value: u8) -> (r: AbiFpDenormal)
        ensures
            r == Self::spec_from_value(value),
    {
        if value == 0 {
            Self::DontCare
        } else if value == 1 {
            Self::Ieee754
        } else if value == 2 {
            Self::PreserveSign
        } else {
            Self::Unknown(value)
        }
    }
}

#[derive(Clone, Copy, PartialEq, Eq, Debug, Hash, Structural)]
pub enum AbiFpExceptions {
    /// The code should not check for inexact results.
    No,
    /// The code checks for the IEEE-754 inexact exception.
    CheckInexact,
    Unknown(u8),
}

impl AbiFpExceptions {
    /// The raw attribute byte this value encodes.
    pub open spec fn spec_value(self) -> u8 {
        match self {
            Self::No => 0,
            Self::CheckInexact => 1,
            Self::Unknown(value) => value,
        }
    }

    pub fn value(self) -> (r: u8)
        ensures
            r == self.spec_value(),
    {
        match self {
            Self::No => 0,
            Self::CheckInexact => 1,
            Self::Unknown(value) => value,
        }
    }

    /// The value a raw attribute byte decodes to; a byte outside the
    /// table keeps the raw byte under the unrecognized arm.
    pub open spec fn spec_from_value(value: u8) -> AbiFpExceptions {
        if value == 0 {
            Self::No
        } else if value == 1 {
            Self::CheckInexact
        } else {
            Self::Unknown(value)
        }
    }

    pub fn from_value(value: u8) -> (r: AbiFpExceptions)
        ensures
            r == Self::spec_from_value(value),
    {
        if value == 0 {
            Self::No
        } else if value == 1 {
            Self::CheckInexact
        } else {
            Self::Unknown(value)
        }
    }
}

#[derive(Clone, Copy, PartialEq, Eq, Debug, Hash, Structural)]
pub enum AbiFpUserExceptions {
    /// The code should not enable or use IEEE-754 user exceptions.
    No,
    /// The code uses IEEE-754 user exceptions.
    Enabled,
    Unknown(u8),
}

impl AbiFpUserExceptions {
    /// The raw attribute byte this value encodes.
    pub open spec fn spec_value(self) -> u8 {
        match self {
            Self::No => 0,
            Self::Enabled => 1,
            Self::Unknown(value) => value,
        }
    }

    pub fn value(self) -> (r: u8)
        ensures
            r == self.spec_value(),
    {
        match self {
            Self::No => 0,
            Self::Enabled => 1,
            Self::Unknown(value) => value,
        }
    }

    /// The value a raw attribute byte decodes to; a byte outside the
    /// table keeps the raw byte under the unrecognized arm.
    pub open spec fn spec_from_value(value: u8) -> AbiFpUserExceptions {
        if value == 0 {
            Self::No
        } else if value == 1 {
            Self::Enabled
        } else {
            Self::Unknown(value)
        }
    }

    pub fn from_value(value: u8) -> (r: AbiFpUserExceptions)
        ensures
            r == Self::spec_from_value(value),
    {
        if value == 0 {
            Self::No
        } else if value == 1 {
            Self::Enabled
        } else {
            Self::Unknown(value)
        }
    }
}

#[derive(Clone, Copy, PartialEq, Eq, Debug, Hash, Structural)]
pub enum AbiFpNumberModel {
    /// The code does not use floating point numbers.
    No,
    /// The code allows the IEEE-754 normal numbers only.
    Normal,
    /// The code allows normal numbers, infinities, and one quiet NaN.
    InfNaN,
    /// The code allows all float encodings defined by IEEE-754.
    All,
    Unknown(u8),
}

impl AbiFpNumberModel {
    /// The raw attribute byte this value encodes.
    pub open spec fn spec_value(self) -> u8 {
        match self {
            Self::No => 0,
            Self::Normal => 1,
            Self::InfNaN => 2,
            Self::All => 3,
            Self::Unknown(value) => value,
        }
    }

    pub fn value(self) -> (r: u8)
        ensures
            r == self.spec_value(),
    {
        match self {
            Self::No => 0,
            Self::Normal => 1,
            Self::InfNaN => 2,
            Self::All => 3,
            Self::Unknown(value) => value,
        }
    }

    /// The value a raw attribute byte decodes to; a byte outside the
    /// table keeps the raw byte under the unrecognized arm.
    pub open spec fn spec_from_value(value: u8) -> AbiFpNumberModel {
        if value == 0 {
            Self::No
        } else if value == 1 {
            Self::Normal
        } else if value == 2 {
            Self::InfNaN
        } else if value == 3 {
            Self::All
        } else {
            Self::Unknown(value)
        }
    }

    pub fn from_value(value: u8) -> (r: AbiFpNumberModel)
        ensures
            r == Self::spec_from_value(value),
    {
        if value == 0 {
            Self::No
        } else if value == 1 {
            Self::Normal
        } else if value == 2 {
            Self::InfNaN
        } else if value == 3 {
            Self::All
        } else {
            Self::Unknown(value)
        }
    }
}

#[derive(Clone, Copy, PartialEq, Eq, Debug, Hash, Structural)]
pub enum AbiFp16BitFormat {
    /// The code does not use 16-bit floats.
    No,
    /// The code uses the IEEE-754 format for 16-bit floats.
    Ieee754,
    /// The code uses the VFPv3/ASIMD alternative format for 16-bit floats.
    Alternative,
    Unknown(u8),
}

impl AbiFp16BitFormat {
    /// The raw attribute byte this value encodes.
    pub open spec fn spec_value(self) -> u8 {
        match self {
            Self::No => 0,
            Self::Ieee754 => 1,
            Self::Alternative => 2,
            Self::Unknown(value) => value,
        }
    }

    pub fn value(self) -> (r: u8)
        ensures
            r == self.spec_value(),
    {
        match self {
            Self::No => 0,
            Self::Ieee754 => 1,
            Self::Alternative => 2,
            Self::Unknown(value) => value,
        }
    }

    /// The value a raw attribute byte decodes to; a byte outside the
    /// table keeps the raw byte under the unrecognized arm.
    pub open spec fn spec_from_value(value: u8) -> AbiFp16BitFormat {
        if value == 0 {
            Self::No
        } else if value == 1 {
            Self::Ieee754
        } else if value == 2 {
            Self::Alternative
        } else {
            Self::Unknown(value)
        }
    }

    pub fn from_value(value: u8) -> (r: AbiFp16BitFormat)
        ensures
            r == Self::spec_from_value(value),
    {
        if value == 0 {
            Self::No
        } else if value == 1 {
            Self::Ieee754
        } else if value == 2 {
            Self::Alternative
        } else {
            Self::Unknown(value)
        }
    }
}

#[derive(Clone, Copy, PartialEq, Eq, Debug, Hash, Structural)]
pub enum AbiHardFpUse {
    /// Floating point use is implied by `FpArch`.
    Implied,
    /// The code executes on the single-precision variant derived from `FpArch`.
    DerivedSingle,
    /// Reserved.
    Reserved,
    /// Deprecated: Use `Implied` instead.
    ImpliedOld,
    Unknown(u8),
}

impl AbiHardFpUse {
    /// The raw attribute byte this value encodes.
    pub open spec fn spec_value(self) -> u8 {
        match self {
            Self::Implied => 0,
            Self::DerivedSingle => 1,
            Self::Reserved => 2,
            Self::ImpliedOld => 3,
            Self::Unknown(value) => value,
        }
    }

    pub fn value(self) -> (r: u8)
        ensures
            r == self.spec_value(),
    {
        match self {
            Self::Implied => 0,
            Self::DerivedSingle => 1,
            Self::Reserved => 2,
            Self::ImpliedOld => 3,
            Self::Unknown(value) => value,
        }
    }

    /// The value a raw attribute byte decodes to; a byte outside the
    /// table keeps the raw byte under the unrecognized arm.
    pub open spec fn spec_from_value(value: u8) -> AbiHardFpUse {
        if value == 0 {
            Self::Implied
        } else if value == 1 {
            Self::DerivedSingle
        } else if value == 2 {
            Self::Reserved
        } else if value == 3 {
            Self::ImpliedOld
        } else {
            Self::Unknown(value)
        }
    }

    pub fn from_value(value: u8) -> (r: AbiHardFpUse)
        ensures
            r == Self::spec_from_value(value),
    {
        if value == 0 {
            Self::Implied
        } else if value == 1 {
            Self::DerivedSingle
        } else if value == 2 {
            Self::Reserved
        } else if value == 3 {
            Self::ImpliedOld
        } else {
            Self::Unknown(value)
        }
    }
}

#[derive(Clone, Copy, PartialEq, Eq, Debug, Hash, Structural)]
pub enum AbiVfpArgs {
    /// Float parameter/result passing conforms to AAPCS, base variant.
    Base,
    /// Float parameter/result passing conforms to AAPCS, VFP variant.
    Vfp,
    /// Float parameter/result passing conforms to toolchain-specific conventions.
    Toolchain,
    /// Code is compatible with both the base and VFP variants. Non-variadic functions are not allowed to pass float
    /// parameters/results.
    BaseVfp,
    Unknown(u8),
}

impl AbiVfpArgs {
    /// The raw attribute byte this value encodes.
    pub open spec fn spec_value(self) -> u8 {
        match self {
            Self::Base => 0,
            Self::Vfp => 1,
            Self::Toolchain => 2,
            Self::BaseVfp => 3,
            Self::Unknown(value) => value,
        }
    }

    pub fn value(self) -> (r: u8)
        ensures
            r == self.spec_value(),
    {
        match self {
            Self::Base => 0,
            Self::Vfp => 1,
            Self::Toolchain => 2,
            Self::BaseVfp => 3,
            Self::Unknown(value) => value,
        }
    }

    /// The value a raw attribute byte decodes to; a byte outside the
    /// table keeps the raw byte under the unrecognized arm.
    pub open spec fn spec_from_value(value: u8) -> AbiVfpArgs {
        if value == 0 {
            Self::Base
        } else if value == 1 {
            Self::Vfp
        } else if value == 2 {
            Self::Toolchain
        } else if value == 3 {
            Self::BaseVfp
        } else {
            Self::Unknown(value)
        }
    }

    pub fn from_value(value: u8) -> (r: AbiVfpArgs)
        ensures
            r == Self::spec_from_value(value),
    {
        if value == 0 {
            Self::Base
        } else if value == 1 {
            Self::Vfp
        } else if value == 2 {
            Self::Toolchain
        } else if value == 3 {
            Self::BaseVfp
        } else {
            Self::Unknown(value)
        }
    }
}

#[derive(Clone, Copy, PartialEq, Eq, Debug, Hash, Structural)]
pub enum AbiWmmxArgs {
    /// WMMX parameter/result passing conforms to AAPCS, base variant.
    Base,
    /// WMMX parameter/result passing conforms to Intel's WMMX conventions.
    Intel,
    /// WMMX parameter/result passing conforms to toolchain-specific conventions.
    Toolchain,
    Unknown(u8),
}

impl AbiWmmxArgs {
    /// The raw attribute byte this value encodes.
    pub open spec fn spec_value(self) -> u8 {
        match self {
            Self::Base => 0,
            Self::Intel => 1,
            Self::Toolchain => 2,
            Self::Unknown(value) => value,
        }
    }

    pub fn value(self) -> (r: u8)
        ensures
            r == self.spec_value(),
    {
        match self {
            Self::Base => 0,
            Self::Intel => 1,
            Self::Toolchain => 2,
            Self::Unknown(value) => value,
        }
    }

    /// The value a raw attribute byte decodes to; a byte outside the
    /// table keeps the raw byte under the unrecognized arm.
    pub open spec fn spec_from_value(value: u8) -> AbiWmmxArgs {
        if value == 0 {
            Self::Base
        } else if value == 1 {
            Self::Intel
        } else if value == 2 {
            Self::Toolchain
        } else {
            Self::Unknown(value)
        }
    }

    pub fn from_value(value: u8) -> (r: AbiWmmxArgs)
        ensures
            r == Self::spec_from_value(value),
    {
        if value == 0 {
            Self::Base
        } else if value == 1 {
            Self::Intel
        } else if value == 2 {
            Self::Toolchain
        } else {
            Self::Unknown(value)
        }
    }
}

#[derive(Clone, Copy, PartialEq, Eq, Debug, Hash, Structural)]
pub enum FramePointerUse {
    /// The code does not conform to the rules of using the frame pointer.
    No,
    /// The code creates a frame record for all functions that can modify the link register (LR).
    WithRecords,
    /// The codes does not create records, but preserves the frame pointer register (FP) value.
    WithoutRecords,
    Unknown(u8),
}

impl FramePointerUse {
    /// The raw attribute byte this value encodes.
    pub open spec fn spec_value(self) -> u8 {
        match self {
            Self::No => 0,
            Self::WithRecords => 1,
            Self::WithoutRecords => 2,
            Self::Unknown(value) => value,
        }
    }

    pub fn value(self) -> (r: u8)
        ensures
            r == self.spec_value(),
    {
        match self {
            Self::No => 0,
            Self::WithRecords => 1,
            Self::WithoutRecords => 2,
            Self::Unknown(value) => value,
        }
    }

    /// The value a raw attribute byte decodes to; a byte outside the
    /// table keeps the raw byte under the unrecognized arm.
    pub open spec fn spec_from_value(value: u8) -> FramePointerUse {
        if value == 0 {
            Self::No
        } else if value == 1 {
            Self::WithRecords
        } else if value == 2 {
            Self::WithoutRecords
        } else {
            Self::Unknown(value)
        }
    }

    pub fn from_value(value: u8) -> (r: FramePointerUse)
        ensures
            r == Self::spec_from_value(value),
    {
        if value == 0 {
            Self::No
        } else if value == 1 {
            Self::WithRecords
        } else if value == 2 {
            Self::WithoutRecords
        } else {
            Self::Unknown(value)
        }
    }
}

#[derive(Clone, Copy, PartialEq, Eq, Debug, Hash, Structural)]
pub enum BtiUse {
    /// The code is compiled without branch target enforcement.
    No,
    /// The code is compiled with branch target enforcement.
    Enabled,
    Unknown(u8),
}

impl BtiUse {
    /// The raw attribute byte this value encodes.
    pub open spec fn spec_value(self) -> u8 {
        match self {
            Self::No => 0,
            Self::Enabled => 1,
            Self::Unknown(value) => value,
        }
    }

    pub fn value(self) -> (r: u8)
        ensures
            r == self.spec_value(),
    {
        match self {
            Self::No => 0,
            Self::Enabled => 1,
            Self::Unknown(value) => value,
        }
    }

    /// The value a raw attribute byte decodes to; a byte outside the
    /// table keeps the raw byte under the unrecognized arm.
    pub open spec fn spec_from_value(value: u8) -> BtiUse {
        if value == 0 {
            Self::No
        } else if value == 1 {
            Self::Enabled
        } else {
            Self::Unknown(value)
        }
    }

    pub fn from_value(value: u8) -> (r: BtiUse)
        ensures
            r == Self::spec_from_value(value),
    {
        if value == 0 {
            Self::No
        } else if value == 1 {
            Self::Enabled
        } else {
            Self::Unknown(value)
        }
    }
}

#[derive(Clone, Copy, PartialEq, Eq, Debug, Hash, Structural)]
pub enum PacretUse {
    /// The code is compiled without return address signing and authentication.
    No,
    /// The code is compiled with return address signing and authentication.
    Enabled,
    Unknown(u8),
}

impl PacretUse {
    /// The raw attribute byte this value encodes.
    pub open spec fn spec_value(self) -> u8 {
        match self {
            Self::No => 0,
            Self::Enabled => 1,
            Self::Unknown(value) => value,
        }
    }

    pub fn value(self) -> (r: u8)
        ensures
            r == self.spec_value(),
    {
        match self {
            Self::No => 0,
            Self::Enabled => 1,
            Self::Unknown(value) => value,
        }
    }

    /// The value a raw attribute byte decodes to; a byte outside the
    /// table keeps the raw byte under the unrecognized arm.
    pub open spec fn spec_from_value(value: u8) -> PacretUse {
        if value == 0 {
            Self::No
        } else if value == 1 {
            Self::Enabled
        } else {
            Self::Unknown(value)
        }
    }

    pub fn from_value(value: u8) -> (r: PacretUse)
        ensures
            r == Self::spec_from_value(value),
    {
        if value == 0 {
            Self::No
        } else if value == 1 {
            Self::Enabled
        } else {
            Self::Unknown(value)
        }
    }
}

#[derive(Clone, Copy, PartialEq, Eq, Debug, Hash, Structural)]
pub enum AbiOptGoals {
    /// The code has no optimization goals.
    No,
    /// Favor speed, preserve small size and debug experience.
    FavorSpeed,
    /// Optimize aggressively for speed, sacrifice small size and debug experience.
    OptimizeSpeed,
    /// Favor size, preserve for speed and debug experience.
    FavorSize,
    /// Optimize aggressively for size, sacrifice speed and debug experience.
    OptimizeSize,
    /// Favor debug experience, preserve speed and small size.
    FavorDebug,
    /// Optimize aggressively for debug experience, but sacrifice speed and small size.
    OptimizeDebug,
    Unknown(u8),
}

impl AbiOptGoals {
    /// The raw attribute byte this value encodes.
    pub open spec fn spec_value(self) -> u8 {
        match self {
            Self::No => 0,
            Self::FavorSpeed => 1,
            Self::OptimizeSpeed => 2,
            Self::FavorSize => 3,
            Self::OptimizeSize => 4,
            Self::FavorDebug => 5,
            Self::OptimizeDebug => 6,
            Self::Unknown(value) => value,
        }
    }

    pub fn value(self) -> (r: u8)
        ensures
            r == self.spec_value(),
    {
        match self {
            Self::No => 0,
            Self::FavorSpeed => 1,
            Self::OptimizeSpeed => 2,
            Self::FavorSize => 3,
            Self::OptimizeSize => 4,
            Self::FavorDebug => 5,
            Self::OptimizeDebug => 6,
            Self::Unknown(value) => value,
        }
    }

    /// The value a raw attribute byte decodes to; a byte outside the
    /// table keeps the raw byte under the unrecognized arm.
    pub open spec fn spec_from_value(value: u8) -> AbiOptGoals {
        if value == 0 {
            Self::No
        } else if value == 1 {
            Self::FavorSpeed
        } else if value == 2 {
            Self::OptimizeSpeed
        } else if value == 3 {
            Self::FavorSize
        } else if value == 4 {
            Self::OptimizeSize
        } else if value == 5 {
            Self::FavorDebug
        } else if value == 6 {
            Self::OptimizeDebug
        } else {
            Self::Unknown(value)
        }
    }

    pub fn from_value(value: u8) -> (r: AbiOptGoals)
        ensures
            r == Self::spec_from_value(value),
    {
        if value == 0 {
            Self::No
        } else if value == 1 {
            Self::FavorSpeed
        } else if value == 2 {
            Self::OptimizeSpeed
        } else if value == 3 {
            Self::FavorSize
        } else if value == 4 {
            Self::OptimizeSize
        } else if value == 5 {
            Self::FavorDebug
        } else if value == 6 {
            Self::OptimizeDebug
        } else {
            Self::Unknown(value)
        }
    }
}

#[derive(Clone, Copy, PartialEq, Eq, Debug, Hash, Structural)]
pub enum AbiFpOptGoals {
    /// The code has no FP optimization goals.
    No,
    /// Favor speed, preserve small size and accuracy.
    FavorSpeed,
    /// Optimize aggressively for speed, sacrifice small size and accuracy.
    OptimizeSpeed,
    /// Favor size, preserve for speed and accuracy.
    FavorSize,
    /// Optimize aggressively for size, sacrifice speed and accuracy.
    OptimizeSize,
    /// Favor accuracy, preserve speed and small size.
    FavorAccuracy,
    /// Optimize aggressively for accuracy, but sacrifice speed and small size.
    OptimizeAccuracy,
    Unknown(u8),
}

impl AbiFpOptGoals {
    /// The raw attribute byte this value encodes.
    pub open spec fn spec_value(self) -> u8 {
        match self {
            Self::No => 0,
            Self::FavorSpeed => 1,
            Self::OptimizeSpeed => 2,
            Self::FavorSize => 3,
            Self::OptimizeSize => 4,
            Self::FavorAccuracy => 5,
            Self::OptimizeAccuracy => 6,
            Self::Unknown(value) => value,
        }
    }

    pub fn value(self) -> (r: u8)
        ensures
            r == self.spec_value(),
    {
        match self {
            Self::No => 0,
            Self::FavorSpeed => 1,
            Self::OptimizeSpeed => 2,
            Self::FavorSize => 3,
            Self::OptimizeSize => 4,
            Self::FavorAccuracy => 5,
            Self::OptimizeAccuracy => 6,
            Self::Unknown(value) => value,
        }
    }

    /// The value a raw attribute byte decodes to; a byte outside the
    /// table keeps the raw byte under the unrecognized arm.
    pub open spec fn spec_from_value(value: u8) -> AbiFpOptGoals {
        if value == 0 {
            Self::No
        } else if value == 1 {
            Self::FavorSpeed
        } else if value == 2 {
            Self::OptimizeSpeed
        } else if value == 3 {
            Self::FavorSize
        } else if value == 4 {
            Self::OptimizeSize
        } else if value == 5 {
            Self::FavorAccuracy
        } else if value == 6 {
            Self::OptimizeAccuracy
        } else {
            Self::Unknown(value)
        }
    }

    pub fn from_value(value: u8) -> (r: AbiFpOptGoals)
        ensures
            r == Self::spec_from_value(value),
    {
        if value == 0 {
            Self::No
        } else if value == 1 {
            Self::FavorSpeed
        } else if value == 2 {
            Self::OptimizeSpeed
        } else if value == 3 {
            Self::FavorSize
        } else if value == 4 {
            Self::OptimizeSize
        } else if value == 5 {
            Self::FavorAccuracy
        } else if value == 6 {
            Self::OptimizeAccuracy
        } else {
            Self::Unknown(value)
        }
    }
}

// The CPU name recorded by the raw-name tag: a closed table of known
// processor names, with any other name kept verbatim.
#[derive(Clone, PartialEq, Eq, Debug, Hash)]
pub enum CpuName {
    /// ARM7EJ-S
    Arm7TejS,
    /// ARM7TM
    Arm7Tm,
    /// ARM7TDM
    Arm7Tdm,
    /// ARM7TDMI
    Arm7Tdmi,
    /// ARM710T
    Arm710T,
    /// ARM720T
    Arm720T,
    /// ARM740T
    Arm740T,
    /// ARM7TM-S
    Arm7TmS,
    /// ARM7TDMI-S
    Arm7TdmiS,
    /// ARM810
    Arm810,
    /// ARM9TDMI
    Arm9Tdmi,
    /// ARM920T
    Arm920T,
    /// ARM922T
    Arm922T,
    /// ARM940T
    Arm940T,
    /// ARM9E-S
    Arm9ES,
    /// ARM9EJ-S
    Arm9EjS,
    /// ARM926EJ-S
    Arm926EjS,
    /// ARM946E-S
    Arm946ES,
    /// ARM966E-S
    Arm966ES,
    /// ARM968E-S
    Arm968ES,
    /// ARM1020E
    Arm1020E,
    /// ARM1026EJ-S
    Arm1026EjS,
    /// ARM1136J-S
    Arm1136JS,
    /// ARM1136JF-S
    Arm1136JfS,
    /// ARM1156T2-S
    Arm1156T2S,
    /// ARM1156T2F-S
    Arm1156T2FS,
    /// ARM1176JZ-S
    Arm1176JzS,
    /// ARM1176JZF-S
    Arm1176JzfS,
    /// MPCore
    MpCore,
    /// Cortex-M0
    CortexM0,
    /// Cortex-M0plus
    CortexM0Plus,
    /// Cortex-M1
    CortexM1,
    /// Cortex-M3
    CortexM3,
    /// Cortex-M4
    CortexM4,
    /// SC000
    Sc000,
    /// SC300
    Sc300,
    /// Cortex-R4
    CortexR4,
    /// Cortex-R4F
    CortexR4F,
    /// Cortex-R5
    CortexR5,
    /// Cortex-R7
    CortexR7,
    /// Cortex-A5
    CortexA5,
    /// Cortex-A7
    CortexA7,
    /// Cortex-A8
    CortexA8,
    /// Cortex-A9
    CortexA9,
    /// Cortex-A16
    CortexA15,
    Other(String),
}

/// Mathematical model of a `CpuName`: the string payload is a
/// character sequence.
pub enum CpuNameM {
    Arm7TejS,
    Arm7Tm,
    Arm7Tdm,
    Arm7Tdmi,
    Arm710T,
    Arm720T,
    Arm740T,
    Arm7TmS,
    Arm7TdmiS,
    Arm810,
    Arm9Tdmi,
    Arm920T,
    Arm922T,
    Arm940T,
    Arm9ES,
    Arm9EjS,
    Arm926EjS,
    Arm946ES,
    Arm966ES,
    Arm968ES,
    Arm1020E,
    Arm1026EjS,
    Arm1136JS,
    Arm1136JfS,
    Arm1156T2S,
    Arm1156T2FS,
    Arm1176JzS,
    Arm1176JzfS,
    MpCore,
    CortexM0,
    CortexM0Plus,
    CortexM1,
    CortexM3,
    CortexM4,
    Sc000,
    Sc300,
    CortexR4,
    CortexR4F,
    CortexR5,
    CortexR7,
    CortexA5,
    CortexA7,
    CortexA8,
    CortexA9,
    CortexA15,
    Other(Seq<char>),
}

impl View for CpuName {
    type V = CpuNameM;

    open spec fn view(&self) -> CpuNameM {
        match self {
            CpuName::Arm7TejS => CpuNameM::Arm7TejS,
            CpuName::Arm7Tm => CpuNameM::Arm7Tm,
            CpuName::Arm7Tdm => CpuNameM::Arm7Tdm,
            CpuName::Arm7Tdmi => CpuNameM::Arm7Tdmi,
            CpuName::Arm710T => CpuNameM::Arm710T,
            CpuName::Arm720T => CpuNameM::Arm720T,
            CpuName::Arm740T => CpuNameM::Arm740T,
            CpuName::Arm7TmS => CpuNameM::Arm7TmS,
            CpuName::Arm7TdmiS => CpuNameM::Arm7TdmiS,
            CpuName::Arm810 => CpuNameM::Arm810,
            CpuName::Arm9Tdmi => CpuNameM::Arm9Tdmi,
            CpuName::Arm920T => CpuNameM::Arm920T,
            CpuName::Arm922T => CpuNameM::Arm922T,
            CpuName::Arm940T => CpuNameM::Arm940T,
            CpuName::Arm9ES => CpuNameM::Arm9ES,
            CpuName::Arm9EjS => CpuNameM::Arm9EjS,
            CpuName::Arm926EjS => CpuNameM::Arm926EjS,
            CpuName::Arm946ES => CpuNameM::Arm946ES,
            CpuName::Arm966ES => CpuNameM::Arm966ES,
            CpuName::Arm968ES => CpuNameM::Arm968ES,
            CpuName::Arm1020E => CpuNameM::Arm1020E,
            CpuName::Arm1026EjS => CpuNameM::Arm1026EjS,
            CpuName::Arm1136JS => CpuNameM::Arm1136JS,
            CpuName::Arm1136JfS => CpuNameM::Arm1136JfS,
            CpuName::Arm1156T2S => CpuNameM::Arm1156T2S,
            CpuName::Arm1156T2FS => CpuNameM::Arm1156T2FS,
            CpuName::Arm1176JzS => CpuNameM::Arm1176JzS,
            CpuName::Arm1176JzfS => CpuNameM::Arm1176JzfS,
            CpuName::MpCore => CpuNameM::MpCore,
            CpuName::CortexM0 => CpuNameM::CortexM0,
            CpuName::CortexM0Plus => CpuNameM::CortexM0Plus,
            CpuName::CortexM1 => CpuNameM::CortexM1,
            CpuName::CortexM3 => CpuNameM::CortexM3,
            CpuName::CortexM4 => CpuNameM::CortexM4,
            CpuName::Sc000 => CpuNameM::Sc000,
            CpuName::Sc300 => CpuNameM::Sc300,
            CpuName::CortexR4 => CpuNameM::CortexR4,
            CpuName::CortexR4F => CpuNameM::CortexR4F,
            CpuName::CortexR5 => CpuNameM::CortexR5,
            CpuName::CortexR7 => CpuNameM::CortexR7,
            CpuName::CortexA5 => CpuNameM::CortexA5,
            CpuName::CortexA7 => CpuNameM::CortexA7,
            CpuName::CortexA8 => CpuNameM::CortexA8,
            CpuName::CortexA9 => CpuNameM::CortexA9,
            CpuName::CortexA15 => CpuNameM::CortexA15,
            CpuName::Other(s) => CpuNameM::Other(s@),
        }
    }
}

impl CpuName {
    /// The value a CPU name string decodes to; a name outside the
    /// fixed table is kept verbatim under `Other`.
    pub open spec fn spec_from_name(name: Seq<char>) -> CpuNameM {
        if name == "ARM7EJ-S"@ {
            CpuNameM::Arm7TejS
        } else if name == "ARM7TM"@ {
            CpuNameM::Arm7Tm
        } else if name == "ARM7TDM"@ {
            CpuNameM::Arm7Tdm
        } else if name == "ARM7TDMI"@ {
            CpuNameM::Arm7Tdmi
        } else if name == "ARM710T"@ {
            CpuNameM::Arm710T
        } else if name == "ARM720T"@ {
            CpuNameM::Arm720T
        } else if name == "ARM740T"@ {
            CpuNameM::Arm740T
        } else if name == "ARM7TM-S"@ {
            CpuNameM::Arm7TmS
        } else if name == "ARM7TDMI-S"@ {
            CpuNameM::Arm7TdmiS
        } else if name == "ARM810"@ {
            CpuNameM::Arm810
        } else if name == "ARM9TDMI"@ {
            CpuNameM::Arm9Tdmi
        } else if name == "ARM920T"@ {
            CpuNameM::Arm920T
        } else if name == "ARM922T"@ {
            CpuNameM::Arm922T
        } else if name == "ARM940T"@ {
            CpuNameM::Arm940T
        } else if name == "ARM9E-S"@ {
            CpuNameM::Arm9ES
        } else if name == "ARM9EJ-S"@ {
            CpuNameM::Arm9EjS
        } else if name == "ARM926EJ-S"@ {
            CpuNameM::Arm926EjS
        } else if name == "ARM946E-S"@ {
            CpuNameM::Arm946ES
        } else if name == "ARM966E-S"@ {
            CpuNameM::Arm966ES
        } else if name == "ARM968E-S"@ {
            CpuNameM::Arm968ES
        } else if name == "ARM1020E"@ {
            CpuNameM::Arm1020E
        } else if name == "ARM1026EJ-S"@ {
            CpuNameM::Arm1026EjS
        } else if name == "ARM1136J-S"@ {
            CpuNameM::Arm1136JS
        } else if name == "ARM1136JF-S"@ {
            CpuNameM::Arm1136JfS
        } else if name == "ARM1156T2-S"@ {
            CpuNameM::Arm1156T2S
        } else if name == "ARM1156T2F-S"@ {
            CpuNameM::Arm1156T2FS
        } else if name == "ARM1176JZ-S"@ {
            CpuNameM::Arm1176JzS
        } else if name == "ARM1176JZF-S"@ {
            CpuNameM::Arm1176JzfS
        } else if name == "MPCore"@ {
            CpuNameM::MpCore
        } else if name == "Cortex-M0"@ {
            CpuNameM::CortexM0
        } else if name == "Cortex-M0plus"@ {
            CpuNameM::CortexM0Plus
        } else if name == "Cortex-M1"@ {
            CpuNameM::CortexM1
        } else if name == "Cortex-M3"@ {
            CpuNameM::CortexM3
        } else if name == "Cortex-M4"@ {
            CpuNameM::CortexM4
        } else if name == "SC000"@ {
            CpuNameM::Sc000
        } else if name == "SC300"@ {
            CpuNameM::Sc300
        } else if name == "Cortex-R4"@ {
            CpuNameM::CortexR4
        } else if name == "Cortex-R4F"@ {
            CpuNameM::CortexR4F
        } else if name == "Cortex-R5"@ {
            CpuNameM::CortexR5
        } else if name == "Cortex-R7"@ {
            CpuNameM::CortexR7
        } else if name == "Cortex-A5"@ {
            CpuNameM::CortexA5
        } else if name == "Cortex-A7"@ {
            CpuNameM::CortexA7
        } else if name == "Cortex-A8"@ {
            CpuNameM::CortexA8
        } else if name == "Cortex-A9"@ {
            CpuNameM::CortexA9
        } else if name == "Cortex-A16"@ {
            CpuNameM::CortexA15
        } else {
            CpuNameM::Other(name)
        }
    }

    pub fn from_name(name: &str) -> (r: CpuName)
        ensures
            r@ == Self::spec_from_name(name@),
    {
        if str_eq(name, "ARM7EJ-S") {
            CpuName::Arm7TejS
        } else if str_eq(name, "ARM7TM") {
            CpuName::Arm7Tm
        } else if str_eq(name, "ARM7TDM") {
            CpuName::Arm7Tdm
        } else if str_eq(name, "ARM7TDMI") {
            CpuName::Arm7Tdmi
        } else if str_eq(name, "ARM710T") {
            CpuName::Arm710T
        } else if str_eq(name, "ARM720T") {
            CpuName::Arm720T
        } else if str_eq(name, "ARM740T") {
            CpuName::Arm740T
        } else if str_eq(name, "ARM7TM-S") {
            CpuName::Arm7TmS
        } else if str_eq(name, "ARM7TDMI-S") {
            CpuName::Arm7TdmiS
        } else if str_eq(name, "ARM810") {
            CpuName::Arm810
        } else if str_eq(name, "ARM9TDMI") {
            CpuName::Arm9Tdmi
        } else if str_eq(name, "ARM920T") {
            CpuName::Arm920T
        } else if str_eq(name, "ARM922T") {
            CpuName::Arm922T
        } else if str_eq(name, "ARM940T") {
            CpuName::Arm940T
        } else if str_eq(name, "ARM9E-S") {
            CpuName::Arm9ES
        } else if str_eq(name, "ARM9EJ-S") {
            CpuName::Arm9EjS
        } else if str_eq(name, "ARM926EJ-S") {
            CpuName::Arm926EjS
        } else if str_eq(name, "ARM946E-S") {
            CpuName::Arm946ES
        } else if str_eq(name, "ARM966E-S") {
            CpuName::Arm966ES
        } else if str_eq(name, "ARM968E-S") {
            CpuName::Arm968ES
        } else if str_eq(name, "ARM1020E") {
            CpuName::Arm1020E
        } else if str_eq(name, "ARM1026EJ-S") {
            CpuName::Arm1026EjS
        } else if str_eq(name, "ARM1136J-S") {
            CpuName::Arm1136JS
        } else if str_eq(name, "ARM1136JF-S") {
            CpuName::Arm1136JfS
        } else if str_eq(name, "ARM1156T2-S") {
            CpuName::Arm1156T2S
        } else if str_eq(name, "ARM1156T2F-S") {
            CpuName::Arm1156T2FS
        } else if str_eq(name, "ARM1176JZ-S") {
            CpuName::Arm1176JzS
        } else if str_eq(name, "ARM1176JZF-S") {
            CpuName::Arm1176JzfS
        } else if str_eq(name, "MPCore") {
            CpuName::MpCore
        } else if str_eq(name, "Cortex-M0") {
            CpuName::CortexM0
        } else if str_eq(name, "Cortex-M0plus") {
            CpuName::CortexM0Plus
        } else if str_eq(name, "Cortex-M1") {
            CpuName::CortexM1
        } else if str_eq(name, "Cortex-M3") {
            CpuName::CortexM3
        } else if str_eq(name, "Cortex-M4") {
            CpuName::CortexM4
        } else if str_eq(name, "SC000") {
            CpuName::Sc000
        } else if str_eq(name, "SC300") {
            CpuName::Sc300
        } else if str_eq(name, "Cortex-R4") {
            CpuName::CortexR4
        } else if str_eq(name, "Cortex-R4F") {
            CpuName::CortexR4F
        } else if str_eq(name, "Cortex-R5") {
            CpuName::CortexR5
        } else if str_eq(name, "Cortex-R7") {
            CpuName::CortexR7
        } else if str_eq(name, "Cortex-A5") {
            CpuName::CortexA5
        } else if str_eq(name, "Cortex-A7") {
            CpuName::CortexA7
        } else if str_eq(name, "Cortex-A8") {
            CpuName::CortexA8
        } else if str_eq(name, "Cortex-A9") {
            CpuName::CortexA9
        } else if str_eq(name, "Cortex-A16") {
            CpuName::CortexA15
        } else {
            CpuName::Other(name.to_owned())
        }
    }

    /// A deep copy whose model is the same.
    pub fn duplicate(&self) -> (r: CpuName)
        ensures
            r@ == self@,
    {
        match self {
            CpuName::Arm7TejS => CpuName::Arm7TejS,
            CpuName::Arm7Tm => CpuName::Arm7Tm,
            CpuName::Arm7Tdm => CpuName::Arm7Tdm,
            CpuName::Arm7Tdmi => CpuName::Arm7Tdmi,
            CpuName::Arm710T => CpuName::Arm710T,
            CpuName::Arm720T => CpuName::Arm720T,
            CpuName::Arm740T => CpuName::Arm740T,
            CpuName::Arm7TmS => CpuName::Arm7TmS,
            CpuName::Arm7TdmiS => CpuName::Arm7TdmiS,
            CpuName::Arm810 => CpuName::Arm810,
            CpuName::Arm9Tdmi => CpuName::Arm9Tdmi,
            CpuName::Arm920T => CpuName::Arm920T,
            CpuName::Arm922T => CpuName::Arm922T,
            CpuName::Arm940T => CpuName::Arm940T,
            CpuName::Arm9ES => CpuName::Arm9ES,
            CpuName::Arm9EjS => CpuName::Arm9EjS,
            CpuName::Arm926EjS => CpuName::Arm926EjS,
            CpuName::Arm946ES => CpuName::Arm946ES,
            CpuName::Arm966ES => CpuName::Arm966ES,
            CpuName::Arm968ES => CpuName::Arm968ES,
            CpuName::Arm1020E => CpuName::Arm1020E,
            CpuName::Arm1026EjS => CpuName::Arm1026EjS,
            CpuName::Arm1136JS => CpuName::Arm1136JS,
            CpuName::Arm1136JfS => CpuName::Arm1136JfS,
            CpuName::Arm1156T2S => CpuName::Arm1156T2S,
            CpuName::Arm1156T2FS => CpuName::Arm1156T2FS,
            CpuName::Arm1176JzS => CpuName::Arm1176JzS,
            CpuName::Arm1176JzfS => CpuName::Arm1176JzfS,
            CpuName::MpCore => CpuName::MpCore,
            CpuName::CortexM0 => CpuName::CortexM0,
            CpuName::CortexM0Plus => CpuName::CortexM0Plus,
            CpuName::CortexM1 => CpuName::CortexM1,
            CpuName::CortexM3 => CpuName::CortexM3,
            CpuName::CortexM4 => CpuName::CortexM4,
            CpuName::Sc000 => CpuName::Sc000,
            CpuName::Sc300 => CpuName::Sc300,
            CpuName::CortexR4 => CpuName::CortexR4,
            CpuName::CortexR4F => CpuName::CortexR4F,
            CpuName::CortexR5 => CpuName::CortexR5,
            CpuName::CortexR7 => CpuName::CortexR7,
            CpuName::CortexA5 => CpuName::CortexA5,
            CpuName::CortexA7 => CpuName::CortexA7,
            CpuName::CortexA8 => CpuName::CortexA8,
            CpuName::CortexA9 => CpuName::CortexA9,
            CpuName::CortexA15 => CpuName::CortexA15,
            CpuName::Other(s) => CpuName::Other(s.clone()),
        }
    }
}

/// The compatibility record: a flag byte and a vendor string. Flag 0
/// means always compatible, flag 1 means compatible when built by the
/// named toolchain, and any other flag is a vendor-private marker that
/// keeps both the flag and the string verbatim.
#[derive(Clone, PartialEq, Eq, Debug, Hash)]
pub enum Compat {
    /// This entity has no toolchain-specific requirements.
    Always,
    /// This entity conforms to the ABI when built by the given toolchain.
    ByToolchain(String),
    /// This entity does not conform to the ABI, but can be used privately by given flag and vendor name.
    Private { flag: u8, vendor: String },
}

/// Mathematical model of a `Compat`: the vendor string is a character
/// sequence.
pub enum CompatM {
    Always,
    ByToolchain(Seq<char>),
    Private { flag: u8, vendor: Seq<char> },
}

impl View for Compat {
    type V = CompatM;

    open spec fn view(&self) -> CompatM {
        match self {
            Compat::Always => CompatM::Always,
            Compat::ByToolchain(v) => CompatM::ByToolchain(v@),
            Compat::Private { flag, vendor } => CompatM::Private { flag: *flag, vendor: vendor@ },
        }
    }
}

impl CompatM {
    /// The flag byte this record encodes.
    pub open spec fn spec_value(self) -> u8 {
        match self {
            CompatM::Always => 0,
            CompatM::ByToolchain(_) => 1,
            CompatM::Private { flag, .. } => flag,
        }
    }
}

impl Compat {
    /// The record a flag byte and a vendor string decode to.
    pub open spec fn spec_new(flag: u8, vendor: Seq<char>) -> CompatM {
        if flag == 0 {
            CompatM::Always
        } else if flag == 1 {
            CompatM::ByToolchain(vendor)
        } else {
            CompatM::Private { flag, vendor }
        }
    }

    pub fn new(flag: u8, vendor: String) -> (r: Compat)
        ensures
            r@ == Compat::spec_new(flag, vendor@),
    {
        if flag == 0 {
            Compat::Always
        } else if flag == 1 {
            Compat::ByToolchain(vendor)
        } else {
            Compat::Private { flag, vendor }
        }
    }

    pub fn value(&self) -> (r: u8)
        ensures
            r == self@.spec_value(),
    {
        match self {
            Compat::Always => 0,
            Compat::ByToolchain(_) => 1,
            Compat::Private { flag, .. } => *flag,
        }
    }

    /// A deep copy whose model is the same.
    pub fn duplicate(&self) -> (r: Compat)
        ensures
            r@ == self@,
    {
        match self {
            Compat::Always => Compat::Always,
            Compat::ByToolchain(v) => Compat::ByToolchain(v.clone()),
            Compat::Private { flag, vendor } => Compat::Private {
                flag: *flag,
                vendor: vendor.clone(),
            },
        }
    }
}

/// An additional, non-primary compatible configuration: an alternate
/// architecture, or any other wrapped non-scope tag, kept verbatim.
pub enum AlsoCompatWith {
    /// The entity is also compatible with the given architecture.
    Arch(CpuArch),
    /// The wrapped tag is kept verbatim for any other shape.
    Reserved(Box<Tag>),
}

/// Mathematical model of an `AlsoCompatWith`.
pub enum AlsoCompatWithM {
    Arch(CpuArch),
    Reserved(Box<TagM>),
}

impl View for AlsoCompatWith {
    type V = AlsoCompatWithM;

    open spec fn view(&self) -> AlsoCompatWithM {
        crate::tag::spec_also_compat_view(*self)
    }
}

impl AlsoCompatWith {
    /// The record a wrapped tag decodes to.
    pub open spec fn spec_new(tag: TagM) -> AlsoCompatWithM {
        match tag {
            TagM::CpuArch(a) => AlsoCompatWithM::Arch(a),
            _ => AlsoCompatWithM::Reserved(Box::new(tag)),
        }
    }

    pub fn new(tag: Tag) -> (r: AlsoCompatWith)
        ensures
            r@ == AlsoCompatWith::spec_new(tag@),
    {
        match tag {
            Tag::CpuArch(a) => AlsoCompatWith::Arch(a),
            _ => AlsoCompatWith::Reserved(Box::new(tag)),
        }
    }

    /// A deep copy whose model is the same.
    pub fn duplicate(&self) -> (r: AlsoCompatWith)
        ensures
            r@ == self@,
        decreases self,
    {
        match self {
            AlsoCompatWith::Arch(a) => AlsoCompatWith::Arch(*a),
            AlsoCompatWith::Reserved(t) => AlsoCompatWith::Reserved(Box::new(t.duplicate())),
        }
    }
}

/// The conformance marker: a free-form string recording the ABI
/// revision the object claims to conform to.
#[derive(Clone, PartialEq, Eq, Debug, Hash)]
pub struct Conform(pub String);

impl View for Conform {
    type V = Seq<char>;

    open spec fn view(&self) -> Seq<char> {
        self.0@
    }
}

impl Conform {
    /// A deep copy whose model is the same.
    pub fn duplicate(&self) -> (r: Conform)
        ensures
            r@ == self@,
    {
        Conform(self.0.clone())
    }
}

} // verus!
