//! The x86-64 micro-architecture feature levels, checked against the
//! feature masks of leaves 0x1, 0x7 and 0x8000_0001.

use vstd::prelude::*;

use crate::reg::CpuidResult;

verus! {

/// Baseline feature mask over leaf 0x1 EDX: FPU, CX8, SCE, CMOV, MMX,
/// FXSR, SSE and SSE2.
pub const BASE_LINE_00_01_EDX: u32 = (1u32 << 0) | (1u32 << 8) | (1u32 << 11) | (1u32 << 15) | (
1u32 << 23) | (1u32 << 24) | (1u32 << 25) | (1u32 << 26);

/// Level-2 mask over leaf 0x1 ECX: SSE3, SSSE3, CMPXCHG16B, SSE4.1,
/// SSE4.2 and POPCNT.
pub const V2_00_01_ECX: u32 = (1u32 << 0) | (1u32 << 9) | (1u32 << 13) | (1u32 << 19) | (1u32
    << 20) | (1u32 << 23);

/// Level-2 mask over leaf 0x8000_0001 ECX: LAHF/SAHF.
pub const V2_80_01_ECX: u32 = 1u32 << 0;

/// Level-3 mask over leaf 0x1 ECX: FMA, MOVBE, OSXSAVE, AVX and F16C.
pub const V3_00_01_ECX: u32 = (1u32 << 12) | (1u32 << 22) | (1u32 << 27) | (1u32 << 28) | (1u32
    << 29);

/// Level-3 mask over leaf 0x7 EBX: BMI1, AVX2 and BMI2.
pub const V3_00_07_EBX: u32 = (1u32 << 3) | (1u32 << 5) | (1u32 << 8);

/// Level-3 mask over leaf 0x8000_0001 ECX: ABM/LZCNT.
pub const V3_80_01_ECX: u32 = 1u32 << 5;

/// Level-4 mask over leaf 0x7 EBX: AVX512 F, DQ, CD, BW and VL.
pub const V4_00_07_EBX: u32 = (1u32 << 16) | (1u32 << 17) | (1u32 << 28) | (1u32 << 30) | (1u32
    << 31);

/// True when every bit of `bitmask` is set in `reg`.
pub open spec fn mask_ok(bitmask: u32, reg: u32) -> bool {
    bitmask & reg == bitmask
}

/// One bit per satisfied level mask: the baseline in bit 0, then levels 2,
/// 3 and 4 in bits 1, 2 and 3.
pub open spec fn level_bits(
    cpuid_00_01: CpuidResult,
    cpuid_00_07: CpuidResult,
    cpuid_80_01: CpuidResult,
) -> u8 {
    (if mask_ok(BASE_LINE_00_01_EDX, cpuid_00_01.edx) {
        1u8
    } else {
        0u8
    }) | (if mask_ok(V2_00_01_ECX, cpuid_00_01.ecx) && mask_ok(V2_80_01_ECX, cpuid_80_01.ecx) {
        2u8
    } else {
        0u8
    }) | (if mask_ok(V3_00_01_ECX, cpuid_00_01.ecx) && mask_ok(V3_00_07_EBX, cpuid_00_07.ebx)
        && mask_ok(V3_80_01_ECX, cpuid_80_01.ecx) {
        4u8
    } else {
        0u8
    }) | (if mask_ok(V4_00_07_EBX, cpuid_00_07.ebx) {
        8u8
    } else {
        0u8
    })
}

/// The micro-architecture level word: one bit per satisfied level mask.
pub struct MicroArchLevel(pub u8);

impl MicroArchLevel {
    /// Derives the level word from the three register quartets of leaves
    /// 0x1, 0x7 (sub-leaf 0) and 0x8000_0001, in that order.
    pub fn from_cpuid_array(cpuid_array: [CpuidResult; 3]) -> (r: Self)
        ensures
            r.0 == level_bits(cpuid_array@[0], cpuid_array@[1], cpuid_array@[2]),
    {
        let cpuid_00_01 = cpuid_array[0];
        let cpuid_00_07 = cpuid_array[1];
        let cpuid_80_01 = cpuid_array[2];

        let base_line = BASE_LINE_00_01_EDX & cpuid_00_01.edx == BASE_LINE_00_01_EDX;
        let x86_64_v2 = V2_00_01_ECX & cpuid_00_01.ecx == V2_00_01_ECX && V2_80_01_ECX
            & cpuid_80_01.ecx == V2_80_01_ECX;
        let x86_64_v3 = V3_00_01_ECX & cpuid_00_01.ecx == V3_00_01_ECX && V3_00_07_EBX
            & cpuid_00_07.ebx == V3_00_07_EBX && V3_80_01_ECX & cpuid_80_01.ecx == V3_80_01_ECX;
        let x86_64_v4 = V4_00_07_EBX & cpuid_00_07.ebx == V4_00_07_EBX;

        let level: u8 = (if base_line {
            1u8
        } else {
            0u8
        }) | (if x86_64_v2 {
            2u8
        } else {
            0u8
        }) | (if x86_64_v3 {
            4u8
        } else {
            0u8
        }) | (if x86_64_v4 {
            8u8
        } else {
            0u8
        });
        MicroArchLevel(level)
    }

    /// Derives the level word from probed register quartets; the probing
    /// itself is left to the caller, which hands over the results for
    /// leaves 0x1, 0x7 (sub-leaf 0) and 0x8000_0001, in that order.
    pub fn check(cpuid_array: [CpuidResult; 3]) -> (r: u8)
        ensures
            r == level_bits(cpuid_array@[0], cpuid_array@[1], cpuid_array@[2]),
    {
        Self::from_cpuid_array(cpuid_array).0
    }

    /// The level as a number: 1 through 4 when the level bits form an
    /// unbroken prefix, 0 otherwise.
    pub fn to_u8(&self) -> (r: u8)
        ensures
            r == (if self.0 == 1 {
                1u8
            } else if self.0 == 3 {
                2u8
            } else if self.0 == 7 {
                3u8
            } else if self.0 == 15 {
                4u8
            } else {
                0u8
            }),
    {
        match self.0 {
            0b0001 => 1,
            0b0011 => 2,
            0b0111 => 3,
            0b1111 => 4,
            _ => 0,
        }
    }
}

} // verus!
