//! Vendor-independent per-leaf decoders: each maps one captured register
//! quartet to the decoded, wrapped token text of that leaf.

use vstd::prelude::*;

use crate::parse_util::chars_of_bytes;
use crate::parse_util::detect;
use crate::parse_util::mold;
use crate::parse_util::pair_views;
use crate::parse_util::padln;
use crate::parse_util::padln_seq;
use crate::parse_util::variant_expand;
use crate::parse_util::views;
use crate::parse_util::align_mold_ftr;
use crate::parse_util::ftr_variant_expand;
use crate::parse_util::str_detect_ftr;
use crate::raw_cpuid::RawCpuid;
use crate::reg::bit32;
use crate::reg::CpuidResult;
use crate::reg::Reg;
use crate::strfmt::dec_digits;
use crate::strfmt::dec_padded;
use crate::strfmt::push_dec;
use crate::strfmt::push_dec_padded;
use crate::PARSE_WIDTH;

verus! {

/// Feature labels of leaf 0x1 EDX; empty entries are reserved bits or bits
/// folded into a compound token.
pub open spec fn ftr_00_01_edx_x0() -> Seq<Seq<char>> {
    seq![
        "FPU"@, "VME"@, "DE"@, "PSE"@, "TSC"@, "MSR"@, "PAE"@, "MCE"@,
        "CX8"@, "APIC"@, ""@, "SEP"@, "MTRR"@, "PGE"@, "MCA"@, "CMOV"@,
        "PAT"@, "PSE36"@, "PSN"@, "CLFSH"@, ""@, "DS"@, "ACPI"@, "MMX"@,
        "FXSR"@, ""@, ""@, "SS"@, "HTT"@, "TM"@, ""@, "PBE"@,
    ]
}

/// Feature labels of leaf 0x1 ECX; empty entries are reserved bits or bits
/// folded into a compound token.
pub open spec fn ftr_00_01_ecx_x0() -> Seq<Seq<char>> {
    seq![
        ""@, "PCLMULQDQ"@, "DTES64"@, "MONITOR"@, "DS_CPL"@, "VMX"@, "SMX"@, "EST"@,
        "TM2"@, ""@, "CNXT_ID"@, "SDBG"@, "FMA"@, "CX16"@, "xTPR"@, "PDCM"@,
        ""@, "PCID"@, "DCA"@, ""@, ""@, "X2APIC"@, "MOVBE"@, "POPCNT"@,
        "TSC_DEADLINE"@, "AES"@, "XSAVE"@, "OSXSAVE"@, "AVX"@, "F16C"@, "RDRAND"@, ""@,
    ]
}

/// The SSE compound token of leaf 0x1: version suffixes in declared order.
pub open spec fn sse_variant(ecx: u32, edx: u32) -> Seq<char> {
    variant_expand(
        "SSE"@,
        seq![
            (bit32(edx, 26), "2"@),
            (bit32(ecx, 0), "3"@),
            (bit32(ecx, 19), "4.1"@),
            (bit32(ecx, 20), "4.2"@),
        ],
    )
}

/// The decoded tokens of leaf 0x1: the ECX/EDX table hits, then the SSE
/// compound token when the SSE bit is set, then SSSE3.
pub open spec fn feature_00_01h_tokens(ecx: u32, edx: u32) -> Seq<Seq<char>> {
    detect(edx, ftr_00_01_edx_x0()) + detect(ecx, ftr_00_01_ecx_x0()) + (if bit32(edx, 25) {
        seq![sse_variant(ecx, edx)]
    } else {
        Seq::empty()
    }) + (if bit32(ecx, 9) {
        seq!["SSSE3"@]
    } else {
        Seq::empty()
    })
}

/// Decodes the feature bits of leaf 0x1 (ECX and EDX) into wrapped token
/// text.
pub fn feature_00_01h(cpuid: &CpuidResult) -> (r: String)
    ensures
        r@ == mold(feature_00_01h_tokens(cpuid.ecx, cpuid.edx), PARSE_WIDTH as nat),
{
    let ecx = cpuid.ecx;
    let edx = cpuid.edx;
    let t_edx: [&str; 32] = [
        "FPU", "VME", "DE", "PSE", "TSC", "MSR", "PAE", "MCE",
        "CX8", "APIC", "", "SEP", "MTRR", "PGE", "MCA", "CMOV",
        "PAT", "PSE36", "PSN", "CLFSH", "", "DS", "ACPI", "MMX",
        "FXSR", "", "", "SS", "HTT", "TM", "", "PBE",
    ];
    let t_ecx: [&str; 32] = [
        "", "PCLMULQDQ", "DTES64", "MONITOR", "DS_CPL", "VMX", "SMX", "EST",
        "TM2", "", "CNXT_ID", "SDBG", "FMA", "CX16", "xTPR", "PDCM",
        "", "PCID", "DCA", "", "", "X2APIC", "MOVBE", "POPCNT",
        "TSC_DEADLINE", "AES", "XSAVE", "OSXSAVE", "AVX", "F16C", "RDRAND", "",
    ];
    proof {
        assert(views(t_edx@) =~= ftr_00_01_edx_x0());
        assert(views(t_ecx@) =~= ftr_00_01_ecx_x0());
    }
    let mut buff = str_detect_ftr(edx, t_edx.as_slice());
    let mut more = str_detect_ftr(ecx, t_ecx.as_slice());
    buff.append(&mut more);

    let ecx_b = Reg::new(ecx).to_bool_array();
    let edx_b = Reg::new(edx).to_bool_array();

    if edx_b[25] {
        let v: [(bool, &str); 4] = [
            (edx_b[26], "2"),
            (ecx_b[0], "3"),
            (ecx_b[19], "4.1"),
            (ecx_b[20], "4.2"),
        ];
        proof {
            assert(pair_views(v@) =~= seq![
                (bit32(edx, 26), "2"@),
                (bit32(ecx, 0), "3"@),
                (bit32(ecx, 19), "4.1"@),
                (bit32(ecx, 20), "4.2"@),
            ]);
        }
        let sse = ftr_variant_expand("SSE", v.as_slice());
        buff.push(sse);
    }
    if ecx_b[9] {
        buff.push("SSSE3".to_owned());
    }
    proof {
        assert(views(buff@) =~= feature_00_01h_tokens(ecx, edx));
    }
    align_mold_ftr(buff.as_slice())
}

/// Feature labels of leaf 0x7 sub-leaf 0x1 EAX.
pub open spec fn ftr_00_07_eax_x1() -> Seq<Seq<char>> {
    seq![
        ""@, ""@, ""@, ""@, "AVX_VNNI"@, "AVX512_BF16"@, ""@, ""@,
        ""@, ""@, ""@, ""@, ""@, ""@, ""@, ""@,
        ""@, ""@, ""@, ""@, ""@, ""@, "HRESET"@, ""@,
        ""@, ""@, "LAM"@, ""@, ""@, ""@, ""@, ""@,
    ]
}

/// Decodes the feature bits of leaf 0x7 sub-leaf 0x1 (EAX) into wrapped
/// token text.
pub fn feature_00_07h_x1(eax: &u32) -> (r: String)
    ensures
        r@ == mold(detect(*eax, ftr_00_07_eax_x1()), PARSE_WIDTH as nat),
{
    let v: [&str; 32] = [
        "", "", "", "", "AVX_VNNI", "AVX512_BF16", "", "",
        "", "", "", "", "", "", "", "",
        "", "", "", "", "", "", "HRESET", "",
        "", "", "LAM", "", "", "", "", "",
    ];
    proof {
        assert(views(v@) =~= ftr_00_07_eax_x1());
    }
    let buff = str_detect_ftr(*eax, v.as_slice());
    align_mold_ftr(buff.as_slice())
}

/// Feature labels of leaf 0x8000_0001 ECX.
pub open spec fn ftr_80_01_ecx_x0() -> Seq<Seq<char>> {
    seq![
        "LAHF/SAHF"@, "CmpLegacy"@, "SVM"@, "ExtApicSpace"@, "AltMovCr8"@, "ABM"@, "SSE4A"@,
        "MisAlignSse"@, "3DNow!Prefetch"@, "OSVW"@, "IBS"@, "XOP"@, "SKINIT"@, "WDT"@, ""@,
        "LWP"@, "FMA4"@, "TCE"@, ""@, ""@, ""@, "TBM"@, "TopoExt"@, "PerfCtrCore"@,
        "PerfCtrNB"@, ""@, "DBE"@, "PerfTSC"@, "PerfCtrLLC"@, "MwaitX"@, ""@, ""@,
    ]
}

/// The decoded tokens of leaf 0x8000_0001: the ECX table hits, then the
/// 3DNow! compound token when its base bit is set.
pub open spec fn feature_80_01h_tokens(ecx: u32, edx: u32) -> Seq<Seq<char>> {
    detect(ecx, ftr_80_01_ecx_x0()) + (if bit32(edx, 31) {
        seq![variant_expand("3DNow!"@, seq![(bit32(edx, 30), "EXT"@)])]
    } else {
        Seq::empty()
    })
}

/// Decodes the extended feature bits of leaf 0x8000_0001 (ECX and EDX)
/// into wrapped token text.
pub fn feature_80_01h(cpuid: &CpuidResult) -> (r: String)
    ensures
        r@ == mold(feature_80_01h_tokens(cpuid.ecx, cpuid.edx), PARSE_WIDTH as nat),
{
    let ecx = cpuid.ecx;
    let edx = cpuid.edx;
    let t_ecx: [&str; 32] = [
        "LAHF/SAHF", "CmpLegacy", "SVM", "ExtApicSpace", "AltMovCr8", "ABM", "SSE4A",
        "MisAlignSse", "3DNow!Prefetch", "OSVW", "IBS", "XOP", "SKINIT", "WDT", "",
        "LWP", "FMA4", "TCE", "", "", "", "TBM", "TopoExt", "PerfCtrCore",
        "PerfCtrNB", "", "DBE", "PerfTSC", "PerfCtrLLC", "MwaitX", "", "",
    ];
    proof {
        assert(views(t_ecx@) =~= ftr_80_01_ecx_x0());
    }
    let mut buff = str_detect_ftr(ecx, t_ecx.as_slice());

    let edx_b = Reg::new(edx).to_bool_array();
    if edx_b[31] {
        let v: [(bool, &str); 1] = [(edx_b[30], "EXT")];
        proof {
            assert(pair_views(v@) =~= seq![(bit32(edx, 30), "EXT"@)]);
        }
        let tdnow = ftr_variant_expand("3DNow!", v.as_slice());
        buff.push(tdnow);
    }
    proof {
        assert(views(buff@) =~= feature_80_01h_tokens(ecx, edx));
    }
    align_mold_ftr(buff.as_slice())
}

/// A number in decimal, space-padded to at least two characters.
pub open spec fn dec_pad2(n: nat) -> Seq<char> {
    dec_padded(n, 2)
}

/// The address-size text of leaf 0x8000_0008: physical then virtual width
/// in bits, the second on a wrapped line aligned under the first.
pub open spec fn addr_size_chars(eax: u32) -> Seq<char> {
    " [Address size: "@ + dec_pad2((eax & 0xFF) as nat) + "-bits physical "@ + padln_seq()
        + crate::strfmt::repeat_char(' ', 15) + " "@ + dec_pad2(((eax >> 8u32) & 0xFF) as nat)
        + "-bits virtual]"@
}

/// Renders the physical and virtual address widths of leaf 0x8000_0008 EAX.
pub fn addr_size_80_08h(eax: &u32) -> (r: String)
    ensures
        r@ == addr_size_chars(*eax),
{
    let phys = *eax & 0xFF;
    let virt = (*eax >> 8u32) & 0xFF;
    let mut s = String::new();
    s.append(" [Address size: ");
    push_dec_padded(&mut s, phys as u64, 2);
    s.append("-bits physical ");
    let nl = padln();
    s.append(nl.as_str());
    let sp = crate::strfmt::spaces(15);
    s.append(sp.as_str());
    s.append(" ");
    push_dec_padded(&mut s, virt as u64, 2);
    s.append("-bits virtual]");
    proof {
        assert(s@ =~= addr_size_chars(*eax));
    }
    s
}


/// Feature labels of leaf 0x7 sub-leaf 0 EBX; the AVX-512 bits are folded
/// into compound tokens and left empty here.
pub open spec fn ftr_00_07_ebx_x0() -> Seq<Seq<char>> {
    seq![
        "FSGSBASE"@, "TSC_ADJUST"@, "SGX"@, "BMI1"@, "HLE"@, "AVX2"@, ""@, "SMEP"@,
        "BMI2"@, "ERMS"@, "INVPCID"@, "RTM"@, "PQM"@, ""@, "MPX"@, "PQE"@,
        ""@, ""@, "RDSEED"@, "ADX"@, "SMAP"@, ""@, ""@, "CLFLUSHOPT"@,
        "CLWB"@, ""@, ""@, ""@, ""@, "SHA"@, ""@, ""@,
    ]
}

/// Feature labels of leaf 0x7 sub-leaf 0 ECX; the AVX-512 bits are folded
/// into compound tokens and left empty here.
pub open spec fn ftr_00_07_ecx_x0() -> Seq<Seq<char>> {
    seq![
        "PREFETCHWT1"@, ""@, "UMIP"@, "PKU"@, "OSPKE"@, "WAITPKG"@, ""@, "CET_SS"@,
        "GFNI"@, "VAES"@, "VPCLMULQDQ"@, ""@, ""@, "TME"@, ""@, ""@,
        "LA57"@, ""@, ""@, ""@, ""@, ""@, "RDPID"@, "KL"@,
        "BUS_LOCK_DETECT"@, "CLDEMOTE"@, ""@, "MOVDIRI"@, "MOVDIR64B"@, "ENQCMD"@, "SGX_LC"@, "PKS"@,
    ]
}

/// Feature labels of leaf 0x7 sub-leaf 0 EDX; the AVX-512 and AMX bits are
/// folded into compound tokens and left empty here.
pub open spec fn ftr_00_07_edx_x0() -> Seq<Seq<char>> {
    seq![
        ""@, ""@, ""@, ""@, "FSRM"@, "UINTR"@, ""@, ""@,
        ""@, "SRBDS_CTRL"@, "MD_CLEAR"@, "RTM_ALWAYS_ABORT"@, ""@, "TSX_FORCE_ABORT"@, "SERIALIZE"@, "HYBRID"@,
        "TSXLDTRK"@, ""@, "PCONFIG"@, ""@, "CET_IBT"@, ""@, ""@, ""@,
        ""@, ""@, "IBRS_IBPB"@, "STIBP"@, "L1D_FLUSH"@, ""@, ""@, "SSBD"@,
    ]
}

/// The AVX-512 compound token of leaf 0x7 EBX.
pub open spec fn avx512_ebx_variant(ebx: u32) -> Seq<char> {
    variant_expand(
        "AVX512"@,
        seq![
            (bit32(ebx, 16), "F"@),
            (bit32(ebx, 17), "DQ"@),
            (bit32(ebx, 21), "IFMA"@),
            (bit32(ebx, 28), "CD"@),
            (bit32(ebx, 30), "BW"@),
            (bit32(ebx, 31), "VL"@),
        ],
    )
}

/// The AVX-512 compound token of leaf 0x7 ECX.
pub open spec fn avx512_ecx_variant(ecx: u32) -> Seq<char> {
    variant_expand(
        "AVX512"@,
        seq![
            (bit32(ecx, 1), "VBMI"@),
            (bit32(ecx, 6), "VBMI2"@),
            (bit32(ecx, 11), "VNNI"@),
            (bit32(ecx, 12), "BITALG"@),
            (bit32(ecx, 14), "VPOPCNTDQ"@),
        ],
    )
}

/// The AVX-512 compound token of leaf 0x7 EDX.
pub open spec fn avx512_edx_variant(edx: u32) -> Seq<char> {
    variant_expand(
        "AVX512"@,
        seq![(bit32(edx, 8), "VP2INTERSECT"@), (bit32(edx, 23), "FP16"@)],
    )
}

/// The AVX-512 group segment of leaf 0x7 EBX: one compound token when any
/// member bit is set, else nothing.
pub open spec fn seg_avx512_ebx(ebx: u32) -> Seq<Seq<char>> {
    if bit32(ebx, 16) || bit32(ebx, 17) || bit32(ebx, 21) || bit32(ebx, 28) || bit32(ebx, 30)
        || bit32(ebx, 31) {
        seq![avx512_ebx_variant(ebx)]
    } else {
        Seq::empty()
    }
}

/// The fixed Xeon Phi pair of leaf 0x7 EBX, present only when both bits are
/// set.
pub open spec fn seg_avx512_pf_er(ebx: u32) -> Seq<Seq<char>> {
    if bit32(ebx, 26) && bit32(ebx, 27) {
        seq!["AVX512{PF,ER}"@]
    } else {
        Seq::empty()
    }
}

/// The AVX-512 group segment of leaf 0x7 ECX.
pub open spec fn seg_avx512_ecx(ecx: u32) -> Seq<Seq<char>> {
    if bit32(ecx, 1) || bit32(ecx, 6) || bit32(ecx, 11) || bit32(ecx, 12) || bit32(ecx, 14) {
        seq![avx512_ecx_variant(ecx)]
    } else {
        Seq::empty()
    }
}

/// The fixed Xeon Phi pair of leaf 0x7 EDX, present only when both bits are
/// set.
pub open spec fn seg_avx512_vnniw_fmaps(edx: u32) -> Seq<Seq<char>> {
    if bit32(edx, 2) && bit32(edx, 3) {
        seq!["AVX512{4VNNIW,4FMAPS}"@]
    } else {
        Seq::empty()
    }
}

/// The AVX-512 group segment of leaf 0x7 EDX.
pub open spec fn seg_avx512_edx(edx: u32) -> Seq<Seq<char>> {
    if bit32(edx, 8) || bit32(edx, 23) {
        seq![avx512_edx_variant(edx)]
    } else {
        Seq::empty()
    }
}

/// The AMX group of leaf 0x7 EDX, present only when all three bits are set.
pub open spec fn seg_amx(edx: u32) -> Seq<Seq<char>> {
    if bit32(edx, 22) && bit32(edx, 24) && bit32(edx, 25) {
        seq!["AMX{BF16,TILE,INT8}"@]
    } else {
        Seq::empty()
    }
}

/// Appends the AVX-512 group token of leaf 0x7 EBX, if any, to `buff`.
fn push_avx512_ebx(ebx: u32, buff: &mut Vec<String>)
    ensures
        views(final(buff)@) == views(old(buff)@) + seg_avx512_ebx(ebx),
{
    let b = Reg::new(ebx).to_bool_array();
    if b[16] || b[17] || b[21] || b[28] || b[30] || b[31] {
        let v: [(bool, &str); 6] = [
            (b[16], "F"),
            (b[17], "DQ"),
            (b[21], "IFMA"),
            (b[28], "CD"),
            (b[30], "BW"),
            (b[31], "VL"),
        ];
        proof {
            assert(pair_views(v@) =~= seq![
                (bit32(ebx, 16), "F"@),
                (bit32(ebx, 17), "DQ"@),
                (bit32(ebx, 21), "IFMA"@),
                (bit32(ebx, 28), "CD"@),
                (bit32(ebx, 30), "BW"@),
                (bit32(ebx, 31), "VL"@),
            ]);
        }
        let avx512 = ftr_variant_expand("AVX512", v.as_slice());
        buff.push(avx512);
    }
    proof {
        assert(views(buff@) =~= views(old(buff)@) + seg_avx512_ebx(ebx));
    }
}

/// Appends the fixed Xeon Phi pair of leaf 0x7 EBX, if present, to `buff`.
fn push_avx512_pf_er(ebx: u32, buff: &mut Vec<String>)
    ensures
        views(final(buff)@) == views(old(buff)@) + seg_avx512_pf_er(ebx),
{
    let b = Reg::new(ebx).to_bool_array();
    if b[26] && b[27] {
        buff.push("AVX512{PF,ER}".to_owned());
    }
    proof {
        assert(views(buff@) =~= views(old(buff)@) + seg_avx512_pf_er(ebx));
    }
}

/// Appends the AVX-512 group token of leaf 0x7 ECX, if any, to `buff`.
fn push_avx512_ecx(ecx: u32, buff: &mut Vec<String>)
    ensures
        views(final(buff)@) == views(old(buff)@) + seg_avx512_ecx(ecx),
{
    let b = Reg::new(ecx).to_bool_array();
    if b[1] || b[6] || b[11] || b[12] || b[14] {
        let v: [(bool, &str); 5] = [
            (b[1], "VBMI"),
            (b[6], "VBMI2"),
            (b[11], "VNNI"),
            (b[12], "BITALG"),
            (b[14], "VPOPCNTDQ"),
        ];
        proof {
            assert(pair_views(v@) =~= seq![
                (bit32(ecx, 1), "VBMI"@),
                (bit32(ecx, 6), "VBMI2"@),
                (bit32(ecx, 11), "VNNI"@),
                (bit32(ecx, 12), "BITALG"@),
                (bit32(ecx, 14), "VPOPCNTDQ"@),
            ]);
        }
        let avx512 = ftr_variant_expand("AVX512", v.as_slice());
        buff.push(avx512);
    }
    proof {
        assert(views(buff@) =~= views(old(buff)@) + seg_avx512_ecx(ecx));
    }
}

/// Appends the remaining EDX group tokens of leaf 0x7, in order, to `buff`.
fn push_avx512_edx_groups(edx: u32, buff: &mut Vec<String>)
    ensures
        views(final(buff)@) == views(old(buff)@) + seg_avx512_vnniw_fmaps(edx) + seg_avx512_edx(
            edx,
        ) + seg_amx(edx),
{
    let b = Reg::new(edx).to_bool_array();
    if b[2] && b[3] {
        buff.push("AVX512{4VNNIW,4FMAPS}".to_owned());
    }
    proof {
        assert(views(buff@) =~= views(old(buff)@) + seg_avx512_vnniw_fmaps(edx));
    }
    let ghost mid = views(buff@);
    if b[8] || b[23] {
        let v: [(bool, &str); 2] = [(b[8], "VP2INTERSECT"), (b[23], "FP16")];
        proof {
            assert(pair_views(v@) =~= seq![
                (bit32(edx, 8), "VP2INTERSECT"@),
                (bit32(edx, 23), "FP16"@),
            ]);
        }
        let avx512 = ftr_variant_expand("AVX512", v.as_slice());
        buff.push(avx512);
    }
    proof {
        assert(views(buff@) =~= mid + seg_avx512_edx(edx));
    }
    let ghost mid2 = views(buff@);
    if b[22] && b[24] && b[25] {
        buff.push("AMX{BF16,TILE,INT8}".to_owned());
    }
    proof {
        assert(views(buff@) =~= mid2 + seg_amx(edx));
        assert(views(buff@) =~= views(old(buff)@) + seg_avx512_vnniw_fmaps(edx) + seg_avx512_edx(
            edx,
        ) + seg_amx(edx));
    }
}

/// The decoded tokens of leaf 0x7 sub-leaf 0: the EBX/ECX/EDX table hits,
/// then the compound AVX-512 and AMX tokens.
pub open spec fn feature_00_07h_x0_tokens(ebx: u32, ecx: u32, edx: u32) -> Seq<Seq<char>> {
    detect(ebx, ftr_00_07_ebx_x0()) + detect(ecx, ftr_00_07_ecx_x0()) + detect(
        edx,
        ftr_00_07_edx_x0(),
    ) + seg_avx512_ebx(ebx) + seg_avx512_pf_er(ebx) + seg_avx512_ecx(ecx)
        + seg_avx512_vnniw_fmaps(edx) + seg_avx512_edx(edx) + seg_amx(edx)
}

/// Decodes the feature bits of leaf 0x7 sub-leaf 0 (EBX, ECX and EDX),
/// including the compound AVX-512 and AMX group tokens, into wrapped token
/// text.
#[verifier::rlimit(100)]
pub fn feature_00_07h_x0(cpuid: &CpuidResult) -> (r: String)
    ensures
        r@ == mold(feature_00_07h_x0_tokens(cpuid.ebx, cpuid.ecx, cpuid.edx), PARSE_WIDTH as nat),
{
    let ebx = cpuid.ebx;
    let ecx = cpuid.ecx;
    let edx = cpuid.edx;
    let t_ebx: [&str; 32] = [
        "FSGSBASE", "TSC_ADJUST", "SGX", "BMI1", "HLE", "AVX2", "", "SMEP",
        "BMI2", "ERMS", "INVPCID", "RTM", "PQM", "", "MPX", "PQE",
        "", "", "RDSEED", "ADX", "SMAP", "", "", "CLFLUSHOPT",
        "CLWB", "", "", "", "", "SHA", "", "",
    ];
    let t_ecx: [&str; 32] = [
        "PREFETCHWT1", "", "UMIP", "PKU", "OSPKE", "WAITPKG", "", "CET_SS",
        "GFNI", "VAES", "VPCLMULQDQ", "", "", "TME", "", "",
        "LA57", "", "", "", "", "", "RDPID", "KL",
        "BUS_LOCK_DETECT", "CLDEMOTE", "", "MOVDIRI", "MOVDIR64B", "ENQCMD", "SGX_LC", "PKS",
    ];
    let t_edx: [&str; 32] = [
        "", "", "", "", "FSRM", "UINTR", "", "",
        "", "SRBDS_CTRL", "MD_CLEAR", "RTM_ALWAYS_ABORT", "", "TSX_FORCE_ABORT", "SERIALIZE", "HYBRID",
        "TSXLDTRK", "", "PCONFIG", "", "CET_IBT", "", "", "",
        "", "", "IBRS_IBPB", "STIBP", "L1D_FLUSH", "", "", "SSBD",
    ];
    proof {
        assert(views(t_ebx@) =~= ftr_00_07_ebx_x0());
        assert(views(t_ecx@) =~= ftr_00_07_ecx_x0());
        assert(views(t_edx@) =~= ftr_00_07_edx_x0());
    }
    let mut buff = str_detect_ftr(ebx, t_ebx.as_slice());
    let mut more_ecx = str_detect_ftr(ecx, t_ecx.as_slice());
    buff.append(&mut more_ecx);
    let mut more_edx = str_detect_ftr(edx, t_edx.as_slice());
    buff.append(&mut more_edx);
    proof {
        assert(views(buff@) =~= detect(ebx, ftr_00_07_ebx_x0()) + detect(ecx, ftr_00_07_ecx_x0())
            + detect(edx, ftr_00_07_edx_x0()));
    }
    let ghost base = views(buff@);
    push_avx512_ebx(ebx, &mut buff);
    push_avx512_pf_er(ebx, &mut buff);
    push_avx512_ecx(ecx, &mut buff);
    push_avx512_edx_groups(edx, &mut buff);
    proof {
        assert(views(buff@) =~= feature_00_07h_x0_tokens(ebx, ecx, edx));
    }
    align_mold_ftr(buff.as_slice())
}


/// Labels of the extended-state components listed by leaf 0xD sub-leaf 0
/// EAX.
pub open spec fn xfeature_mask_00_0d_eax_x0() -> Seq<Seq<char>> {
    seq![
        "X87"@, "SSE"@, "AVX"@, "BNDREGS"@, "BNDCSR"@, "Opmask"@, "ZMM_Hi256"@, "Hi16_ZMM"@,
        ""@, "PKRU"@, ""@, "CET_U"@, "CET_S"@, ""@, ""@, ""@,
        ""@, "XTILECFG"@, "XTILEDATA"@, ""@, ""@, ""@, ""@, ""@,
        ""@, ""@, ""@, ""@, ""@, ""@, ""@, ""@,
    ]
}

/// Labels of the XSAVE capability bits of leaf 0xD sub-leaf 1 EAX.
pub open spec fn xsave_00_0d_eax_x1() -> Seq<Seq<char>> {
    seq![
        "XSAVEOPT"@, "XSAVEC"@, "XGETBV"@, "XSAVES"@, "XFD"@, ""@, ""@, ""@,
        ""@, ""@, ""@, ""@, ""@, ""@, ""@, ""@,
        ""@, ""@, ""@, ""@, ""@, ""@, ""@, ""@,
        ""@, ""@, ""@, ""@, ""@, ""@, ""@, ""@,
    ]
}

/// The save-area size line of leaf 0xD: named component and its size, or
/// nothing when the size is zero.
pub open spec fn xstate_size_chars(eax: u32, txt: Seq<char>) -> Seq<char> {
    if eax != 0 {
        " ["@ + txt + ": size("@ + dec_digits(eax as nat) + ")]"@
    } else {
        Seq::empty()
    }
}

/// The decoded text of leaf 0xD for one sub-leaf: sub-leaf 0 lists the
/// supported extended-state components under a heading, sub-leaf 1 the
/// XSAVE capability bits, and the named size sub-leaves their save-area
/// size when it is not zero.
pub open spec fn xstate_00_0dh_chars(sub_leaf: u32, eax: u32) -> Seq<char> {
    if sub_leaf == 0 {
        let tmp = mold(detect(eax, xfeature_mask_00_0d_eax_x0()), PARSE_WIDTH as nat);
        if tmp.len() > 0 {
            " [XFEATURE Mask:]"@ + padln_seq() + tmp
        } else {
            tmp
        }
    } else if sub_leaf == 1 {
        mold(detect(eax, xsave_00_0d_eax_x1()), PARSE_WIDTH as nat)
    } else if sub_leaf == 2 {
        xstate_size_chars(eax, "XSTATE"@)
    } else if sub_leaf == 9 {
        xstate_size_chars(eax, "Protection Key"@)
    } else if sub_leaf == 0xB {
        xstate_size_chars(eax, "CET User"@)
    } else if sub_leaf == 0xC {
        xstate_size_chars(eax, "CET SuperVisor"@)
    } else {
        Seq::empty()
    }
}

/// Appends the save-area size line of one leaf 0xD sub-leaf to `s`: the
/// component name and its size in bytes, omitted entirely when the
/// reported size is zero.
fn push_xstate_size(s: &mut String, eax: u32, txt: &str)
    ensures
        final(s)@ == old(s)@ + xstate_size_chars(eax, txt@),
{
    if eax != 0 {
        s.append(" [");
        s.append(txt);
        s.append(": size(");
        push_dec(s, eax as u64);
        s.append(")]");
        proof {
            assert(final(s)@ =~= old(s)@ + xstate_size_chars(eax, txt@));
        }
    }
}

/// Decodes one sub-leaf of the extended-state enumeration leaf 0xD.
pub fn xstate_00_0dh(cpuid: &RawCpuid) -> (r: String)
    ensures
        r@ == xstate_00_0dh_chars(cpuid.sub_leaf, cpuid.result.eax),
{
    let eax = cpuid.result.eax;
    match cpuid.sub_leaf {
        0 => {
            let t: [&str; 32] = [
                "X87", "SSE", "AVX", "BNDREGS", "BNDCSR", "Opmask", "ZMM_Hi256", "Hi16_ZMM",
                "", "PKRU", "", "CET_U", "CET_S", "", "", "",
                "", "XTILECFG", "XTILEDATA", "", "", "", "", "",
                "", "", "", "", "", "", "", "",
            ];
            proof {
                assert(views(t@) =~= xfeature_mask_00_0d_eax_x0());
            }
            let buff = str_detect_ftr(eax, t.as_slice());
            let tmp = align_mold_ftr(buff.as_slice());
            if !tmp.as_str().is_empty() {
                let mut s = String::new();
                s.append(" [XFEATURE Mask:]");
                let nl = padln();
                s.append(nl.as_str());
                s.append(tmp.as_str());
                proof {
                    assert(s@ =~= xstate_00_0dh_chars(0, eax));
                }
                s
            } else {
                tmp
            }
        },
        1 => {
            let t: [&str; 32] = [
                "XSAVEOPT", "XSAVEC", "XGETBV", "XSAVES", "XFD", "", "", "",
                "", "", "", "", "", "", "", "",
                "", "", "", "", "", "", "", "",
                "", "", "", "", "", "", "", "",
            ];
            proof {
                assert(views(t@) =~= xsave_00_0d_eax_x1());
            }
            let buff = str_detect_ftr(eax, t.as_slice());
            align_mold_ftr(buff.as_slice())
        },
        2 => {
            let mut s = String::new();
            push_xstate_size(&mut s, eax, "XSTATE");
            s
        },
        9 => {
            let mut s = String::new();
            push_xstate_size(&mut s, eax, "Protection Key");
            s
        },
        0xB => {
            let mut s = String::new();
            push_xstate_size(&mut s, eax, "CET User");
            s
        },
        0xC => {
            let mut s = String::new();
            push_xstate_size(&mut s, eax, "CET SuperVisor");
            s
        },
        _ => String::new(),
    }
}

/// The twelve vendor-string bytes of leaf 0: the bytes of ebx, edx, ecx in
/// little-endian order, control bytes as spaces.
pub open spec fn vendor_bytes(c: CpuidResult) -> Seq<u8> {
    (crate::parse_util::le_bytes(c.ebx) + crate::parse_util::le_bytes(c.edx)
        + crate::parse_util::le_bytes(c.ecx)).map_values(
        |b: u8| crate::parse_util::printable_byte(b),
    )
}

/// The vendor line of leaf 0: the twelve-character vendor identification
/// string carried in ebx, edx, ecx, as one bracketed segment.
pub fn vendor_00_00h(cpuid: &CpuidResult) -> (r: String)
    requires
        forall|i: int| 0 <= i < 12 ==> vendor_bytes(*cpuid)[i] < 0x80,
    ensures
        r@ == crate::parse_util::mold_piece(chars_of_bytes(vendor_bytes(*cpuid))),
{
    let mut bytes: Vec<u8> = Vec::new();
    crate::parse_util::push_printable_le_bytes(&mut bytes, cpuid.ebx);
    crate::parse_util::push_printable_le_bytes(&mut bytes, cpuid.edx);
    crate::parse_util::push_printable_le_bytes(&mut bytes, cpuid.ecx);
    proof {
        assert(bytes@ =~= vendor_bytes(*cpuid));
    }
    let name = crate::parse_util::ascii_bytes_to_string(bytes);
    let mut s = String::new();
    s.append(" [");
    s.append(name.as_str());
    s.append("]");
    proof {
        reveal_strlit(" [");
        reveal_strlit("]");
        assert(name@ =~= chars_of_bytes(vendor_bytes(*cpuid)));
        assert(s@ =~= crate::parse_util::mold_piece(chars_of_bytes(vendor_bytes(*cpuid))));
    }
    s
}

/// The synthesized family of leaf 0x1 EAX: base family plus extended
/// family.
pub open spec fn syn_fam_of(eax: u32) -> u32 {
    (((eax >> 8u32) & 0xF) + ((eax >> 20u32) & 0xFF)) as u32
}

/// The synthesized model of leaf 0x1 EAX: base model plus the extended
/// model shifted into the high nibble.
pub open spec fn syn_mod_of(eax: u32) -> u32 {
    (((eax >> 4u32) & 0xF) + ((eax >> 12u32) & 0xF0)) as u32
}

/// The stepping of leaf 0x1 EAX.
pub open spec fn step_of(eax: u32) -> u32 {
    eax & 0xF
}

/// Family, model and stepping synthesized from leaf 0x1 EAX by the fixed
/// bit-slicing formulas.
pub struct FamModStep {
    pub syn_fam: u32,
    pub syn_mod: u32,
    pub step: u32,
}

impl FamModStep {
    /// Slices family, model and stepping out of leaf 0x1 EAX.
    pub fn from_eax(eax: u32) -> (r: FamModStep)
        ensures
            r.syn_fam == syn_fam_of(eax),
            r.syn_mod == syn_mod_of(eax),
            r.step == step_of(eax),
    {
        proof {
            assert(((eax >> 8u32) & 0xF) + ((eax >> 20u32) & 0xFF) < 0x1000 && ((eax >> 4u32)
                & 0xF) + ((eax >> 12u32) & 0xF0) < 0x1000) by (bit_vector);
        }
        FamModStep {
            syn_fam: ((eax >> 8) & 0xF) + ((eax >> 20) & 0xFF),
            syn_mod: ((eax >> 4) & 0xF) + ((eax >> 12) & 0xF0),
            step: eax & 0xF,
        }
    }
}

/// The info lines of leaf 0x1: family/model/stepping, the supplied
/// codename, the initial APIC ID, the thread count and the CLFLUSH line
/// size in bytes, each as one bracketed segment on its own wrapped line.
pub open spec fn info_00_01h_chars(eax: u32, ebx: u32, codename: Seq<char>) -> Seq<char> {
    " [F: 0x"@ + crate::strfmt::hex_min_upper(syn_fam_of(eax) as nat) + ", M: 0x"@
        + crate::strfmt::hex_min_upper(syn_mod_of(eax) as nat) + ", S: 0x"@
        + crate::strfmt::hex_min_upper(step_of(eax) as nat) + "]"@ + padln_seq()
        + " [Codename: "@ + codename + "]"@ + padln_seq() + " [APIC ID: "@ + dec_digits(
        (ebx >> 24u32) as nat,
    ) + "]"@ + padln_seq() + " [Total thread(s): "@ + dec_digits(((ebx >> 16u32) & 0xFF) as nat)
        + "T]"@ + padln_seq() + " [CLFlush: "@ + dec_digits((((ebx >> 8u32) & 0xFF) * 8) as nat)
        + "B]"@
}

/// Renders the identification lines of leaf 0x1: family, model and
/// stepping from EAX, then the given codename and the APIC/thread/CLFLUSH
/// fields of EBX. The codename lookup itself is left to the caller.
pub fn info_00_01h(cpuid: &CpuidResult, codename: &str) -> (r: String)
    ensures
        r@ == info_00_01h_chars(cpuid.eax, cpuid.ebx, codename@),
{
    let eax = cpuid.eax;
    let ebx = cpuid.ebx;
    let fms = FamModStep::from_eax(eax);
    let apic_id = ebx >> 24;
    let threads = (ebx >> 16) & 0xFF;
    let clflush_raw = (ebx >> 8) & 0xFF;
    proof {
        assert(((ebx >> 8u32) & 0xFF) * 8 < 0x10000) by (bit_vector);
    }
    let clflush = clflush_raw * 8;
    let nl = padln();
    let mut s = String::new();
    s.append(" [F: 0x");
    crate::strfmt::push_hex_min_upper(&mut s, fms.syn_fam);
    s.append(", M: 0x");
    crate::strfmt::push_hex_min_upper(&mut s, fms.syn_mod);
    s.append(", S: 0x");
    crate::strfmt::push_hex_min_upper(&mut s, fms.step);
    s.append("]");
    s.append(nl.as_str());
    s.append(" [Codename: ");
    s.append(codename);
    s.append("]");
    s.append(nl.as_str());
    s.append(" [APIC ID: ");
    push_dec(&mut s, apic_id as u64);
    s.append("]");
    s.append(nl.as_str());
    s.append(" [Total thread(s): ");
    push_dec(&mut s, threads as u64);
    s.append("T]");
    s.append(nl.as_str());
    s.append(" [CLFlush: ");
    push_dec(&mut s, clflush as u64);
    s.append("B]");
    proof {
        assert(s@ =~= info_00_01h_chars(eax, ebx, codename@));
    }
    s
}


/// The cache level encoded in the cache-properties leaf EAX.
pub open spec fn cache_level(eax: u32) -> u32 {
    (eax >> 5u32) & 0x7
}

/// The cache-type letter of the cache-properties leaf: data, instruction
/// or unified.
pub open spec fn cache_type_char(eax: u32) -> char {
    if eax & 0x1F == 1 {
        'D'
    } else if eax & 0x1F == 2 {
        'I'
    } else if eax & 0x1F == 3 {
        'U'
    } else {
        '?'
    }
}

/// The associativity of the cache-properties leaf EBX.
pub open spec fn cache_way(ebx: u32) -> nat {
    (((ebx >> 22u32) & 0x3FF) + 1) as nat
}

/// The cache size in bytes: ways times partitions times line size times
/// sets.
pub open spec fn cache_size(ebx: u32, ecx: u32) -> nat {
    cache_way(ebx) * ((((ebx >> 12u32) & 0x3FF) + 1) as nat) * (((ebx & 0xFFF) + 1) as nat) * (
    (ecx + 1) as nat)
}

/// The number of logical processors sharing the cache, from EAX.
pub open spec fn cache_share(eax: u32) -> nat {
    (((eax >> 14u32) & 0xFFF) + 1) as nat
}

/// The divisor of the displayed cache size: KiB below one MiB, then MiB
/// below one GiB, then GiB.
pub open spec fn cache_unit_div(size: nat) -> nat {
    if size < 0x100000 {
        0x400
    } else if size < 0x40000000 {
        0x100000
    } else {
        0x40000000
    }
}

/// The unit label of the displayed cache size.
pub open spec fn cache_unit_label(size: nat) -> Seq<char> {
    if size < 0x100000 {
        "KiB"@
    } else if size < 0x40000000 {
        "MiB"@
    } else {
        "GiB"@
    }
}

/// The cache-properties text: level and type, associativity, size with
/// unit, shared thread count and inclusiveness; empty for level zero.
pub open spec fn cache_prop_chars(c: CpuidResult) -> Seq<char> {
    if cache_level(c.eax) == 0 {
        Seq::empty()
    } else {
        " [L"@ + dec_digits(cache_level(c.eax) as nat) + seq![cache_type_char(c.eax)] + ", "@
            + dec_padded(cache_way(c.ebx), 3) + "-way, "@ + dec_padded(
            cache_size(c.ebx, c.ecx) / cache_unit_div(cache_size(c.ebx, c.ecx)),
            4,
        ) + "-"@ + cache_unit_label(cache_size(c.ebx, c.ecx)) + "]"@ + padln_seq()
            + " [Shared "@ + dec_digits(cache_share(c.eax)) + "T]"@ + (if bit32(c.edx, 1) {
            " [Inclusive]"@
        } else {
            Seq::empty()
        })
    }
}

/// Decodes one cache-properties leaf (level, type, associativity, size,
/// sharing and inclusiveness) into its bracketed lines; a level of zero
/// yields nothing.
pub fn cache_prop(cpuid: &CpuidResult) -> (r: String)
    ensures
        r@ == cache_prop_chars(*cpuid),
{
    let eax = cpuid.eax;
    let ebx = cpuid.ebx;
    let ecx = cpuid.ecx;
    let edx = cpuid.edx;
    let level = (eax >> 5) & 0x7;
    if level == 0 {
        return String::new();
    }
    let ctype = eax & 0x1F;
    proof {
        assert(((ebx >> 22u32) & 0x3FF) < 0x400 && ((ebx >> 12u32) & 0x3FF) < 0x400 && (ebx
            & 0xFFF) < 0x1000 && ((eax >> 14u32) & 0xFFF) < 0x1000) by (bit_vector);
    }
    let way: u32 = ((ebx >> 22) & 0x3FF) + 1;
    let partitions: u32 = ((ebx >> 12) & 0x3FF) + 1;
    let line: u32 = (ebx & 0xFFF) + 1;
    let share: u32 = ((eax >> 14) & 0xFFF) + 1;
    proof {
        assert((way as u128) * (partitions as u128) <= 0x100000) by (nonlinear_arith)
            requires
                way <= 0x400,
                partitions <= 0x400,
        ;
    }
    let wp: u128 = (way as u128) * (partitions as u128);
    proof {
        assert(wp * (line as u128) <= 0x100000000) by (nonlinear_arith)
            requires
                wp <= 0x100000,
                line <= 0x1000,
        ;
    }
    let wpl: u128 = wp * (line as u128);
    proof {
        assert(wpl * ((ecx as u128) + 1) <= 0x10000000000000000) by (nonlinear_arith)
            requires
                wpl <= 0x100000000,
                ecx <= 0xFFFFFFFFu32,
        ;
    }
    let size: u128 = wpl * ((ecx as u128) + 1);
    proof {
        assert(size == cache_size(ebx, ecx)) by (nonlinear_arith)
            requires
                size == wpl * ((ecx as u128) + 1),
                wpl == wp * (line as u128),
                wp == (way as u128) * (partitions as u128),
                way == cache_way(ebx),
                partitions == ((ebx >> 12u32) & 0x3FF) + 1,
                line == (ebx & 0xFFF) + 1,
                way <= 0x400,
                partitions <= 0x400,
                line <= 0x1000,
        ;
    }
    let (unit, label): (u128, &str) = if size < 0x100000 {
        (0x400, "KiB")
    } else if size < 0x40000000 {
        (0x100000, "MiB")
    } else {
        (0x40000000, "GiB")
    };
    let disp: u64 = (size / unit) as u64;
    let mut s = String::new();
    s.append(" [L");
    push_dec(&mut s, level as u64);
    s.append(cache_type_str(ctype));
    s.append(", ");
    push_dec_padded(&mut s, way as u64, 3);
    s.append("-way, ");
    push_dec_padded(&mut s, disp, 4);
    s.append("-");
    s.append(label);
    s.append("]");
    let nl = padln();
    s.append(nl.as_str());
    s.append(" [Shared ");
    push_dec(&mut s, share as u64);
    s.append("T]");
    if (edx >> 1) & 1 == 1 {
        s.append(" [Inclusive]");
    }
    proof {
        assert(s@ =~= cache_prop_chars(*cpuid));
    }
    s
}

/// The cache-type letter as a string: data, instruction, unified or
/// unknown.
fn cache_type_str(ctype: u32) -> (r: &'static str)
    ensures
        r@ =~= seq![
            (if ctype == 1 {
                'D'
            } else if ctype == 2 {
                'I'
            } else if ctype == 3 {
                'U'
            } else {
                '?'
            }),
        ],
{
    proof {
        reveal_strlit("D");
        reveal_strlit("I");
        reveal_strlit("U");
        reveal_strlit("?");
    }
    match ctype {
        1 => "D",
        2 => "I",
        3 => "U",
        _ => "?",
    }
}

} // verus!
