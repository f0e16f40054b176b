use cpuid_dump::micro_arch_level::MicroArchLevel;
use cpuid_dump::parse_generic::addr_size_80_08h;
use cpuid_dump::parse_generic::cache_prop;
use cpuid_dump::parse_generic::feature_00_01h;
use cpuid_dump::parse_generic::feature_00_07h_x0;
use cpuid_dump::parse_generic::feature_00_07h_x1;
use cpuid_dump::parse_generic::feature_80_01h;
use cpuid_dump::parse_generic::info_00_01h;
use cpuid_dump::parse_generic::vendor_00_00h;
use cpuid_dump::parse_generic::xstate_00_0dh;
use cpuid_dump::parse_generic::FamModStep;
use cpuid_dump::parse_util::align_mold_ftr;
use cpuid_dump::parse_util::concat_string_from_slice;
use cpuid_dump::parse_util::cpu_name;
use cpuid_dump::parse_util::ftr_variant_expand;
use cpuid_dump::parse_util::str_detect_ftr;
use cpuid_dump::raw_cpuid::RawCpuid;
use cpuid_dump::reg::CpuidResult;
use cpuid_dump::reg::Reg;

fn pad() -> String {
    " ".repeat(64)
}

fn padln() -> String {
    format!("\n{}", pad())
}

#[test]
fn test_micro_arch_level() {
    let cpuid_array = [
        /* 00_01 */
        CpuidResult { eax: 0x00A50F00, ebx: 0x0A0C0800, ecx: 0x7EF8320B, edx: 0x178BFBFF },
        /* 00_07 */
        CpuidResult { eax: 0x00000000, ebx: 0x219C97A9, ecx: 0x0040068C, edx: 0x00000010 },
        /* 80_01 */
        CpuidResult { eax: 0x00A50F00, ebx: 0x20000000, ecx: 0x75C237FF, edx: 0x2FD3FBFF },
    ];

    let level = MicroArchLevel::from_cpuid_array(cpuid_array);

    assert_eq!(0b0111, level.0);
}

#[test]
fn micro_arch_level_to_u8() {
    assert_eq!(MicroArchLevel(0b0001).to_u8(), 1);
    assert_eq!(MicroArchLevel(0b0011).to_u8(), 2);
    assert_eq!(MicroArchLevel(0b0111).to_u8(), 3);
    assert_eq!(MicroArchLevel(0b1111).to_u8(), 4);
    assert_eq!(MicroArchLevel(0b0101).to_u8(), 0);
    assert_eq!(MicroArchLevel(0b0000).to_u8(), 0);
}

#[test]
fn reg_bit_arrays() {
    let bits = Reg::new(0b1010).to_bit_array();
    assert_eq!(bits[0], 0);
    assert_eq!(bits[1], 1);
    assert_eq!(bits[2], 0);
    assert_eq!(bits[3], 1);
    let bools = Reg::new(0x8000_0001).to_bool_array();
    assert!(bools[0]);
    assert!(!bools[1]);
    assert!(bools[31]);
}

#[test]
fn detect_ascending_and_skips_empty() {
    let table = ["zero", "", "two", "three"];
    let found = str_detect_ftr(0b1111, &table);
    assert_eq!(found, vec!["zero".to_string(), "two".to_string(), "three".to_string()]);
    let none = str_detect_ftr(0b0010, &table);
    assert!(none.is_empty());
}

#[test]
fn concat_from_slice() {
    let parts = ["a".to_string(), "bc".to_string(), "".to_string(), "d".to_string()];
    assert_eq!(concat_string_from_slice(&parts), "abcd");
}

/// A compound register decode keeps the declared suffix order and omits
/// unset members: the six-member AVX-512 table with the IFMA bit unset.
#[test]
fn compound_decode_example() {
    let v = [
        (true, "F"),
        (true, "DQ"),
        (false, "IFMA"),
        (true, "CD"),
        (true, "BW"),
        (true, "VL"),
    ];
    assert_eq!(ftr_variant_expand("AVX512", &v), "AVX512{F,DQ,CD,BW,VL}");

    let ebx = (1u32 << 16) | (1 << 17) | (1 << 28) | (1 << 30) | (1 << 31);
    let cpuid = CpuidResult { eax: 0, ebx, ecx: 0, edx: 0 };
    assert_eq!(feature_00_07h_x0(&cpuid), " [AVX512{F,DQ,CD,BW,VL}]");
}

#[test]
fn compound_decode_no_member() {
    // With no selected suffix the opening brace is dropped.
    let v = [(false, "EXT")];
    assert_eq!(ftr_variant_expand("3DNow!", &v), "3DNow!}");
}

/// The SSE variant decode: EDX bit 25 governs, bit 26 selects "2", the ECX
/// members stay unset.
#[test]
fn variant_decode_example() {
    let edx = (1u32 << 25) | (1 << 26);
    let cpuid = CpuidResult { eax: 0, ebx: 0, ecx: 0, edx };
    assert_eq!(feature_00_01h(&cpuid), " [SSE{2}]");
}

/// A token whose decorated length exactly equals the remaining budget is
/// appended inline; one character more forces a wrapped, indented line.
#[test]
fn word_wrap_boundary() {
    // Budget is 36 columns; " [token]" costs token length + 3.
    let exact = ["x".repeat(33)];
    assert_eq!(align_mold_ftr(&exact), format!(" [{}]", exact[0]));

    let over = ["x".repeat(34)];
    assert_eq!(align_mold_ftr(&over), format!("{} [{}]", padln(), over[0]));
}

#[test]
fn word_wrap_mid_line_boundary() {
    // After " [aaaaaaaaaa]" 23 columns remain; a 20-character token
    // decorates to exactly 23 and stays inline; the next token wraps.
    let tokens = ["a".repeat(10), "b".repeat(20), "c".to_string()];
    let expect = format!(" [{}] [{}]{} [c]", tokens[0], tokens[1], padln());
    assert_eq!(align_mold_ftr(&tokens), expect);
}

#[test]
fn vendor_leaf_decode() {
    let intel = CpuidResult { eax: 0x16, ebx: 0x756E6547, ecx: 0x6C65746E, edx: 0x49656E69 };
    assert_eq!(vendor_00_00h(&intel), " [GenuineIntel]");
    let amd = CpuidResult { eax: 0x10, ebx: 0x68747541, ecx: 0x444D4163, edx: 0x69746E65 };
    assert_eq!(vendor_00_00h(&amd), " [AuthenticAMD]");
}

#[test]
fn cpu_name_replaces_control_bytes() {
    let regs = CpuidResult { eax: 0x44434241, ebx: 0x48474645, ecx: 0x4C4B4A49, edx: 0x504F4E4D };
    assert_eq!(cpu_name(&regs), "ABCDEFGHIJKLMNOP");
    let with_ctl = CpuidResult { eax: 0x44430141, ebx: 0x48474645, ecx: 0x4C4B4A49, edx: 0x504F4E4D };
    assert_eq!(cpu_name(&with_ctl), "A CDEFGHIJKLMNOP");
}

#[test]
fn fam_mod_step_formulas() {
    let fms = FamModStep::from_eax(0x00A50F00);
    assert_eq!(fms.syn_fam, 0x19);
    assert_eq!(fms.syn_mod, 0x50);
    assert_eq!(fms.step, 0x0);
}

#[test]
fn info_leaf_lines() {
    let cpuid = CpuidResult { eax: 0x00A50F00, ebx: 0x0A0C0800, ecx: 0, edx: 0 };
    let expect = format!(
        " [F: 0x19, M: 0x50, S: 0x0]{p} [Codename: TestChip]{p} [APIC ID: 10]{p} [Total thread(s): 12T]{p} [CLFlush: 64B]",
        p = padln(),
    );
    assert_eq!(info_00_01h(&cpuid, "TestChip"), expect);
}

#[test]
fn extended_feature_leaf() {
    // 3DNow! base bit with the extension bit set.
    let edx = (1u32 << 31) | (1 << 30);
    let cpuid = CpuidResult { eax: 0, ebx: 0, ecx: 0, edx };
    assert_eq!(feature_80_01h(&cpuid), " [3DNow!{EXT}]");
}

#[test]
fn leaf7_subleaf1_features() {
    let eax = (1u32 << 4) | (1 << 5);
    assert_eq!(feature_00_07h_x1(&eax), " [AVX_VNNI] [AVX512_BF16]");
}

#[test]
fn xstate_size_subleaves() {
    let rc = RawCpuid {
        leaf: 0xD,
        sub_leaf: 0x2,
        result: CpuidResult { eax: 832, ebx: 0, ecx: 0, edx: 0 },
    };
    assert_eq!(xstate_00_0dh(&rc), " [XSTATE: size(832)]");

    let zero = RawCpuid {
        leaf: 0xD,
        sub_leaf: 0x2,
        result: CpuidResult { eax: 0, ebx: 0, ecx: 0, edx: 0 },
    };
    assert_eq!(xstate_00_0dh(&zero), "");

    let mask = RawCpuid {
        leaf: 0xD,
        sub_leaf: 0x0,
        result: CpuidResult { eax: 0b11, ebx: 0, ecx: 0, edx: 0 },
    };
    assert_eq!(xstate_00_0dh(&mask), format!(" [XFEATURE Mask:]{} [X87] [SSE]", padln()));
}

#[test]
fn address_size_leaf() {
    let eax = 48u32 | (48 << 8);
    let expect = format!(
        " [Address size: 48-bits physical {}{} 48-bits virtual]",
        padln(),
        " ".repeat(15),
    );
    assert_eq!(addr_size_80_08h(&eax), expect);
}

#[test]
fn cache_properties_line() {
    // L1 data cache, 8-way, 64-byte lines, 64 sets, shared by 2 threads:
    // 32 KiB total.
    let eax = 1u32 | (1 << 5) | (1 << 14);
    let ebx = (7u32 << 22) | 63;
    let ecx = 63u32;
    let cpuid = CpuidResult { eax, ebx, ecx, edx: 0 };
    let expect = format!(" [L1D,   8-way,   32-KiB]{} [Shared 2T]", padln());
    assert_eq!(cache_prop(&cpuid), expect);

    let inclusive = CpuidResult { eax, ebx, ecx, edx: 0b10 };
    let expect2 = format!(" [L1D,   8-way,   32-KiB]{} [Shared 2T] [Inclusive]", padln());
    assert_eq!(cache_prop(&inclusive), expect2);

    let level0 = CpuidResult { eax: 0, ebx, ecx, edx: 0 };
    assert_eq!(cache_prop(&level0), "");
}

#[test]
fn xstate_named_components() {
    let sized = |sub_leaf: u32, eax: u32| RawCpuid {
        leaf: 0xD,
        sub_leaf,
        result: CpuidResult { eax, ebx: 0, ecx: 0, edx: 0 },
    };
    assert_eq!(xstate_00_0dh(&sized(0x9, 64)), " [Protection Key: size(64)]");
    assert_eq!(xstate_00_0dh(&sized(0xB, 16)), " [CET User: size(16)]");
    assert_eq!(xstate_00_0dh(&sized(0xC, 24)), " [CET SuperVisor: size(24)]");
    assert_eq!(xstate_00_0dh(&sized(0x1, 0b1)), " [XSAVEOPT]");
    // Sub-leaves outside the dispatch table decode to nothing.
    assert_eq!(xstate_00_0dh(&sized(0x5, 123)), "");
}
