use cpuid_dump::leaf_plan::leaf_pool;
use cpuid_dump::opt::bin_head;
use cpuid_dump::opt::hex_head;
use cpuid_dump::opt::topo_info_head;
use cpuid_dump::opt::topo_info_thread_id_head;
use cpuid_dump::opt::DumpFormat;
use cpuid_dump::opt::MainOpt;
use cpuid_dump::opt::TopoInfo;
use cpuid_dump::pool::assemble_blocks;
use cpuid_dump::pool::diff_sample;
use cpuid_dump::pool::filter_pool;
use cpuid_dump::raw_cpuid::CpuVendor;
use cpuid_dump::raw_cpuid::RawCpuid;
use cpuid_dump::reg::CpuidResult;

fn entry(leaf: u32, sub_leaf: u32, eax: u32) -> RawCpuid {
    RawCpuid { leaf, sub_leaf, result: CpuidResult { eax, ebx: 0, ecx: 0, edx: 0 } }
}

/// Two plan builds from identical discovery inputs yield identical,
/// order-preserving sequences.
#[test]
fn plan_determinism() {
    let first = leaf_pool(0xD, 0x2, 0x8000_0008);
    let second = leaf_pool(0xD, 0x2, 0x8000_0008);
    assert_eq!(first, second);
}

#[test]
fn plan_contents_small() {
    let plan = leaf_pool(0x1, 0x0, 0x8000_0000);
    let expect: Vec<(u32, u32)> = vec![
        (0x0, 0x0),
        (0x1, 0x0),
        (0x1F, 0x0),
        (0x1F, 0x1),
        (0x1F, 0x2),
        (0x1F, 0x3),
        (0x1F, 0x4),
        (0x8000_0000, 0x0),
    ];
    assert_eq!(plan, expect);
}

#[test]
fn plan_expands_sub_leaves() {
    let plan = leaf_pool(0x7, 0x1, 0x0);
    // Leaves 0..=7: leaf 4 expands to five sub-leaves, leaf 7 to two.
    let mut expect: Vec<(u32, u32)> = Vec::new();
    for leaf in 0x0..=0x3u32 {
        expect.push((leaf, 0x0));
    }
    for sub_leaf in 0x0..=0x4u32 {
        expect.push((0x4, sub_leaf));
    }
    expect.push((0x5, 0x0));
    expect.push((0x6, 0x0));
    expect.push((0x7, 0x0));
    expect.push((0x7, 0x1));
    for sub_leaf in 0x0..=0x4u32 {
        expect.push((0x1F, sub_leaf));
    }
    // An extended discovery value below 0x8000_0000 leaves no extended
    // segment.
    assert_eq!(plan, expect);
}

#[test]
fn plan_extended_expansions() {
    let plan = leaf_pool(0x0, 0x0, 0x8000_0020);
    let tail: Vec<(u32, u32)> = plan.iter().copied().filter(|e| e.0 == 0x8000_001D || e.0 == 0x8000_0020).collect();
    let expect: Vec<(u32, u32)> = vec![
        (0x8000_001D, 0x0),
        (0x8000_001D, 0x1),
        (0x8000_001D, 0x2),
        (0x8000_001D, 0x3),
        (0x8000_001D, 0x4),
        (0x8000_0020, 0x0),
        (0x8000_0020, 0x1),
    ];
    assert_eq!(tail, expect);
}

/// An all-zero capture is excluded when zero-skip is enabled and kept,
/// rendered as an all-zero raw line, when it is disabled.
#[test]
fn zero_register_leaf() {
    let zero = entry(0x2, 0x0, 0);
    let live = entry(0x1, 0x0, 0x16);

    let skipped = filter_pool(true, vec![live, zero, live]);
    assert_eq!(skipped, vec![live, live]);

    let kept = filter_pool(false, vec![live, zero]);
    assert_eq!(kept, vec![live, zero]);

    assert_eq!(
        zero.raw_fmt(),
        "  0x00000002 0x0:  0x00000000 0x00000000 0x00000000 0x00000000\n",
    );
}

/// With diffing enabled and equal-length samples, exactly the positions
/// that differ survive; with diffing disabled the sample is unchanged.
#[test]
fn diff_correctness() {
    let base = vec![entry(0, 0, 1), entry(1, 0, 2), entry(2, 0, 3)];
    let same_mid = vec![entry(0, 0, 1), entry(1, 0, 9), entry(2, 0, 3)];

    let diffed = diff_sample(true, &base, same_mid.clone());
    assert_eq!(diffed, vec![entry(1, 0, 9)]);

    let untouched = diff_sample(false, &base, same_mid.clone());
    assert_eq!(untouched, same_mid);

    let equal = diff_sample(true, &base, base.clone());
    assert!(equal.is_empty());
}

/// Blocks gathered out of completion order are assembled in ascending
/// processor-id order.
#[test]
fn ordering_end_to_end() {
    let blocks: Vec<(usize, Vec<u8>)> = vec![
        (2, b"cpu2 ".to_vec()),
        (0, b"cpu0 ".to_vec()),
        (3, b"cpu3 ".to_vec()),
        (1, b"cpu1 ".to_vec()),
    ];
    let out = assemble_blocks(blocks);
    assert_eq!(out, b"cpu0 cpu1 cpu2 cpu3 ".to_vec());
}

#[test]
fn parse_value_forms() {
    assert_eq!(MainOpt::parse_value("123"), Some(123));
    assert_eq!(MainOpt::parse_value("0x8000_0008"), Some(0x8000_0008));
    assert_eq!(MainOpt::parse_value("0xff"), Some(255));
    assert_eq!(MainOpt::parse_value("0xFF"), Some(255));
    assert_eq!(MainOpt::parse_value("4_294_967_295"), Some(u32::MAX));
    assert_eq!(MainOpt::parse_value("+7"), Some(7));
    assert_eq!(MainOpt::parse_value("4294967296"), None);
    assert_eq!(MainOpt::parse_value("0x1_0000_0000"), None);
    assert_eq!(MainOpt::parse_value(""), None);
    assert_eq!(MainOpt::parse_value("0x"), None);
    assert_eq!(MainOpt::parse_value("0xZZ"), None);
    assert_eq!(MainOpt::parse_value("12a"), None);
    assert_eq!(MainOpt::parse_value("-3"), None);
    assert_eq!(MainOpt::parse_value("0x1F"), Some(0x1F));
}

#[test]
fn default_configuration() {
    let opt = MainOpt::init();
    assert!(matches!(opt.fmt, DumpFormat::Parse));
    assert!(!opt.dump_all);
    assert!(opt.save_path.is_none());
    assert!(opt.leaf.is_none());
    assert!(opt.skip_zero);
    assert!(opt.diff);
}

#[test]
fn compat_format_line() {
    let rc = RawCpuid {
        leaf: 0x0,
        sub_leaf: 0x0,
        result: CpuidResult { eax: 0x16, ebx: 0x756E6547, ecx: 0x6C65746E, edx: 0x49656E69 },
    };
    assert_eq!(
        rc.compat_fmt(),
        "   0x00000000 0x00: eax=0x00000016 ebx=0x756e6547 ecx=0x6c65746e edx=0x49656e69\n",
    );
}

#[test]
fn binary_format_lines() {
    let rc = entry(0x0, 0x0, 0b101);
    let expect = format!(
        "  0x00000000 0x0:  00000000_00000000_00000000_00000101  {z}\n{sp}{z}  {z}\n",
        z = "00000000_00000000_00000000_00000000",
        sp = " ".repeat(19),
    );
    assert_eq!(rc.bin_fmt(), expect);
}

#[test]
fn parse_format_appends_tokens() {
    let vendor = CpuVendor::Other;
    let rc = RawCpuid {
        leaf: 0x1,
        sub_leaf: 0x0,
        result: CpuidResult { eax: 0, ebx: 0, ecx: 0, edx: (1 << 25) | (1 << 26) },
    };
    assert_eq!(
        rc.parse_fmt(&vendor),
        "  0x00000001 0x0:  0x00000000 0x00000000 0x00000000 0x06000000 [SSE{2}]\n",
    );
}

#[test]
fn vendor_recognition() {
    let amd = CpuidResult { eax: 0x10, ebx: 0x68747541, ecx: 0x444D4163, edx: 0x69746E65 };
    assert!(matches!(CpuVendor::from_cpuid(&amd), CpuVendor::AuthenticAmd));
    let intel = CpuidResult { eax: 0x16, ebx: 0x756E6547, ecx: 0x6C65746E, edx: 0x49656E69 };
    assert!(matches!(CpuVendor::from_cpuid(&intel), CpuVendor::GenuineIntel));
    let other = CpuidResult { eax: 0, ebx: 1, ecx: 2, edx: 3 };
    assert!(matches!(CpuVendor::from_cpuid(&other), CpuVendor::Other));
}

#[test]
fn select_pool_concatenates_entries() {
    let opt = MainOpt {
        fmt: DumpFormat::Raw,
        dump_all: false,
        save_path: None,
        leaf: None,
        skip_zero: true,
        diff: true,
    };
    let pool = vec![entry(0x0, 0x0, 1), entry(0x1, 0x0, 2)];
    let bytes = opt.select_pool(&pool, &CpuVendor::Other);
    let expect = format!("{}{}", pool[0].raw_fmt(), pool[1].raw_fmt());
    assert_eq!(bytes, expect.into_bytes());
}

#[test]
fn dump_block_prepends_head() {
    let opt = MainOpt {
        fmt: DumpFormat::Raw,
        dump_all: true,
        save_path: None,
        leaf: None,
        skip_zero: false,
        diff: false,
    };
    let pool = vec![entry(0x0, 0x0, 1)];
    let bytes = opt.dump_block("[Thread: 000]\n", &pool, &CpuVendor::Other);
    let expect = format!("[Thread: 000]\n{}", pool[0].raw_fmt());
    assert_eq!(bytes, expect.into_bytes());
}

#[test]
fn heads_and_topo_headers() {
    let hex = hex_head();
    assert!(hex.starts_with("       [Leaf.Sub]    [EAX]   "));
    assert!(hex.contains(&"=".repeat(100)));
    assert_eq!(hex.lines().count(), 2);

    let bin = bin_head();
    assert!(bin.starts_with("       [Leaf.Sub]"));
    assert!(bin.contains("[EAX / ECX]"));
    assert!(bin.contains("[EBX / EDX]"));

    let topo = TopoInfo { pkg_id: 0, core_id: 3, smt_id: 1, x2apic_id: 7 };
    assert_eq!(
        topo_info_head(Some(&topo)),
        "[Pkg: 000, Core: 003, SMT: 001, x2APIC: 007]\n",
    );
    assert_eq!(topo_info_head(None), "");
    assert_eq!(
        topo_info_thread_id_head(12, Some(&topo)),
        "[Pkg: 000, Core: 003, SMT: 001, x2APIC: 007, Thread: 012]\n",
    );
    assert_eq!(topo_info_thread_id_head(5, None), "[Thread: 005]\n");

    let opt = MainOpt::init();
    assert_eq!(opt.thread_id_head(2, None), "[Thread: 002]\n");
    let compat = MainOpt {
        fmt: DumpFormat::CompatCpuid,
        dump_all: true,
        save_path: None,
        leaf: None,
        skip_zero: false,
        diff: false,
    };
    assert_eq!(compat.thread_id_head(2, None), "CPU 2:\n");
    assert_eq!(compat.head_fmt(), "");
}

#[test]
fn parse_dispatch_by_vendor() {
    // The cache-properties layout: level 2 unified, 4-way, 64-byte lines.
    let cache = CpuidResult { eax: 3 | (2 << 5), ebx: (3 << 22) | 63, ecx: 255, edx: 0 };
    let intel_leaf = RawCpuid { leaf: 0x4, sub_leaf: 0, result: cache };
    let amd_leaf = RawCpuid { leaf: 0x8000_001D, sub_leaf: 0, result: cache };

    let on_intel = intel_leaf.parse(&CpuVendor::GenuineIntel);
    assert!(on_intel.starts_with(" [L2U,   4-way,"));
    // The Intel cache leaf means nothing on another vendor.
    assert_eq!(intel_leaf.parse(&CpuVendor::AuthenticAmd), "");

    let on_amd = amd_leaf.parse(&CpuVendor::AuthenticAmd);
    assert!(on_amd.starts_with(" [L2U,   4-way,"));
    assert_eq!(amd_leaf.parse(&CpuVendor::GenuineIntel), "");
}

#[test]
fn raw_format_wide_sub_leaf() {
    let rc = entry(0x8000_001D, 0x12, 0xDEADBEEF);
    assert_eq!(
        rc.raw_fmt(),
        "  0x8000001D 0x12:  0xDEADBEEF 0x00000000 0x00000000 0x00000000\n",
    );
}
