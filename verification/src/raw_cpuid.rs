//! One captured invocation of the identification instruction and its four
//! fixed-width text encodings.

use vstd::prelude::*;

use crate::parse_generic::addr_size_chars;
use crate::parse_generic::cache_prop_chars;
use crate::parse_generic::feature_00_01h_tokens;
use crate::parse_generic::feature_00_07h_x0_tokens;
use crate::parse_generic::feature_80_01h_tokens;
use crate::parse_generic::ftr_00_07_eax_x1;
use crate::parse_generic::vendor_bytes;
use crate::parse_generic::xstate_00_0dh_chars;
use crate::parse_util::chars_of_bytes;
use crate::parse_util::detect;
use crate::parse_util::mold;
use crate::parse_util::mold_piece;
use crate::reg::bit32;
use crate::reg::CpuidResult;
use crate::strfmt::hex32_lower;
use crate::strfmt::hex32_upper;
use crate::strfmt::hex_min_lower;
use crate::strfmt::hex_min_upper;
use crate::strfmt::push_hex32_lower;
use crate::strfmt::push_hex32_upper;
use crate::strfmt::push_hex_min_lower;
use crate::strfmt::push_hex_min_upper;
use crate::strfmt::repeat_char;
use crate::PARSE_WIDTH;

verus! {

/// The recognized processor vendors; the vendor decides which
/// vendor-specific leaves are decoded.
#[derive(Clone, Copy, Debug, PartialEq, Eq, Structural)]
pub enum CpuVendor {
    AuthenticAmd,
    GenuineIntel,
    Other,
}

/// The vendor identified by the three signature registers of leaf 0.
pub open spec fn vendor_of(c: CpuidResult) -> CpuVendor {
    if c.ebx == 0x68747541 && c.edx == 0x69746E65 && c.ecx == 0x444D4163 {
        CpuVendor::AuthenticAmd
    } else if c.ebx == 0x756E6547 && c.edx == 0x49656E69 && c.ecx == 0x6C65746E {
        CpuVendor::GenuineIntel
    } else {
        CpuVendor::Other
    }
}

impl CpuVendor {
    /// Recognizes the vendor from the signature registers of leaf 0.
    pub fn from_cpuid(c: &CpuidResult) -> (r: CpuVendor)
        ensures
            r == vendor_of(*c),
    {
        if c.ebx == 0x68747541 && c.edx == 0x69746E65 && c.ecx == 0x444D4163 {
            CpuVendor::AuthenticAmd
        } else if c.ebx == 0x756E6547 && c.edx == 0x49656E69 && c.ecx == 0x6C65746E {
            CpuVendor::GenuineIntel
        } else {
            CpuVendor::Other
        }
    }
}

/// The query coordinate and the four registers captured for it.
#[derive(Clone, Copy, Debug, PartialEq, Eq, Structural)]
pub struct RawCpuid {
    pub leaf: u32,
    pub sub_leaf: u32,
    pub result: CpuidResult,
}

/// True when all four captured registers are zero.
pub open spec fn result_zero(rc: RawCpuid) -> bool {
    rc.result.eax == 0 && rc.result.ebx == 0 && rc.result.ecx == 0 && rc.result.edx == 0
}

/// The input column of one dump line: the leaf in fixed-width hex and the
/// sub-leaf in minimal-width hex.
pub open spec fn input_chars(leaf: u32, sub_leaf: u32) -> Seq<char> {
    "  0x"@ + hex32_upper(leaf) + " 0x"@ + hex_min_upper(sub_leaf as nat) + ":  "@
}

/// The output column of one dump line: the four registers in fixed-width
/// hex.
pub open spec fn regs_chars(r: CpuidResult) -> Seq<char> {
    "0x"@ + hex32_upper(r.eax) + " 0x"@ + hex32_upper(r.ebx) + " 0x"@ + hex32_upper(r.ecx)
        + " 0x"@ + hex32_upper(r.edx)
}

/// One register as a 35-character binary string: four octets, most
/// significant first, separated by underscores.
pub open spec fn bin_octet(x: u32, hi: int) -> Seq<char> {
    Seq::new(8, |i: int| if bit32(x, (hi - i) as u32) {
        '1'
    } else {
        '0'
    })
}

/// The 35-character binary rendering of one register.
pub open spec fn bin35(x: u32) -> Seq<char> {
    bin_octet(x, 31) + seq!['_'] + bin_octet(x, 23) + seq!['_'] + bin_octet(x, 15) + seq!['_']
        + bin_octet(x, 7)
}

/// The raw encoding of one entry: one line of fixed-width hex.
pub open spec fn raw_fmt_chars(rc: RawCpuid) -> Seq<char> {
    input_chars(rc.leaf, rc.sub_leaf) + regs_chars(rc.result) + "\n"@
}

/// The binary encoding of one entry: eax and ebx on the first line, ecx
/// and edx on the second, aligned under the same columns.
pub open spec fn bin_fmt_chars(rc: RawCpuid) -> Seq<char> {
    input_chars(rc.leaf, rc.sub_leaf) + bin35(rc.result.eax) + "  "@ + bin35(rc.result.ebx)
        + "\n"@ + repeat_char(' ', 19) + bin35(rc.result.ecx) + "  "@ + bin35(rc.result.edx)
        + "\n"@
}

/// The compatibility encoding of one entry: the plain lower-case
/// leaf/sub-leaf plus named-register line format of the well-known
/// third-party dump tool.
pub open spec fn compat_fmt_chars(rc: RawCpuid) -> Seq<char> {
    "   0x"@ + hex32_lower(rc.leaf) + " 0x"@ + (if rc.sub_leaf < 16 {
        seq!['0'] + hex_min_lower(rc.sub_leaf as nat)
    } else {
        hex_min_lower(rc.sub_leaf as nat)
    }) + ": eax=0x"@ + hex32_lower(rc.result.eax) + " ebx=0x"@ + hex32_lower(rc.result.ebx)
        + " ecx=0x"@ + hex32_lower(rc.result.ecx) + " edx=0x"@ + hex32_lower(rc.result.edx)
        + "\n"@
}

/// The decoded token text of one entry, as selected by its leaf, sub-leaf
/// and the vendor: empty for coordinates this library does not decode.
pub open spec fn parse_chars(rc: RawCpuid, vendor: CpuVendor) -> Seq<char> {
    if rc.leaf == 0 && rc.sub_leaf == 0 {
        mold_piece(chars_of_bytes(vendor_bytes(rc.result)))
    } else if rc.leaf == 0x1 && rc.sub_leaf == 0 {
        mold(feature_00_01h_tokens(rc.result.ecx, rc.result.edx), PARSE_WIDTH as nat)
    } else if rc.leaf == 0x4 && vendor == CpuVendor::GenuineIntel {
        cache_prop_chars(rc.result)
    } else if rc.leaf == 0x7 && rc.sub_leaf == 0 {
        mold(
            feature_00_07h_x0_tokens(rc.result.ebx, rc.result.ecx, rc.result.edx),
            PARSE_WIDTH as nat,
        )
    } else if rc.leaf == 0x7 && rc.sub_leaf == 1 {
        mold(detect(rc.result.eax, ftr_00_07_eax_x1()), PARSE_WIDTH as nat)
    } else if rc.leaf == 0xD {
        xstate_00_0dh_chars(rc.sub_leaf, rc.result.eax)
    } else if rc.leaf == 0x8000_0001 && rc.sub_leaf == 0 {
        mold(feature_80_01h_tokens(rc.result.ecx, rc.result.edx), PARSE_WIDTH as nat)
    } else if rc.leaf == 0x8000_0008 && rc.sub_leaf == 0 {
        addr_size_chars(rc.result.eax)
    } else if rc.leaf == 0x8000_001D && vendor == CpuVendor::AuthenticAmd {
        cache_prop_chars(rc.result)
    } else {
        Seq::empty()
    }
}

/// The parsed encoding of one entry: the raw hex line followed inline by
/// the decoded tokens.
pub open spec fn parse_fmt_chars(rc: RawCpuid, vendor: CpuVendor) -> Seq<char> {
    input_chars(rc.leaf, rc.sub_leaf) + regs_chars(rc.result) + parse_chars(rc, vendor) + "\n"@
}

/// True when the entry can be decoded without reading bytes this library
/// rejects: the vendor leaf carries only bytes below 0x80.
pub open spec fn parse_ok(rc: RawCpuid) -> bool {
    (rc.leaf == 0 && rc.sub_leaf == 0) ==> forall|i: int|
        0 <= i < 12 ==> vendor_bytes(rc.result)[i] < 0x80
}

/// Appends the input column of one dump line to `s`.
fn push_input(s: &mut String, leaf: u32, sub_leaf: u32)
    ensures
        final(s)@ == old(s)@ + input_chars(leaf, sub_leaf),
{
    s.append("  0x");
    push_hex32_upper(s, leaf);
    s.append(" 0x");
    push_hex_min_upper(s, sub_leaf);
    s.append(":  ");
    proof {
        assert(final(s)@ =~= old(s)@ + input_chars(leaf, sub_leaf));
    }
}

/// Appends the output column of one dump line to `s`.
fn push_regs(s: &mut String, r: &CpuidResult)
    ensures
        final(s)@ == old(s)@ + regs_chars(*r),
{
    s.append("0x");
    push_hex32_upper(s, r.eax);
    s.append(" 0x");
    push_hex32_upper(s, r.ebx);
    s.append(" 0x");
    push_hex32_upper(s, r.ecx);
    s.append(" 0x");
    push_hex32_upper(s, r.edx);
    proof {
        assert(final(s)@ =~= old(s)@ + regs_chars(*r));
    }
}

/// Appends one octet of `x`, bits `hi` down to `hi - 7`, to `s`.
fn push_bin_octet(s: &mut String, x: u32, hi: u32)
    requires
        7 <= hi < 32,
    ensures
        final(s)@ == old(s)@ + bin_octet(x, hi as int),
{
    let mut i: u32 = 0;
    proof {
        reveal_strlit("1");
        reveal_strlit("0");
    }
    while i < 8
        invariant
            i <= 8,
            7 <= hi < 32,
            "1"@ == seq!['1'] && "0"@ == seq!['0'],
            s@ == old(s)@ + bin_octet(x, hi as int).take(i as int),
        decreases 8 - i,
    {
        if (x >> (hi - i)) & 1 == 1 {
            s.append("1");
        } else {
            s.append("0");
        }
        proof {
            assert(bin_octet(x, hi as int).take(i + 1) =~= bin_octet(x, hi as int).take(
                i as int,
            ).push(bin_octet(x, hi as int)[i as int]));
            assert(s@ =~= old(s)@ + bin_octet(x, hi as int).take(i + 1));
        }
        i += 1;
    }
    proof {
        assert(bin_octet(x, hi as int).take(8) =~= bin_octet(x, hi as int));
    }
}

/// Appends the 35-character binary rendering of `x` to `s`.
fn push_bin35(s: &mut String, x: u32)
    ensures
        final(s)@ == old(s)@ + bin35(x),
{
    push_bin_octet(s, x, 31);
    s.append("_");
    push_bin_octet(s, x, 23);
    s.append("_");
    push_bin_octet(s, x, 15);
    s.append("_");
    push_bin_octet(s, x, 7);
    proof {
        reveal_strlit("_");
        assert(final(s)@ =~= old(s)@ + bin35(x));
    }
}

impl RawCpuid {
    /// True when all four captured registers are zero; such entries are
    /// dropped from a sweep when zero-skip filtering is enabled.
    pub fn check_result_zero(&self) -> (r: bool)
        ensures
            r == result_zero(*self),
    {
        self.result.eax == 0 && self.result.ebx == 0 && self.result.ecx == 0 && self.result.edx
            == 0
    }

    /// Renders the entry in the raw encoding: one fixed-width hex line.
    pub fn raw_fmt(&self) -> (r: String)
        ensures
            r@ == raw_fmt_chars(*self),
    {
        let mut s = String::new();
        push_input(&mut s, self.leaf, self.sub_leaf);
        push_regs(&mut s, &self.result);
        s.append("\n");
        proof {
            assert(s@ =~= raw_fmt_chars(*self));
        }
        s
    }

    /// Renders the entry in the binary encoding: two column-aligned lines
    /// of grouped binary digits.
    pub fn bin_fmt(&self) -> (r: String)
        ensures
            r@ == bin_fmt_chars(*self),
    {
        let mut s = String::new();
        push_input(&mut s, self.leaf, self.sub_leaf);
        push_bin35(&mut s, self.result.eax);
        s.append("  ");
        push_bin35(&mut s, self.result.ebx);
        s.append("\n");
        let sp = crate::strfmt::spaces(19);
        s.append(sp.as_str());
        push_bin35(&mut s, self.result.ecx);
        s.append("  ");
        push_bin35(&mut s, self.result.edx);
        s.append("\n");
        proof {
            assert(s@ =~= bin_fmt_chars(*self));
        }
        s
    }

    /// Renders the entry in the compatibility encoding: the third-party
    /// tool's lower-case leaf/sub-leaf plus named-register line.
    pub fn compat_fmt(&self) -> (r: String)
        ensures
            r@ == compat_fmt_chars(*self),
    {
        let mut s = String::new();
        s.append("   0x");
        push_hex32_lower(&mut s, self.leaf);
        s.append(" 0x");
        if self.sub_leaf < 16 {
            s.append("0");
            proof {
                reveal_strlit("0");
            }
        }
        push_hex_min_lower(&mut s, self.sub_leaf);
        s.append(": eax=0x");
        push_hex32_lower(&mut s, self.result.eax);
        s.append(" ebx=0x");
        push_hex32_lower(&mut s, self.result.ebx);
        s.append(" ecx=0x");
        push_hex32_lower(&mut s, self.result.ecx);
        s.append(" edx=0x");
        push_hex32_lower(&mut s, self.result.edx);
        s.append("\n");
        proof {
            assert(s@ =~= compat_fmt_chars(*self));
        }
        s
    }

    /// The decoded token text of the entry, selected by leaf, sub-leaf and
    /// vendor; entries this library does not decode yield an empty string.
    pub fn parse(&self, vendor: &CpuVendor) -> (r: String)
        requires
            parse_ok(*self),
        ensures
            r@ == parse_chars(*self, *vendor),
    {
        if self.leaf == 0 && self.sub_leaf == 0 {
            crate::parse_generic::vendor_00_00h(&self.result)
        } else if self.leaf == 0x1 && self.sub_leaf == 0 {
            crate::parse_generic::feature_00_01h(&self.result)
        } else if self.leaf == 0x4 && matches!(vendor, CpuVendor::GenuineIntel) {
            crate::parse_generic::cache_prop(&self.result)
        } else if self.leaf == 0x7 && self.sub_leaf == 0 {
            crate::parse_generic::feature_00_07h_x0(&self.result)
        } else if self.leaf == 0x7 && self.sub_leaf == 1 {
            crate::parse_generic::feature_00_07h_x1(&self.result.eax)
        } else if self.leaf == 0xD {
            crate::parse_generic::xstate_00_0dh(self)
        } else if self.leaf == 0x8000_0001 && self.sub_leaf == 0 {
            crate::parse_generic::feature_80_01h(&self.result)
        } else if self.leaf == 0x8000_0008 && self.sub_leaf == 0 {
            crate::parse_generic::addr_size_80_08h(&self.result.eax)
        } else if self.leaf == 0x8000_001D && matches!(vendor, CpuVendor::AuthenticAmd) {
            crate::parse_generic::cache_prop(&self.result)
        } else {
            String::new()
        }
    }

    /// Renders the entry in the parsed encoding: the raw hex line followed
    /// by the decoded tokens.
    pub fn parse_fmt(&self, vendor: &CpuVendor) -> (r: String)
        requires
            parse_ok(*self),
        ensures
            r@ == parse_fmt_chars(*self, *vendor),
    {
        let mut s = String::new();
        push_input(&mut s, self.leaf, self.sub_leaf);
        push_regs(&mut s, &self.result);
        let parsed = self.parse(vendor);
        s.append(parsed.as_str());
        s.append("\n");
        proof {
            assert(s@ =~= parse_fmt_chars(*self, *vendor));
        }
        s
    }
}

} // verus!
